//! Messages of a Telegram chat and the settings of its client.

use crate::text::chars_of;
use vstd::prelude::*;
use vstd::std_specs::convert::FromSpecImpl;

verus! {

/// How long connecting to Telegram may take, in seconds.
pub const TELEGRAM_CONNECT_TIMEOUT_SECONDS: u64 = 5;

/// How long a request to Telegram may take, in seconds.
pub const TELEGRAM_HTTP_TIMEOUT_SECONDS: u64 = 35;

/// How long Telegram holds a poll that has nothing to say, in seconds.
pub const TELEGRAM_POLL_TIMEOUT_SECONDS: u32 = 30;

/// A poll ends before the request that carries it times out.
pub proof fn http_timeout_exceeds_poll_timeout()
    ensures
        TELEGRAM_HTTP_TIMEOUT_SECONDS > TELEGRAM_POLL_TIMEOUT_SECONDS,
{
}

#[derive(Debug, Clone, Copy, PartialEq, Eq, Hash, Structural)]
pub struct TelegramChatId(pub i64);

#[derive(Debug, Clone, Copy, PartialEq, Eq, Hash, Structural)]
pub struct TelegramThreadId(pub i32);

#[derive(Debug, Clone, Copy, PartialEq, Eq, Hash, Structural)]
pub struct TelegramMessageId(pub i32);

/// A photo that was stored on this machine.
#[derive(Debug, Clone, PartialEq, Eq)]
pub struct TelegramPhotoAttachment {
    pub local_path: String,
}

/// A message from a chat.
#[derive(Debug, Clone, PartialEq, Eq)]
pub struct TelegramInboundMessage {
    pub chat_id: TelegramChatId,
    pub thread_id: Option<TelegramThreadId>,
    pub message_id: TelegramMessageId,
    pub username: Option<String>,
    pub display_name: String,
    pub text: String,
    pub caption: Option<String>,
    pub photo: Option<TelegramPhotoAttachment>,
}

/// A message for a chat.
#[derive(Debug, PartialEq, Eq)]
pub struct TelegramOutboundMessage {
    pub chat_id: TelegramChatId,
    pub thread_id: Option<TelegramThreadId>,
    pub reply_to_message_id: Option<TelegramMessageId>,
    pub text: String,
}

impl Clone for TelegramOutboundMessage {
    fn clone(&self) -> (copy: Self)
        ensures
            copy == *self,
    {
        TelegramOutboundMessage {
            chat_id: self.chat_id,
            thread_id: self.thread_id,
            reply_to_message_id: self.reply_to_message_id,
            text: self.text.clone(),
        }
    }
}

/// The place in Telegram that a session belongs to.
#[derive(Debug, PartialEq, Eq)]
pub struct TelegramSurface {
    pub chat_id: TelegramChatId,
    pub thread_id: Option<TelegramThreadId>,
    pub username: Option<String>,
    pub display_name: String,
}

impl Clone for TelegramSurface {
    fn clone(&self) -> (copy: Self)
        ensures
            copy == *self,
    {
        TelegramSurface {
            chat_id: self.chat_id,
            thread_id: self.thread_id,
            username: self.username.clone(),
            display_name: self.display_name.clone(),
        }
    }
}

/// The place that a message came from.
pub open spec fn surface_of(message: TelegramInboundMessage) -> TelegramSurface {
    TelegramSurface {
        chat_id: message.chat_id,
        thread_id: message.thread_id,
        username: message.username,
        display_name: message.display_name,
    }
}

impl From<&TelegramInboundMessage> for TelegramSurface {
    fn from(message: &TelegramInboundMessage) -> (surface: Self) {
        TelegramSurface {
            chat_id: message.chat_id,
            thread_id: message.thread_id,
            username: message.username.clone(),
            display_name: message.display_name.clone(),
        }
    }
}

impl FromSpecImpl<&TelegramInboundMessage> for TelegramSurface {
    open spec fn obeys_from_spec() -> bool {
        true
    }

    open spec fn from_spec(message: &TelegramInboundMessage) -> Self {
        surface_of(*message)
    }
}

impl From<TelegramInboundMessage> for TelegramSurface {
    fn from(message: TelegramInboundMessage) -> (surface: Self) {
        TelegramSurface {
            chat_id: message.chat_id,
            thread_id: message.thread_id,
            username: message.username,
            display_name: message.display_name,
        }
    }
}

impl FromSpecImpl<TelegramInboundMessage> for TelegramSurface {
    open spec fn obeys_from_spec() -> bool {
        true
    }

    open spec fn from_spec(message: TelegramInboundMessage) -> Self {
        surface_of(message)
    }
}

/// A session surface that lies in a Telegram chat.
pub trait TelegramSessionSurface {
    fn telegram_chat_id(&self) -> TelegramChatId;

    fn telegram_thread_id(&self) -> (thread_id: Option<TelegramThreadId>)
        default_ensures
            thread_id is None,
    {
        None
    }
}

impl TelegramSessionSurface for TelegramSurface {
    fn telegram_chat_id(&self) -> (chat_id: TelegramChatId)
        ensures
            chat_id == self.chat_id,
    {
        self.chat_id
    }

    fn telegram_thread_id(&self) -> (thread_id: Option<TelegramThreadId>)
        ensures
            thread_id == self.thread_id,
    {
        self.thread_id
    }
}

/// Why the Telegram client fails. The reasons of Telegram are kept as text.
#[derive(Debug, PartialEq, Eq)]
pub enum TeloxideTelegramError {
    Configuration(String),
    Connect(String),
    Polling(String),
    Send(String),
}

impl TeloxideTelegramError {
    /// The error as a sentence.
    pub open spec fn sentence(self) -> Seq<char> {
        match self {
            TeloxideTelegramError::Configuration(
                reason,
            ) => "telegram client configuration failed: "@ + reason@,
            TeloxideTelegramError::Connect(reason) => "telegram startup validation failed: "@
                + reason@,
            TeloxideTelegramError::Polling(reason) => "telegram polling failed: "@ + reason@,
            TeloxideTelegramError::Send(reason) => "telegram send failed: "@ + reason@,
        }
    }

    /// The error as a sentence.
    pub fn message(&self) -> (text: String)
        ensures
            text@ == self.sentence(),
    {
        match self {
            TeloxideTelegramError::Configuration(
                reason,
            ) => "telegram client configuration failed: ".to_string().concat(reason.as_str()),
            TeloxideTelegramError::Connect(
                reason,
            ) => "telegram startup validation failed: ".to_string().concat(reason.as_str()),
            TeloxideTelegramError::Polling(
                reason,
            ) => "telegram polling failed: ".to_string().concat(reason.as_str()),
            TeloxideTelegramError::Send(
                reason,
            ) => "telegram send failed: ".to_string().concat(reason.as_str()),
        }
    }
}

/// Who wrote a message.
#[derive(Debug)]
pub struct TelegramUser {
    pub username: Option<String>,
    pub first_name: String,
    pub last_name: Option<String>,
}

impl TelegramUser {
    /// The name that is shown for the user: the first name, and the last name where
    /// there is one.
    pub open spec fn shown_name(self) -> Seq<char> {
        match self.last_name {
            Some(last_name) => if last_name@.len() > 0 {
                self.first_name@ + " "@ + last_name@
            } else {
                self.first_name@
            },
            None => self.first_name@,
        }
    }

    /// The name that is shown for the user.
    pub fn display_name(&self) -> (name: String)
        ensures
            name@ == self.shown_name(),
    {
        if let Some(last_name) = &self.last_name {
            if !last_name.as_str().is_empty() {
                return self.first_name.clone().concat(" ").concat(last_name.as_str());
            }
        }
        self.first_name.clone()
    }
}

/// What the client reads of a message that Telegram delivered.
#[derive(Debug)]
pub struct TelegramMessageParts {
    pub chat_id: i64,
    pub thread_id: Option<i32>,
    pub message_id: i32,
    pub from: Option<TelegramUser>,
    pub text: Option<String>,
}

/// The message that a delivered one stands for. One without text stands for none.
pub fn inbound_from_message(parts: &TelegramMessageParts) -> (message: Option<
    TelegramInboundMessage,
>)
    ensures
        message is Some <==> parts.text is Some,
        message matches Some(message) ==> {
            &&& message.chat_id.0 == parts.chat_id
            &&& message.thread_id == match parts.thread_id {
                Some(thread_id) => Some(TelegramThreadId(thread_id)),
                None => None,
            }
            &&& message.message_id.0 == parts.message_id
            &&& message.username == match parts.from {
                Some(user) => user.username,
                None => None,
            }
            &&& message.display_name@ == match parts.from {
                Some(user) => user.shown_name(),
                None => "telegram user"@,
            }
            &&& message.text == parts.text->0
            &&& message.caption is None
            &&& message.photo is None
        },
{
    let text = match &parts.text {
        Some(text) => text.clone(),
        None => {
            return None;
        },
    };
    let username = match &parts.from {
        Some(user) => user.username.clone(),
        None => None,
    };
    let display_name = match &parts.from {
        Some(user) => user.display_name(),
        None => "telegram user".to_string(),
    };
    Some(
        TelegramInboundMessage {
            chat_id: TelegramChatId(parts.chat_id),
            thread_id: match parts.thread_id {
                Some(thread_id) => Some(TelegramThreadId(thread_id)),
                None => None,
            },
            message_id: TelegramMessageId(parts.message_id),
            username,
            display_name,
            text,
            caption: None,
            photo: None,
        },
    )
}

/// The offset that asks Telegram for what follows an update.
pub fn next_offset(update_id: u32) -> (offset: i32)
    ensures
        offset == if update_id < i32::MAX {
            update_id + 1
        } else {
            i32::MAX as int
        },
{
    if update_id < 2147483647 {
        update_id as i32 + 1
    } else {
        2147483647
    }
}

/// Whether `c` has the Unicode property `White_Space`.
pub open spec fn is_white_space(c: char) -> bool {
    ||| 0x9 <= c as int <= 0xd
    ||| c as int == 0x20
    ||| c as int == 0x85
    ||| c as int == 0xa0
    ||| c as int == 0x1680
    ||| 0x2000 <= c as int <= 0x200a
    ||| c as int == 0x2028
    ||| c as int == 0x2029
    ||| c as int == 0x202f
    ||| c as int == 0x205f
    ||| c as int == 0x3000
}

/// `char::is_whitespace` tells whether a character has the Unicode property
/// `White_Space`.
pub assume_specification[ char::is_whitespace ](c: char) -> (white: bool)
    ensures
        white == is_white_space(c),
;

/// The place of the first character that is no white space.
pub open spec fn first_dark(text: Seq<char>) -> int
    decreases text.len(),
{
    if text.len() == 0 || !is_white_space(text[0]) {
        0
    } else {
        1 + first_dark(text.drop_first())
    }
}

/// `text` without the white space at its end.
pub open spec fn end_trimmed(text: Seq<char>) -> Seq<char>
    decreases text.len(),
{
    if text.len() == 0 || !is_white_space(text.last()) {
        text
    } else {
        end_trimmed(text.drop_last())
    }
}

/// `text` without the white space around it.
pub open spec fn trimmed(text: Seq<char>) -> Seq<char> {
    end_trimmed(text.skip(first_dark(text)))
}

proof fn lemma_first_dark(text: Seq<char>, p: int)
    requires
        0 <= p <= text.len(),
        forall|i: int| 0 <= i < p ==> is_white_space(#[trigger] text[i]),
        p < text.len() ==> !is_white_space(text[p]),
    ensures
        first_dark(text) == p,
    decreases p,
{
    if p > 0 {
        let rest = text.drop_first();
        assert forall|i: int| 0 <= i < p - 1 implies is_white_space(#[trigger] rest[i]) by {
            assert(rest[i] == text[i + 1]);
        }
        lemma_first_dark(rest, p - 1);
    }
}

/// A bot token without the white space around it.
pub fn normalize_bot_token(token: &str) -> (normalized: String)
    ensures
        normalized@ == trimmed(token@),
{
    let chars = chars_of(token);
    let mut start: usize = 0;
    while start < chars.len() && chars[start].is_whitespace()
        invariant
            start <= chars.len(),
            forall|i: int| 0 <= i < start ==> is_white_space(#[trigger] chars@[i]),
        decreases chars.len() - start,
    {
        start += 1;
    }
    proof {
        lemma_first_dark(chars@, start as int);
    }
    let mut end: usize = chars.len();
    assert(chars@.subrange(start as int, end as int) =~= chars@.skip(start as int));
    while end > start && chars[end - 1].is_whitespace()
        invariant
            start <= end <= chars.len(),
            end_trimmed(chars@.skip(start as int)) == end_trimmed(
                chars@.subrange(start as int, end as int),
            ),
        decreases end,
    {
        let ghost current = chars@.subrange(start as int, end as int);
        assert(current.drop_last() =~= chars@.subrange(start as int, end - 1));
        end -= 1;
    }
    let mut normalized = String::new();
    let mut i: usize = start;
    while i < end
        invariant
            start <= i <= end <= chars.len(),
            normalized@ == chars@.subrange(start as int, i as int),
        decreases end - i,
    {
        normalized.push(chars[i]);
        assert(chars@.subrange(start as int, i + 1) =~= chars@.subrange(
            start as int,
            i as int,
        ).push(chars@[i as int]));
        i += 1;
    }
    normalized
}

/// Normalizing twice is normalizing once, and a normalized token neither begins nor
/// ends with white space.
pub proof fn normalized_token_stays(token: Seq<char>)
    ensures
        trimmed(trimmed(token)) == trimmed(token),
        trimmed(token).len() > 0 ==> !is_white_space(trimmed(token)[0]) && !is_white_space(
            trimmed(token).last(),
        ),
{
    lemma_first_dark_stops(token);
    let rest = token.skip(first_dark(token));
    lemma_end_trimmed(rest);
    let result = trimmed(token);
    if result.len() > 0 {
        assert(result[0] == rest[0]);
        assert(first_dark(result) == 0);
    }
    assert(result.skip(first_dark(result)) =~= result);
}

proof fn lemma_first_dark_stops(text: Seq<char>)
    ensures
        0 <= first_dark(text) <= text.len(),
        first_dark(text) < text.len() ==> !is_white_space(text[first_dark(text)]),
    decreases text.len(),
{
    if text.len() > 0 && is_white_space(text[0]) {
        lemma_first_dark_stops(text.drop_first());
    }
}

proof fn lemma_end_trimmed(text: Seq<char>)
    ensures
        end_trimmed(text).is_prefix_of(text),
        end_trimmed(text).len() > 0 ==> !is_white_space(end_trimmed(text).last()),
        end_trimmed(end_trimmed(text)) == end_trimmed(text),
    decreases text.len(),
{
    if text.len() > 0 && is_white_space(text.last()) {
        lemma_end_trimmed(text.drop_last());
    }
}

/// Whether `c` is an ASCII digit.
pub open spec fn is_digit(c: char) -> bool {
    '0' as int <= c as int <= '9' as int
}

/// The place of the first colon, or the length of the text.
pub open spec fn colon_place(token: Seq<char>) -> int
    decreases token.len(),
{
    if token.len() == 0 || token[0] == ':' {
        0
    } else {
        1 + colon_place(token.drop_first())
    }
}

/// Why a bot token is refused, if it is.
pub open spec fn token_refusal(token: Seq<char>) -> Option<Seq<char>> {
    let p = colon_place(token);
    if token.len() == 0 {
        Some("bot token is empty"@)
    } else if p == token.len() {
        Some("bot token must contain a ':' separator"@)
    } else if p == 0 || exists|i: int| 0 <= i < p && !is_digit(#[trigger] token[i]) {
        Some("bot token id must be ASCII digits"@)
    } else if p + 1 == token.len() || exists|i: int|
        p < i < token.len() && is_white_space(#[trigger] token[i]) {
        Some("bot token secret must be non-empty and contain no whitespace"@)
    } else {
        None
    }
}

proof fn lemma_colon_place(token: Seq<char>, p: int)
    requires
        0 <= p <= token.len(),
        forall|i: int| 0 <= i < p ==> #[trigger] token[i] != ':',
        p < token.len() ==> token[p] == ':',
    ensures
        colon_place(token) == p,
    decreases p,
{
    if p > 0 {
        let rest = token.drop_first();
        assert forall|i: int| 0 <= i < p - 1 implies #[trigger] rest[i] != ':' by {
            assert(rest[i] == token[i + 1]);
        }
        lemma_colon_place(rest, p - 1);
    }
}

fn configuration(reason: &str) -> (error: TeloxideTelegramError)
    ensures
        error matches TeloxideTelegramError::Configuration(text) && text@ == reason@,
{
    TeloxideTelegramError::Configuration(reason.to_string())
}

/// Refuse a bot token that has not the shape that Telegram gives them: digits, a
/// colon, and a secret without white space.
pub fn validate_bot_token(token: &str) -> (result: Result<(), TeloxideTelegramError>)
    ensures
        match token_refusal(token@) {
            None => result is Ok,
            Some(reason) => result matches Err(TeloxideTelegramError::Configuration(text))
                && text@ == reason,
        },
{
    let chars = chars_of(token);
    if chars.len() == 0 {
        return Err(configuration("bot token is empty"));
    }
    let mut p: usize = 0;
    while p < chars.len() && chars[p] != ':'
        invariant
            p <= chars.len(),
            forall|i: int| 0 <= i < p ==> #[trigger] chars@[i] != ':',
        decreases chars.len() - p,
    {
        p += 1;
    }
    proof {
        lemma_colon_place(chars@, p as int);
    }
    if p == chars.len() {
        return Err(configuration("bot token must contain a ':' separator"));
    }
    if p == 0 {
        return Err(configuration("bot token id must be ASCII digits"));
    }
    let mut i: usize = 0;
    while i < p
        invariant
            0 < p < chars.len(),
            i <= p,
            chars@ == token@,
            p == colon_place(token@),
            forall|k: int| 0 <= k < i ==> is_digit(#[trigger] chars@[k]),
        decreases p - i,
    {
        let digit = '0' <= chars[i] && chars[i] <= '9';
        if !digit {
            assert(!is_digit(token@[i as int]));
            return Err(configuration("bot token id must be ASCII digits"));
        }
        i += 1;
    }
    if p + 1 == chars.len() {
        return Err(
            configuration("bot token secret must be non-empty and contain no whitespace"),
        );
    }
    let mut j: usize = p + 1;
    while j < chars.len()
        invariant
            0 < p < j <= chars.len(),
            p + 1 < chars.len(),
            chars@ == token@,
            p == colon_place(token@),
            forall|k: int| 0 <= k < p ==> is_digit(#[trigger] chars@[k]),
            forall|k: int| p < k < j ==> !is_white_space(#[trigger] chars@[k]),
        decreases chars.len() - j,
    {
        if chars[j].is_whitespace() {
            assert(is_white_space(token@[j as int]));
            return Err(
                configuration("bot token secret must be non-empty and contain no whitespace"),
            );
        }
        j += 1;
    }
    Ok(())
}

}
