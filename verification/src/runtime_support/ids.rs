//! Identifiers for examples and tests.

use crate::agent::schema::AgentIds;
use crate::json_text::hex_digit;
use std::borrow::Cow;
use std::marker::PhantomData;
use vstd::arithmetic::power::pow;
use vstd::prelude::*;
use vstd::std_specs::cmp::PartialEqSpecImpl;
use vstd::std_specs::convert::FromSpecImpl;

verus! {

/// Whether `value` is marked as a random UUID: version four, in the usual variant.
pub open spec fn is_random_uuid(value: u128) -> bool {
    &&& (value as int / pow(2, 76)) % 16 == 4
    &&& (value as int / pow(2, 62)) % 4 == 2
}

/// The hexadecimal digit of `value` at `place`, the highest one at zero.
pub open spec fn uuid_digit(value: u128, place: int) -> char {
    hex_digit((value as int / pow(16, (31 - place) as nat)) % 16)
}

/// A UUID as text: its digits in lower case, in groups of eight, four, four, four
/// and twelve with a hyphen between each two.
pub open spec fn uuid_text(value: u128) -> Seq<char> {
    Seq::new(
        36,
        |i: int|
            if i == 8 || i == 13 || i == 18 || i == 23 {
                '-'
            } else if i < 8 {
                uuid_digit(value, i)
            } else if i < 13 {
                uuid_digit(value, i - 1)
            } else if i < 18 {
                uuid_digit(value, i - 2)
            } else if i < 23 {
                uuid_digit(value, i - 3)
            } else {
                uuid_digit(value, i - 4)
            },
    )
}

/// `uuid::Uuid::new_v4` makes a random UUID, which is marked as one. Nothing else is
/// claimed of its bits, nor that two of them differ.
#[verifier::external_body]
fn random_uuid() -> (value: u128)
    ensures
        is_random_uuid(value),
{
    uuid::Uuid::new_v4().as_u128()
}

/// `uuid::Uuid::to_string` writes a UUID in hyphenated groups of lower-case
/// hexadecimal digits.
#[verifier::external_body]
fn hyphenated(value: u128) -> (text: String)
    ensures
        text@ == uuid_text(value),
{
    uuid::Uuid::from_u128(value).to_string()
}

/// UUID-backed identifier.
#[derive(Debug, Hash)]
pub struct UuidId<Tag> {
    pub value: u128,
    pub tag: PhantomData<Tag>,
}

impl<Tag> Clone for UuidId<Tag> {
    fn clone(&self) -> (copy: Self)
        ensures
            copy == *self,
    {
        UuidId { value: self.value, tag: PhantomData }
    }
}

impl<Tag> Copy for UuidId<Tag> {

}

impl<Tag> PartialEq for UuidId<Tag> {
    fn eq(&self, other: &Self) -> (same: bool) {
        self.value == other.value
    }
}

impl<Tag> PartialEqSpecImpl for UuidId<Tag> {
    open spec fn obeys_eq_spec() -> bool {
        true
    }

    open spec fn eq_spec(&self, other: &Self) -> bool {
        self.value == other.value
    }
}

impl<Tag> Eq for UuidId<Tag> {

}

impl<Tag> UuidId<Tag> {
    /// The identifier with the bits of a UUID.
    pub fn new(value: u128) -> (id: Self)
        ensures
            id.value == value,
    {
        UuidId { value, tag: PhantomData }
    }

    /// The bits of the UUID.
    pub fn as_uuid(&self) -> (value: &u128)
        ensures
            *value == self.value,
    {
        &self.value
    }

    /// The bits of the UUID.
    pub fn into_uuid(self) -> (value: u128)
        ensures
            value == self.value,
    {
        self.value
    }

    /// The UUID as text.
    pub fn text(&self) -> (text: String)
        ensures
            text@ == uuid_text(self.value),
    {
        hyphenated(self.value)
    }
}

impl<Tag> From<u128> for UuidId<Tag> {
    fn from(value: u128) -> (id: Self) {
        UuidId { value, tag: PhantomData }
    }
}

impl<Tag> FromSpecImpl<u128> for UuidId<Tag> {
    open spec fn obeys_from_spec() -> bool {
        true
    }

    open spec fn from_spec(value: u128) -> Self {
        UuidId { value, tag: PhantomData }
    }
}

/// Borrowed-or-owned string identifier.
#[derive(Debug, Hash)]
pub struct LabelId<Tag> {
    pub label: Cow<'static, str>,
    pub tag: PhantomData<Tag>,
}

impl<Tag> Clone for LabelId<Tag> {
    fn clone(&self) -> (copy: Self)
        ensures
            copy == *self,
    {
        let label = match &self.label {
            Cow::Borrowed(label) => Cow::Borrowed(*label),
            Cow::Owned(label) => Cow::Owned(label.clone()),
        };
        LabelId { label, tag: PhantomData }
    }
}

impl<Tag> PartialEq for LabelId<Tag> {
    fn eq(&self, other: &Self) -> (same: bool) {
        self.as_str().to_string() == other.as_str().to_string()
    }
}

impl<Tag> PartialEqSpecImpl for LabelId<Tag> {
    open spec fn obeys_eq_spec() -> bool {
        true
    }

    open spec fn eq_spec(&self, other: &Self) -> bool {
        self.label@ == other.label@
    }
}

impl<Tag> Eq for LabelId<Tag> {

}

impl<Tag> LabelId<Tag> {
    /// The identifier with this label.
    pub fn new(label: Cow<'static, str>) -> (id: Self)
        ensures
            id.label == label,
    {
        LabelId { label, tag: PhantomData }
    }

    /// The label.
    pub fn as_str(&self) -> (label: &str)
        ensures
            label@ == self.label@,
    {
        match &self.label {
            Cow::Borrowed(label) => *label,
            Cow::Owned(label) => label.as_str(),
        }
    }

    /// The label as a text of its own.
    pub fn into_owned(self) -> (label: String)
        ensures
            label@ == self.label@,
    {
        match self.label {
            Cow::Borrowed(label) => label.to_string(),
            Cow::Owned(label) => label,
        }
    }
}

impl<Tag> AsRef<str> for LabelId<Tag> {
    fn as_ref(&self) -> (label: &str)
        ensures
            label@ == self.label@,
    {
        self.as_str()
    }
}

impl<Tag> From<&'static str> for LabelId<Tag> {
    fn from(label: &'static str) -> (id: Self) {
        LabelId { label: Cow::Borrowed(label), tag: PhantomData }
    }
}

impl<Tag> FromSpecImpl<&'static str> for LabelId<Tag> {
    open spec fn obeys_from_spec() -> bool {
        true
    }

    open spec fn from_spec(label: &'static str) -> Self {
        LabelId { label: Cow::Borrowed(label), tag: PhantomData }
    }
}

impl<Tag> From<String> for LabelId<Tag> {
    fn from(label: String) -> (id: Self) {
        LabelId { label: Cow::Owned(label), tag: PhantomData }
    }
}

impl<Tag> FromSpecImpl<String> for LabelId<Tag> {
    open spec fn obeys_from_spec() -> bool {
        true
    }

    open spec fn from_spec(label: String) -> Self {
        LabelId { label: Cow::Owned(label), tag: PhantomData }
    }
}

#[derive(Debug, Clone, Copy, PartialEq, Eq, Hash)]
pub struct EventTag;

pub type EventId = UuidId<EventTag>;

#[derive(Debug, Clone, Copy, PartialEq, Eq, Hash)]
pub struct SessionTag;

pub type SessionId = UuidId<SessionTag>;

#[derive(Debug, Clone, Copy, PartialEq, Eq, Hash)]
pub struct ThreadTag;

pub type ThreadId = UuidId<ThreadTag>;

#[derive(Debug, Clone, Copy, PartialEq, Eq, Hash)]
pub struct TurnTag;

pub type TurnId = UuidId<TurnTag>;

#[derive(Debug, Clone, Copy, PartialEq, Eq, Hash)]
pub struct InputStreamTag;

pub type InputStreamId = UuidId<InputStreamTag>;

#[derive(Debug, Clone, Copy, PartialEq, Eq, Hash)]
pub struct RevisionTag;

pub type RevisionId = UuidId<RevisionTag>;

#[derive(Debug, Clone, Copy, PartialEq, Eq, Hash)]
pub struct InferenceRequestTag;

pub type InferenceRequestId = UuidId<InferenceRequestTag>;

#[derive(Debug, Clone, Copy, PartialEq, Eq, Hash)]
pub struct InferenceRunTag;

pub type InferenceRunId = UuidId<InferenceRunTag>;

#[derive(Debug, Clone, Copy, PartialEq, Eq, Hash)]
pub struct StatusTag;

pub type StatusId = UuidId<StatusTag>;

#[derive(Debug, Clone, Copy, PartialEq, Eq, Hash)]
pub struct ToolCallTag;

pub type ToolCallId = LabelId<ToolCallTag>;

#[derive(Debug, Clone, Copy, PartialEq, Eq, Hash)]
pub struct WorkerTag;

pub type WorkerId = LabelId<WorkerTag>;

#[derive(Debug, Clone, Copy, PartialEq, Eq, Hash)]
pub struct EngineTag;

pub type EngineId = LabelId<EngineTag>;

#[derive(Debug, Clone, Copy, PartialEq, Eq, Hash)]
pub struct ToolNameTag;

pub type ToolName = LabelId<ToolNameTag>;

/// A random identifier.
pub fn fresh_uuid_id<Tag>() -> (id: UuidId<Tag>)
    ensures
        is_random_uuid(id.value),
{
    UuidId::new(random_uuid())
}

/// An identifier labelled with a random UUID.
pub fn fresh_label_id<Tag>() -> (id: LabelId<Tag>)
    ensures
        exists|value: u128| is_random_uuid(value) && id.label@ == #[trigger] uuid_text(value),
{
    let value: u128 = random_uuid();
    let label = hyphenated(value);
    assert(label@ == uuid_text(value));
    LabelId { label: Cow::Owned(label), tag: PhantomData }
}

/// Default identifier bundle for examples and tests.
#[derive(Debug, Clone, Copy, Default)]
pub struct DefaultAgentIds;

impl AgentIds for DefaultAgentIds {
    type SessionId = SessionId;

    type ThreadId = ThreadId;

    type TurnId = TurnId;

    type InputStreamId = InputStreamId;

    type RevisionId = RevisionId;

    type InferenceRequestId = InferenceRequestId;

    type InferenceRunId = InferenceRunId;

    type StatusId = StatusId;

    type ToolCallId = ToolCallId;

    type EventId = EventId;

    type WorkerId = WorkerId;

    fn next_session_id() -> (id: SessionId)
        ensures
            is_random_uuid(id.value),
    {
        fresh_uuid_id()
    }

    fn next_thread_id() -> (id: ThreadId)
        ensures
            is_random_uuid(id.value),
    {
        fresh_uuid_id()
    }

    fn next_turn_id() -> (id: TurnId)
        ensures
            is_random_uuid(id.value),
    {
        fresh_uuid_id()
    }

    fn next_input_stream_id() -> (id: InputStreamId)
        ensures
            is_random_uuid(id.value),
    {
        fresh_uuid_id()
    }

    fn next_revision_id() -> (id: RevisionId)
        ensures
            is_random_uuid(id.value),
    {
        fresh_uuid_id()
    }

    fn next_inference_request_id() -> (id: InferenceRequestId)
        ensures
            is_random_uuid(id.value),
    {
        fresh_uuid_id()
    }

    fn next_inference_run_id() -> (id: InferenceRunId)
        ensures
            is_random_uuid(id.value),
    {
        fresh_uuid_id()
    }

    fn next_status_id() -> (id: StatusId)
        ensures
            is_random_uuid(id.value),
    {
        fresh_uuid_id()
    }

    fn next_tool_call_id() -> (id: ToolCallId)
        ensures
            exists|value: u128| is_random_uuid(value) && id.label@ == #[trigger] uuid_text(value),
    {
        fresh_label_id()
    }

    fn next_event_id() -> (id: EventId)
        ensures
            is_random_uuid(id.value),
    {
        fresh_uuid_id()
    }
}

proof fn lemma_places_of_the_marks()
    ensures
        pow(16, 19) == pow(2, 76),
        pow(16, 15) * 4 == pow(2, 62),
        pow(16, 15) > 0,
{
    reveal_with_fuel(pow, 80);
}

/// A random UUID shows what it is: the first digit of its third group is a four, and the
/// first one of its fourth group is an eight, a nine, an `a` or a `b`. Its groups stand
/// behind hyphens.
pub proof fn random_uuids_show_their_marks(value: u128)
    requires
        is_random_uuid(value),
    ensures
        uuid_text(value).len() == 36,
        uuid_text(value)[8] == '-',
        uuid_text(value)[13] == '-',
        uuid_text(value)[14] == '4',
        uuid_text(value)[18] == '-',
        uuid_text(value)[19] == '8' || uuid_text(value)[19] == '9' || uuid_text(value)[19] == 'a'
            || uuid_text(value)[19] == 'b',
        uuid_text(value)[23] == '-',
{
    lemma_places_of_the_marks();
    let unit = pow(16, 15);
    let high = value as int / unit;
    assert(high / 4 == value as int / (unit * 4)) by {
        vstd::arithmetic::div_mod::lemma_div_denominator(value as int, unit, 4);
    }
    assert((high / 4) % 4 == 2);
    assert(high % 16 == 8 || high % 16 == 9 || high % 16 == 10 || high % 16 == 11);
}

}
