//! A scripted Telegram client for tests.

use crate::telegram::client::{
    TelegramChatId, TelegramInboundMessage, TelegramMessageId, TelegramPhotoAttachment,
    TelegramThreadId,
};
use vstd::prelude::*;

verus! {

/// The settings of a scripted client.
#[derive(Debug, Clone, Copy, PartialEq, Eq, Structural)]
pub struct TestTelegramClientConfig {
    pub capacity: usize,
    pub first_message_id: i32,
}

impl Default for TestTelegramClientConfig {
    fn default() -> (config: Self)
        ensures
            config == (TestTelegramClientConfig { capacity: 128, first_message_id: 1 }),
    {
        TestTelegramClientConfig { capacity: 128, first_message_id: 1 }
    }
}

/// Someone who writes into a scripted chat.
#[derive(Debug, Clone, PartialEq, Eq)]
pub struct TestTelegramActor {
    pub chat_id: TelegramChatId,
    pub thread_id: Option<TelegramThreadId>,
    pub username: Option<String>,
    pub display_name: String,
}

impl TestTelegramActor {
    /// An actor in a chat.
    pub fn new(
        chat_id: TelegramChatId,
        thread_id: Option<TelegramThreadId>,
        username: Option<String>,
        display_name: String,
    ) -> (actor: Self)
        ensures
            actor == (TestTelegramActor { chat_id, thread_id, username, display_name }),
    {
        TestTelegramActor { chat_id, thread_id, username, display_name }
    }

    /// The text message that the actor sends under `message_id`.
    pub fn text_message(&self, message_id: TelegramMessageId, text: String) -> (message:
        TelegramInboundMessage)
        ensures
            message == (TelegramInboundMessage {
                chat_id: self.chat_id,
                thread_id: self.thread_id,
                message_id,
                username: self.username,
                display_name: self.display_name,
                text,
                caption: None,
                photo: None,
            }),
    {
        TelegramInboundMessage {
            chat_id: self.chat_id,
            thread_id: self.thread_id,
            message_id,
            username: self.username.clone(),
            display_name: self.display_name.clone(),
            text,
            caption: None,
            photo: None,
        }
    }

    /// The photo that the actor sends under `message_id`. Its caption is its text.
    pub fn photo_message(
        &self,
        message_id: TelegramMessageId,
        local_path: String,
        caption: Option<String>,
    ) -> (message: TelegramInboundMessage)
        ensures
            message.chat_id == self.chat_id,
            message.thread_id == self.thread_id,
            message.message_id == message_id,
            message.username == self.username,
            message.display_name == self.display_name,
            message.text@ == match caption {
                Some(caption) => caption@,
                None => Seq::empty(),
            },
            message.caption == caption,
            message.photo == Some(TelegramPhotoAttachment { local_path }),
    {
        let text = match &caption {
            Some(caption) => caption.clone(),
            None => String::new(),
        };
        TelegramInboundMessage {
            chat_id: self.chat_id,
            thread_id: self.thread_id,
            message_id,
            username: self.username.clone(),
            display_name: self.display_name.clone(),
            text,
            caption,
            photo: Some(TelegramPhotoAttachment { local_path }),
        }
    }
}

/// Why a scripted client fails.
#[derive(Debug, Clone, Copy, PartialEq, Eq, Structural)]
pub enum TestTelegramError {
    InboxClosed,
    ReceiveTimedOut,
}

impl TestTelegramError {
    /// The error as a sentence.
    pub fn message(&self) -> (text: &'static str)
        ensures
            text@ == match *self {
                TestTelegramError::InboxClosed => "test telegram inbox is closed"@,
                TestTelegramError::ReceiveTimedOut => {
                    "timed out waiting for a test telegram outbound message"@
                },
            },
    {
        match self {
            TestTelegramError::InboxClosed => "test telegram inbox is closed",
            TestTelegramError::ReceiveTimedOut => {
                "timed out waiting for a test telegram outbound message"
            },
        }
    }
}

/// Gives out the numbers of scripted messages.
#[derive(Debug)]
pub struct MessageNumbers {
    pub next: i32,
}

impl MessageNumbers {
    /// Numbers from the first one of `config` on.
    pub fn new(config: TestTelegramClientConfig) -> (numbers: Self)
        ensures
            numbers.next == config.first_message_id,
    {
        MessageNumbers { next: config.first_message_id }
    }

    /// The next number. After the largest one comes the smallest.
    pub fn take(&mut self) -> (message_id: TelegramMessageId)
        ensures
            message_id.0 == old(self).next,
            final(self).next == if old(self).next == i32::MAX {
                i32::MIN as int
            } else {
                old(self).next + 1
            },
    {
        let message_id = TelegramMessageId(self.next);
        self.next = self.next.wrapping_add(1);
        message_id
    }
}

}
