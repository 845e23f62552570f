//! The messaging endpoint that takes the summaries: where a message goes
//! and what is sent.

use vstd::prelude::*;
use vstd::string::*;

verus! {

/// The body of one message to the messaging endpoint.
#[derive(Debug, Clone)]
pub struct SendMessageBody {
    pub chat_id: String,
    pub text: String,
    pub disable_web_page_preview: bool,
}

/// A bot of the messaging service and the chat it writes to.
pub struct TelegramBot {
    token: String,
    chat_id: String,
}

impl TelegramBot {
    /// The token that identifies the bot.
    pub closed spec fn token(&self) -> Seq<char> {
        self.token@
    }

    /// The chat that the bot writes to.
    pub closed spec fn chat_id(&self) -> Seq<char> {
        self.chat_id@
    }

    /// A bot with the given token that writes to the given chat.
    pub fn new(token: String, chat_id: String) -> (bot: TelegramBot)
        ensures
            bot.token() == token@,
            bot.chat_id() == chat_id@,
    {
        TelegramBot { token, chat_id }
    }

    /// The address that takes this bot's messages.
    pub fn endpoint(&self) -> (url: String)
        ensures
            url@ == "https://api.telegram.org/bot"@ + self.token() + "/sendMessage"@,
    {
        String::from_str("https://api.telegram.org/bot").concat(self.token.as_str()).concat(
            "/sendMessage",
        )
    }

    /// The body that carries `message` to the bot's chat, with link previews off.
    pub fn message_body(&self, message: String) -> (body: SendMessageBody)
        ensures
            body.chat_id@ == self.chat_id(),
            body.text == message,
            body.disable_web_page_preview,
    {
        SendMessageBody {
            chat_id: self.chat_id.clone(),
            text: message,
            disable_web_page_preview: true,
        }
    }
}

} // verus!
