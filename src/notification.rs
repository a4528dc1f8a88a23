//! The address of the messaging service that carries the reports.
use vstd::prelude::*;

verus! {

/// Sends messages through one bot of the messaging service.
pub struct TelegramClient {
    pub url: String,
}

/// The endpoint that sends a message as the bot with the given token.
pub open spec fn send_message_url(token: Seq<char>) -> Seq<char> {
    "https://api.telegram.org/bot"@ + token + "/sendMessage"@
}

impl TelegramClient {
    pub fn new(token: String) -> (r: TelegramClient)
        ensures
            r.url@ == send_message_url(token@),
    {
        let mut url = String::from_str("https://api.telegram.org/bot");
        url.append(token.as_str());
        url.append("/sendMessage");
        TelegramClient { url }
    }
}

} // verus!
