//! The requests that the bot platform accepts, each bound to its method name.

use vstd::prelude::*;

verus! {

/// A request body of the bot platform, tied to the method that takes it.
pub trait TelegramMethod {
    /// The method name, as a sequence of characters.
    spec fn method_name() -> Seq<char>;

    /// The method name that the request is posted to.
    fn method() -> (r: String)
        ensures
            r@ == Self::method_name(),
    ;
}

/// Sends a file, here a picture in full resolution.
pub struct SendDocument {
    /// Unique identifier for the target chat or username of the target channel
    /// (in the format @channelusername)
    pub chat_id: String,
    /// File to send: a file id known to the platform or an HTTP URL.
    pub document: String,
    /// Thumbnail of the file sent.
    pub thumb: Option<String>,
    /// Document caption, 0-1024 characters
    pub caption: Option<String>,
}

impl TelegramMethod for SendDocument {
    open spec fn method_name() -> Seq<char> {
        "sendDocument"@
    }

    fn method() -> (r: String) {
        String::from_str("sendDocument")
    }
}

/// Sends a text message.
pub struct SendMessage {
    /// Unique identifier for the target chat or username of the target channel
    pub chat_id: String,
    /// Text of the message to be sent
    pub text: String,
    /// Sends the message silently.
    pub disable_notification: bool,
    /// Markdown or HTML, for formatted text.
    pub parse_mode: String,
}

impl TelegramMethod for SendMessage {
    open spec fn method_name() -> Seq<char> {
        "sendMessage"@
    }

    fn method() -> (r: String) {
        String::from_str("sendMessage")
    }
}

/// Sends a single photo.
pub struct SendPhoto {
    /// Unique identifier for the target chat or username of the target channel
    pub chat_id: String,
    /// Photo to send: a file id known to the platform or an HTTP URL.
    pub photo: String,
    /// Photo caption, 0-1024 characters
    pub caption: Option<String>,
}

impl TelegramMethod for SendPhoto {
    open spec fn method_name() -> Seq<char> {
        "sendPhoto"@
    }

    fn method() -> (r: String) {
        String::from_str("sendPhoto")
    }
}

/// Sends a native poll. A native poll can't be sent to a private chat.
pub struct SendPoll {
    /// Unique identifier for the target chat or username of the target channel
    pub chat_id: String,
    /// Poll question, 1-255 characters
    pub question: String,
    /// List of answer options, 2-10 strings 1-100 characters each
    pub options: Vec<String>,
    /// Sends the message silently.
    pub disable_notification: bool,
    /// Markdown or HTML, for formatted text.
    pub parse_mode: String,
}

impl TelegramMethod for SendPoll {
    open spec fn method_name() -> Seq<char> {
        "sendPoll"@
    }

    fn method() -> (r: String) {
        String::from_str("sendPoll")
    }
}

impl SendPoll {
    /// A poll with no options yet, in HTML mode, with notification.
    pub fn new(chat_id: String, question: String) -> (r: SendPoll)
        ensures
            r.chat_id == chat_id,
            r.question == question,
            r.options@.len() == 0,
            !r.disable_notification,
            r.parse_mode@ == "HTML"@,
    {
        SendPoll {
            chat_id,
            question,
            options: Vec::new(),
            disable_notification: false,
            parse_mode: String::from_str("HTML"),
        }
    }

    /// Appends an answer option.
    pub fn add_option(&mut self, option: String)
        ensures
            final(self).options@ == old(self).options@.push(option),
            final(self).chat_id == old(self).chat_id,
            final(self).question == old(self).question,
            final(self).disable_notification == old(self).disable_notification,
            final(self).parse_mode == old(self).parse_mode,
    {
        self.options.push(option);
    }
}

/// One photo of an album.
pub struct InputMediaPhoto {
    /// Type of the result, must be `photo`
    pub photo_type: String,
    /// File to send: a file id known to the platform or an HTTP URL.
    pub media: String,
    /// Caption of the photo, 0-1024 characters
    pub caption: Option<String>,
    /// Markdown or HTML, for a formatted caption.
    pub parse_mode: String,
}

impl InputMediaPhoto {
    /// A captioned photo of an album, in HTML mode.
    pub fn new(media: String, caption: String) -> (r: InputMediaPhoto)
        ensures
            r.photo_type@ == "photo"@,
            r.media == media,
            r.caption == Some(caption),
            r.parse_mode@ == "HTML"@,
    {
        InputMediaPhoto {
            photo_type: String::from_str("photo"),
            media,
            caption: Some(caption),
            parse_mode: String::from_str("HTML"),
        }
    }
}

/// Sends a group of photos as an album.
pub struct SendMediaGroup {
    /// Unique identifier for the target chat or username of the target channel
    pub chat_id: String,
    /// The photos, in order.
    pub media: Vec<InputMediaPhoto>,
    /// Sends the message silently.
    pub disable_notification: bool,
}

impl TelegramMethod for SendMediaGroup {
    open spec fn method_name() -> Seq<char> {
        "sendMediaGroup"@
    }

    fn method() -> (r: String) {
        String::from_str("sendMediaGroup")
    }
}

impl SendMediaGroup {
    /// An empty album, with notification.
    pub fn new(chat_id: String) -> (r: SendMediaGroup)
        ensures
            r.chat_id == chat_id,
            r.media@.len() == 0,
            !r.disable_notification,
    {
        SendMediaGroup { chat_id, media: Vec::new(), disable_notification: false }
    }

    /// Appends a photo to the album.
    pub fn add_photo(&mut self, photo: InputMediaPhoto)
        ensures
            final(self).media@ == old(self).media@.push(photo),
            final(self).chat_id == old(self).chat_id,
            final(self).disable_notification == old(self).disable_notification,
    {
        self.media.push(photo);
    }
}

/// The base address of the bot platform's API.
pub open spec fn platform_base() -> Seq<char> {
    "https://api.telegram.org/bot"@
}

/// A bot of the platform, known by its access token.
pub struct Telegram {
    bot_token: String,
}

impl Telegram {
    /// The bot's access token.
    pub closed spec fn token(&self) -> Seq<char> {
        self.bot_token@
    }

    pub fn new(token: String) -> (r: Telegram)
        ensures
            r.token() == token@,
    {
        Telegram { bot_token: token }
    }

    /// The address that a request of kind `B` is posted to.
    pub fn endpoint<B: TelegramMethod>(&self) -> (r: String)
        ensures
            r@ == platform_base() + self.token() + "/"@ + B::method_name(),
    {
        let mut r = String::from_str("https://api.telegram.org/bot");
        r.append(self.bot_token.as_str());
        r.append("/");
        let method = B::method();
        r.append(method.as_str());
        r
    }
}

} // verus!
