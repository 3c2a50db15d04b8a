//! Conversation messages and the running history of one chat.

use vstd::prelude::*;
use crate::text::{has_prefix, starts_with};

verus! {

/// What a message contributes to a request body.
pub enum ApiContent {
    /// Plain text.
    Text(String),
    /// An inline image, given as a data URL, followed by text.
    ImageAndText { url: String, text: String },
}

/// The standard base64 encoding, with padding, that
/// `base64::engine::general_purpose::STANDARD` produces for a byte string.
pub uninterp spec fn base64_standard(data: Seq<u8>) -> Seq<char>;

/// Calls `base64::Engine::encode` on the `STANDARD` engine. The encoding is a
/// function of the bytes alone. The call panics where the encoded length,
/// four thirds of the input's, overflows `usize` or is more than one
/// allocation may hold, which is `isize::MAX` bytes; the bound on the input
/// rules both out.
#[verifier::external_body]
fn base64_encode(data: &[u8]) -> (r: String)
    requires
        data@.len() <= usize::MAX / 8 * 3,
    ensures
        r@ == base64_standard(data@),
{
    base64::Engine::encode(&base64::engine::general_purpose::STANDARD, data)
}

/// The data URL under which a JPEG image with the given bytes is sent.
pub open spec fn image_data_url(data: Seq<u8>) -> Seq<char> {
    "data:image/jpeg;base64,"@ + base64_standard(data)
}

/// Encodes image bytes as a JPEG data URL. The bound keeps the encoded text
/// within what one allocation may hold.
pub fn image_url(data: &[u8]) -> (r: String)
    requires
        data@.len() <= usize::MAX / 8 * 3,
    ensures
        r@ == image_data_url(data@),
{
    let mut url = String::from_str("data:image/jpeg;base64,");
    let encoded = base64_encode(data);
    url.append(encoded.as_str());
    url
}

/// One message of a conversation.
#[derive(Clone)]
pub struct Message {
    pub role: String,
    pub content: String,
    pub image_path: Option<String>,
}

/// What `to_api_content` yields for a message, given the bytes of its image.
pub open spec fn api_content_of(message: Message, image: Seq<u8>) -> (Option<Seq<char>>, Seq<char>) {
    if message.image_path is Some {
        (Some(image_data_url(image)), message.content@)
    } else {
        (None, message.content@)
    }
}

impl ApiContent {
    /// The data URL of the image part, if any, and the text.
    pub open spec fn parts(self) -> (Option<Seq<char>>, Seq<char>) {
        match self {
            ApiContent::Text(text) => (None, text@),
            ApiContent::ImageAndText { url, text } => (Some(url@), text@),
        }
    }
}

impl Message {
    /// A message written by the user, with an optional attached image.
    pub fn new_user(content: String, image_path: Option<String>) -> (r: Message)
        ensures
            r.role@ == "user"@,
            r.content == content,
            r.image_path == image_path,
    {
        Message { role: String::from_str("user"), content, image_path }
    }

    /// A message written by the assistant.
    pub fn new_assistant(content: String) -> (r: Message)
        ensures
            r.role@ == "assistant"@,
            r.content == content,
            r.image_path is None,
    {
        Message { role: String::from_str("assistant"), content, image_path: None }
    }

    /// The content sent for this message. `image` holds the bytes of the file
    /// at `image_path`; it is ignored for a message without an image. The
    /// bound keeps the encoded image within what one allocation may hold.
    pub fn to_api_content(&self, image: &[u8]) -> (r: ApiContent)
        requires
            image@.len() <= usize::MAX / 8 * 3,
        ensures
            r.parts() == api_content_of(*self, image@),
            self.image_path is Some <==> r is ImageAndText,
    {
        match &self.image_path {
            Some(_) => ApiContent::ImageAndText {
                url: image_url(image),
                text: self.content.clone(),
            },
            None => ApiContent::Text(self.content.clone()),
        }
    }
}

/// Whether a message is the assistant's.
pub open spec fn is_assistant(message: Message) -> bool {
    message.role@ == "assistant"@
}

/// Whether the newest message of a history is a retry notice.
pub open spec fn is_notice(history: Seq<Message>) -> bool {
    history.len() > 0 && has_prefix(history.last().content@, "遇到"@)
}

/// The messages of one chat, oldest first.
#[derive(Clone)]
pub struct ChatHistory(pub Vec<Message>);

impl ChatHistory {
    /// Appends a message at the end of the history.
    pub fn add_message(&mut self, message: Message)
        ensures
            final(self).0@ == old(self).0@.push(message),
    {
        self.0.push(message);
    }

    /// Shows a snapshot of the assistant's reply: it replaces the text of the
    /// newest message where that is the assistant's, and else becomes a new
    /// message of the assistant. The messages before the newest stay.
    pub fn handle_response(&mut self, response: String)
        ensures
            final(self).0@.len() > 0,
            final(self).0@.last().content == response,
            is_assistant(final(self).0@.last()),
            old(self).0@.len() > 0 && is_assistant(old(self).0@.last()) ==> {
                &&& final(self).0@.drop_last() == old(self).0@.drop_last()
                &&& final(self).0@.last().role == old(self).0@.last().role
                &&& final(self).0@.last().image_path == old(self).0@.last().image_path
            },
            !(old(self).0@.len() > 0 && is_assistant(old(self).0@.last())) ==> {
                &&& final(self).0@.drop_last() == old(self).0@
                &&& final(self).0@.last().image_path is None
            },
    {
        if self.last_message_is_assistant() {
            let last = self.0.pop();
            match last {
                Some(message) => {
                    let Message { role, content: _, image_path } = message;
                    self.0.push(Message { role, content: response, image_path });
                },
                None => {},
            }
        } else {
            self.0.push(Message::new_assistant(response));
        }
    }

    /// Shows the line of a fatal error beside what was streamed so far: the
    /// line is added at the end of the newest message's text where that
    /// message is the assistant's, and else becomes a new message of the
    /// assistant. No text on display is lost.
    pub fn show_failure(&mut self, line: String)
        ensures
            final(self).0@.len() > 0,
            is_assistant(final(self).0@.last()),
            old(self).0@.len() > 0 && is_assistant(old(self).0@.last()) ==> {
                &&& final(self).0@.drop_last() == old(self).0@.drop_last()
                &&& final(self).0@.last().role == old(self).0@.last().role
                &&& final(self).0@.last().content@ == old(self).0@.last().content@ + line@
                &&& final(self).0@.last().image_path == old(self).0@.last().image_path
            },
            !(old(self).0@.len() > 0 && is_assistant(old(self).0@.last())) ==> {
                &&& final(self).0@.drop_last() == old(self).0@
                &&& final(self).0@.last().content == line
                &&& final(self).0@.last().image_path is None
            },
    {
        if self.last_message_is_assistant() {
            match self.0.pop() {
                Some(message) => {
                    let Message { role, content, image_path } = message;
                    let mut text = content;
                    text.append(line.as_str());
                    self.0.push(Message { role, content: text, image_path });
                    assert(self.0@.drop_last() =~= old(self).0@.drop_last());
                },
                None => {},
            }
        } else {
            self.0.push(Message::new_assistant(line));
            assert(self.0@.drop_last() =~= old(self).0@);
        }
    }

    /// Removes the newest message where it is a retry notice, that is, where
    /// its text begins with the notice's opening words.
    pub fn clear_error_notice(&mut self)
        ensures
            final(self).0@ == (if is_notice(old(self).0@) {
                old(self).0@.drop_last()
            } else {
                old(self).0@
            }),
    {
        let n: usize = self.0.len();
        if n > 0 && starts_with(self.0[n - 1].content.as_str(), "遇到") {
            self.0.pop();
        }
    }

    /// Records the path of the image of the newest message. An empty history
    /// stays empty.
    pub fn set_last_image(&mut self, path: String)
        ensures
            final(self).0@.len() == old(self).0@.len(),
            old(self).0@.len() > 0 ==> {
                &&& final(self).0@.drop_last() == old(self).0@.drop_last()
                &&& final(self).0@.last().role == old(self).0@.last().role
                &&& final(self).0@.last().content == old(self).0@.last().content
                &&& final(self).0@.last().image_path == Some(path)
            },
    {
        match self.0.pop() {
            Some(message) => {
                let Message { role, content, image_path: _ } = message;
                self.0.push(Message { role, content, image_path: Some(path) });
            },
            None => {},
        }
    }

    /// Whether the history is non-empty and its newest message is the
    /// assistant's.
    pub fn last_message_is_assistant(&self) -> (r: bool)
        ensures
            r == (self.0@.len() > 0 && is_assistant(self.0@.last())),
    {
        let n: usize = self.0.len();
        if n == 0 {
            false
        } else {
            self.0[n - 1].role == String::from_str("assistant")
        }
    }
}

} // verus!
