//! The screen-streaming host: the answer to a request for an embedded file,
//! and the stages of a viewer's session.

use vstd::prelude::*;

verus! {

/// The media type that `mime_guess` assigns to a path, as text: the first
/// type that its table holds for the extension of the path, and
/// `application/octet-stream` where the path has no extension or the table
/// does not know it.
pub uninterp spec fn guessed_media_type(path: Seq<char>) -> Seq<char>;

/// Asks `mime_guess::from_path` for the guess of a path and takes
/// `first_or_octet_stream` of it, as text. The guess looks at the path alone
/// and comes from a table that is compiled into the crate, so that a path
/// always has the same media type.
#[verifier::external_body]
fn guess_media_type(path: &str) -> (media_type: String)
    ensures
        media_type@ == guessed_media_type(path@),
{
    mime_guess::from_path(path).first_or_octet_stream().as_ref().to_string()
}

/// The answer to a request for an embedded file.
#[derive(Debug)]
pub enum AssetReply {
    /// No file is embedded under the path.
    NotFound,
    /// The file, and the media type to send it under.
    Found { body: Vec<u8>, content_type: String },
}

/// The answer that sends `body` under `content_type`.
pub fn found_reply(body: Vec<u8>, content_type: String) -> (reply: AssetReply)
    ensures
        reply == (AssetReply::Found { body, content_type }),
{
    AssetReply::Found { body, content_type }
}

/// Answers a request for the file at `path`, given what is embedded there:
/// the file under the media type that its path suggests, or that there is none.
pub fn serve_asset(path: &str, asset: Option<Vec<u8>>) -> (reply: AssetReply)
    ensures
        match asset {
            Some(data) => {
                &&& reply matches AssetReply::Found { body, content_type }
                &&& body == data
                &&& content_type@ == guessed_media_type(path@)
            },
            None => reply is NotFound,
        },
{
    match asset {
        Some(data) => {
            let media_type = guess_media_type(path);
            found_reply(data, media_type)
        },
        None => AssetReply::NotFound,
    }
}

/// Where a viewer's session stands.
#[derive(Clone, Copy, Debug, PartialEq, Eq, Structural)]
pub enum Stage {
    /// Nothing has been received.
    Initial,
    /// The viewer has said hello and is sent the video.
    Greeted,
    /// The session is over.
    Closed,
}

/// What a viewer sends.
#[derive(Debug)]
pub enum ClientMessage {
    Hello,
    Key { key: String },
}

/// What arrived from a viewer.
#[derive(Debug)]
pub enum Incoming {
    /// Receiving failed.
    Failed,
    /// Something arrived that is no message.
    Undecodable,
    /// A message.
    Message(ClientMessage),
}

/// What the receiving side makes of what arrived.
#[derive(Debug)]
pub struct Verdict {
    /// The stage after it.
    pub stage: Stage,
    /// The key that the viewer pressed, if the message told one.
    pub key: Option<String>,
}

/// A greeting arrives although the session is past its first stage.
pub open spec fn greets_twice(stage: Stage, incoming: Incoming) -> bool {
    stage != Stage::Initial && incoming == Incoming::Message(ClientMessage::Hello)
}

/// The stage after something arrived. A failure ends the session. The first
/// message must be the greeting, and anything else ends the session; later
/// messages leave the stage as it is.
pub open spec fn stage_after(stage: Stage, incoming: Incoming) -> Stage {
    match incoming {
        Incoming::Message(message) => if stage == Stage::Initial {
            if message is Hello {
                Stage::Greeted
            } else {
                Stage::Closed
            }
        } else {
            stage
        },
        _ => Stage::Closed,
    }
}

/// The key that a message tells, once the session is past its first stage.
pub open spec fn key_told(stage: Stage, incoming: Incoming) -> Option<String> {
    match incoming {
        Incoming::Message(ClientMessage::Key { key }) => if stage == Stage::Initial {
            None
        } else {
            Some(key)
        },
        _ => None,
    }
}

/// Decides what the receiving side makes of what arrived. A second greeting
/// is a fault of the viewer that the caller answers before it calls.
pub fn on_incoming(stage: Stage, incoming: Incoming) -> (verdict: Verdict)
    requires
        !greets_twice(stage, incoming),
    ensures
        verdict.stage == stage_after(stage, incoming),
        verdict.key == key_told(stage, incoming),
{
    match incoming {
        Incoming::Message(message) => {
            if stage == Stage::Initial {
                match message {
                    ClientMessage::Hello => Verdict { stage: Stage::Greeted, key: None },
                    _ => Verdict { stage: Stage::Closed, key: None },
                }
            } else {
                match message {
                    ClientMessage::Hello => Verdict { stage, key: None },
                    ClientMessage::Key { key } => Verdict { stage, key: Some(key) },
                }
            }
        },
        _ => Verdict { stage: Stage::Closed, key: None },
    }
}

/// Tells whether a greeting arrives that the session is past.
pub fn is_second_greeting(stage: Stage, incoming: &Incoming) -> (r: bool)
    ensures
        r == greets_twice(stage, *incoming),
{
    match incoming {
        Incoming::Message(ClientMessage::Hello) => stage != Stage::Initial,
        _ => false,
    }
}

/// What the sending side learns from the stage while it waits for the
/// greeting: that the viewer has greeted, that the session is over, or
/// nothing yet.
pub fn greeting_outcome(stage: Stage) -> (outcome: Option<bool>)
    ensures
        outcome == match stage {
            Stage::Greeted => Some(true),
            Stage::Closed => Some(false),
            Stage::Initial => None::<bool>,
        },
{
    match stage {
        Stage::Greeted => Some(true),
        Stage::Closed => Some(false),
        Stage::Initial => None,
    }
}

} // verus!
