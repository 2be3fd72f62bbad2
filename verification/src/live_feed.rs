use vstd::prelude::*;

verus! {

/// The kind of a frame a live-feed client sent.
#[derive(Clone, Copy, Debug, PartialEq, Eq, Structural)]
pub enum ClientFrame {
    Text,
    Binary,
    Ping,
    Pong,
    Close,
}

/// What reading from a live-feed client came to.
#[derive(Clone, Copy, Debug, PartialEq, Eq, Structural)]
pub enum ClientRead {
    /// A frame arrived.
    Frame(ClientFrame),
    /// The read failed.
    Failed,
    /// The client's stream ended.
    Ended,
}

/// What pushing a message to a live-feed client came to.
#[derive(Clone, Copy, Debug, PartialEq, Eq, Structural)]
pub enum FeedPush {
    /// The message was sent.
    Sent,
    /// The message could not be encoded and was skipped.
    Unencodable,
    /// Sending failed.
    SendFailed,
    /// No further message can be taken from the broadcast (it lagged or closed).
    SourceClosed,
}

/// Whether the connection keeps listening to the client after `read`: only a
/// frame other than a close frame keeps it listening.
pub fn keeps_listening(read: ClientRead) -> (res: bool)
    ensures
        res == (read is Frame && !(read == ClientRead::Frame(ClientFrame::Close))),
{
    match read {
        ClientRead::Frame(ClientFrame::Close) => false,
        ClientRead::Frame(_) => true,
        ClientRead::Failed => false,
        ClientRead::Ended => false,
    }
}

/// Whether the connection keeps pushing broadcast messages after `push`:
/// a message that was sent, or skipped because it could not be encoded,
/// keeps it pushing; a failed send or a closed broadcast stops it.
pub fn keeps_pushing(push: FeedPush) -> (res: bool)
    ensures
        res == (push == FeedPush::Sent || push == FeedPush::Unencodable),
{
    match push {
        FeedPush::Sent => true,
        FeedPush::Unencodable => true,
        FeedPush::SendFailed => false,
        FeedPush::SourceClosed => false,
    }
}

} // verus!
