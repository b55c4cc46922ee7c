use vstd::prelude::*;
use vstd::string::*;

verus! {

/// The kinds of event a frame can carry.
#[derive(Clone, Copy, Debug, PartialEq, Eq, Structural)]
pub enum FrameKind {
    Connected,
    Ping,
    PollUpdated,
    PollResults,
    Generic,
}

impl FrameKind {
    /// The tag written on the `event:` line of a frame of this kind.
    pub open spec fn tag(self) -> Seq<char> {
        match self {
            FrameKind::Connected => "connected"@,
            FrameKind::Ping => "ping"@,
            FrameKind::PollUpdated => "poll_updated"@,
            FrameKind::PollResults => "poll_results"@,
            FrameKind::Generic => "generic"@,
        }
    }

    /// The tag as text.
    pub fn name(self) -> (tag: &'static str)
        ensures
            tag@ == self.tag(),
    {
        match self {
            FrameKind::Connected => "connected",
            FrameKind::Ping => "ping",
            FrameKind::PollUpdated => "poll_updated",
            FrameKind::PollResults => "poll_results",
            FrameKind::Generic => "generic",
        }
    }
}

/// The text of a frame: an `event:` line with the kind's tag, a `data:` line
/// with the body, and the blank line that ends the frame.
pub open spec fn frame_text(kind: FrameKind, body: Seq<char>) -> Seq<char> {
    "event: "@ + kind.tag() + "\ndata: "@ + body + "\n\n"@
}

/// Builds the frame of the given kind around `body`.
pub fn frame(kind: FrameKind, body: &str) -> (text: String)
    ensures
        text@ == frame_text(kind, body@),
{
    let mut text = String::from_str("event: ");
    text.append(kind.name());
    text.append("\ndata: ");
    text.append(body);
    text.append("\n\n");
    text
}

/// Every frame is delimited by itself: it ends with a blank line, whatever
/// its kind and its body, so that a reader of the stream can tell where it
/// ends without waiting for the next frame.
pub proof fn lemma_frame_ends_with_blank_line(kind: FrameKind, body: Seq<char>)
    ensures
        frame_text(kind, body).len() >= 2,
        frame_text(kind, body).subrange(
            frame_text(kind, body).len() - 2,
            frame_text(kind, body).len() as int,
        ) == seq!['\n', '\n'],
{
    reveal_strlit("\n\n");
    let head = "event: "@ + kind.tag() + "\ndata: "@ + body;
    assert("\n\n"@ =~= seq!['\n', '\n']);
    assert(frame_text(kind, body) == head + "\n\n"@);
    assert((head + "\n\n"@).subrange(head.len() as int, head.len() as int + 2) =~= "\n\n"@);
}

} // verus!
