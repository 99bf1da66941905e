use vstd::prelude::*;

use crate::value::{Value, ValueView};

verus! {

/// The command line as the editor wants it shown.
#[derive(Clone, Debug, PartialEq, Eq)]
pub struct CmdlineShowEvent {
    /// Attribute id and text of each chunk, from left to right.
    pub content: Vec<(i64, String)>,
    /// Where the cursor stands in the joined text.
    pub pos: i64,
    /// The character that opened the command line, if one did. `None` is not the empty string.
    pub firstc: Option<String>,
    pub prompt: String,
    pub indent: u64,
    /// How deep this command line is nested.
    pub level: i64,
}

/// What a [`CmdlineShowEvent`] stands for.
pub struct CmdlineShowEventView {
    pub content: Seq<(int, Seq<char>)>,
    pub pos: int,
    pub firstc: Option<Seq<char>>,
    pub prompt: Seq<char>,
    pub indent: int,
    pub level: int,
}

/// The chunks of a content, each as a pair of numbers and characters.
pub open spec fn chunk_views(content: Seq<(i64, String)>) -> Seq<(int, Seq<char>)> {
    Seq::new(content.len(), |i: int| (content[i].0 as int, content[i].1@))
}

/// The characters of a string that may be absent.
pub open spec fn optional_text_view(text: Option<String>) -> Option<Seq<char>> {
    match text {
        Some(s) => Some(s@),
        None => None,
    }
}

impl View for CmdlineShowEvent {
    type V = CmdlineShowEventView;

    open spec fn view(&self) -> CmdlineShowEventView {
        CmdlineShowEventView {
            content: chunk_views(self.content@),
            pos: self.pos as int,
            firstc: optional_text_view(self.firstc),
            prompt: self.prompt@,
            indent: self.indent as int,
            level: self.level as int,
        }
    }
}

impl CmdlineShowEventView {
    /// Every number is one that the event's fields can hold.
    pub open spec fn in_range(self) -> bool {
        &&& forall|i: int|
            0 <= i < self.content.len() ==> i64::MIN <= (#[trigger] self.content[i]).0 <= i64::MAX
        &&& i64::MIN <= self.pos <= i64::MAX
        &&& 0 <= self.indent <= u64::MAX
        &&& i64::MIN <= self.level <= i64::MAX
    }
}

/// One decoded UI event.
#[derive(Clone, Debug, PartialEq, Eq)]
pub enum RedrawEvent {
    CmdlineShow(CmdlineShowEvent),
    /// An occurrence of a kind that has no decoder here, kept as it arrived.
    Unrecognized { kind: String, raw: Value },
}

/// What a [`RedrawEvent`] stands for.
pub enum RedrawEventView {
    CmdlineShow(CmdlineShowEventView),
    Unrecognized { kind: Seq<char>, raw: ValueView },
}

impl View for RedrawEvent {
    type V = RedrawEventView;

    open spec fn view(&self) -> RedrawEventView {
        match self {
            RedrawEvent::CmdlineShow(event) => RedrawEventView::CmdlineShow(event@),
            RedrawEvent::Unrecognized { kind, raw } => RedrawEventView::Unrecognized {
                kind: kind@,
                raw: raw@,
            },
        }
    }
}

/// The views of a run of events, in order.
pub open spec fn event_views(events: Seq<RedrawEvent>) -> Seq<RedrawEventView> {
    Seq::new(events.len(), |i: int| events[i]@)
}

/// Whatever an event holds, its numbers are in range.
pub proof fn lemma_event_in_range(event: CmdlineShowEvent)
    ensures
        event@.in_range(),
{
}

} // verus!
