//! Rendering of transfer progress onto the diagnostic stream.
//!
//! The renderer never writes by itself: each step returns the text that the
//! caller has to write, so that what reaches the terminal is a function of
//! the events alone.

use vstd::prelude::*;
use vstd::string::*;
use crate::text::{join, space_run, spaces};

verus! {

/// One event of the daemon's transfer stream.
#[derive(Debug)]
pub struct ProgressEvent {
    /// The status token, if the event carries one.
    pub status: Option<String>,
    /// The progress detail, if the event carries one.
    pub progress: Option<String>,
    /// The cause of the failure, where the event ends the stream with one.
    pub error: Option<String>,
}

/// The mathematical content of a [`ProgressEvent`]; an absent text is empty.
pub struct ProgressEventView {
    pub status: Seq<char>,
    pub progress: Seq<char>,
    pub error: Option<Seq<char>>,
}

/// The text of an optional field, empty where the field is absent.
pub open spec fn text_or_empty(field: Option<String>) -> Seq<char> {
    match field {
        Some(text) => text@,
        None => Seq::empty(),
    }
}

impl View for ProgressEvent {
    type V = ProgressEventView;

    open spec fn view(&self) -> ProgressEventView {
        ProgressEventView {
            status: text_or_empty(self.status),
            progress: text_or_empty(self.progress),
            error: match self.error {
                Some(cause) => Some(cause@),
                None => None,
            },
        }
    }
}

/// How the events of a transfer are shown.
#[derive(Debug, Clone, Copy, PartialEq, Eq, Structural)]
pub enum RenderMode {
    /// Each status token is appended as a line of its own.
    Append,
    /// Progress is drawn over the previous progress line.
    Redraw,
}

/// The state of the redrawing renderer: the length, in characters, of the
/// last redrawable line it wrote.
#[derive(Debug)]
pub struct RenderState {
    line_size: usize,
}

impl View for RenderState {
    type V = nat;

    closed spec fn view(&self) -> nat {
        self.line_size as nat
    }
}

/// The redrawable line that an event composes, if it composes one.
pub open spec fn redrawable_line(event: ProgressEventView) -> Option<Seq<char>> {
    if event.progress.len() == 0 {
        None
    } else if event.status.len() == 0 {
        Some("Importing image: "@ + event.progress)
    } else {
        Some(event.status + ": "@ + event.progress)
    }
}

/// What erases a redrawable line of `line_size` characters: nothing where
/// there is none, else a carriage return and that many spaces.
pub open spec fn erasure(line_size: nat) -> Seq<char> {
    if line_size == 0 {
        Seq::empty()
    } else {
        seq!['\r'] + spaces(line_size)
    }
}

/// What the appending renderer writes for an event: the status token as a
/// terminated line, or nothing where the token is empty.
pub open spec fn appended_text(event: ProgressEventView) -> Seq<char> {
    if event.status.len() == 0 {
        Seq::empty()
    } else {
        event.status + seq!['\n']
    }
}

/// What the redrawing renderer writes for an event when the last
/// redrawable line had `line_size` characters.
pub open spec fn redrawn_text(line_size: nat, event: ProgressEventView) -> Seq<char> {
    match redrawable_line(event) {
        Some(line) => erasure(line_size) + seq!['\r'] + line,
        None => if event.status.len() == 0 {
            Seq::empty()
        } else if line_size == 0 {
            event.status + seq!['\n']
        } else {
            seq!['\n'] + event.status + seq!['\n']
        },
    }
}

/// The length of the last redrawable line after an event.
pub open spec fn redrawn_size(line_size: nat, event: ProgressEventView) -> nat {
    match redrawable_line(event) {
        Some(line) => line.len(),
        None => line_size,
    }
}

/// What a renderer in `mode` writes for an event.
pub open spec fn rendered_text(mode: RenderMode, line_size: nat, event: ProgressEventView) -> Seq<
    char,
> {
    match mode {
        RenderMode::Append => appended_text(event),
        RenderMode::Redraw => redrawn_text(line_size, event),
    }
}

/// The renderer's state after an event in `mode`.
pub open spec fn rendered_size(mode: RenderMode, line_size: nat, event: ProgressEventView) -> nat {
    match mode {
        RenderMode::Append => line_size,
        RenderMode::Redraw => redrawn_size(line_size, event),
    }
}

/// What a renderer in `mode` writes when the stream has ended.
pub open spec fn closing_text(mode: RenderMode) -> Seq<char> {
    match mode {
        RenderMode::Append => Seq::empty(),
        RenderMode::Redraw => seq!['\n'],
    }
}

/// The last redrawable line that a sequence of events composes.
pub open spec fn last_redrawable(events: Seq<ProgressEventView>) -> Option<Seq<char>>
    decreases events.len(),
{
    if events.len() == 0 {
        None
    } else {
        match redrawable_line(events.last()) {
            Some(line) => Some(line),
            None => last_redrawable(events.drop_last()),
        }
    }
}

/// The state of a fresh redrawing renderer after a sequence of events.
pub open spec fn size_after(events: Seq<ProgressEventView>) -> nat
    decreases events.len(),
{
    if events.len() == 0 {
        0
    } else {
        redrawn_size(size_after(events.drop_last()), events.last())
    }
}

/// Everything a fresh redrawing renderer writes for a sequence of events,
/// the closing text left out.
pub open spec fn redrawn_transcript(events: Seq<ProgressEventView>) -> Seq<char>
    decreases events.len(),
{
    if events.len() == 0 {
        Seq::empty()
    } else {
        redrawn_transcript(events.drop_last()) + redrawn_text(
            size_after(events.drop_last()),
            events.last(),
        )
    }
}

/// Everything a fresh redrawing renderer writes for a whole transfer: the
/// text for each event, then the closing text.
pub open spec fn whole_transcript(events: Seq<ProgressEventView>) -> Seq<char> {
    redrawn_transcript(events) + closing_text(RenderMode::Redraw)
}

/// The closing law: what is written for a redrawn transfer always ends
/// with a newline, and with no more than one where the last event composed
/// a redrawable line that does not itself end with a newline.
pub proof fn lemma_transcript_ends_with_one_newline(events: Seq<ProgressEventView>)
    ensures
        whole_transcript(events).len() > 0,
        whole_transcript(events).last() == '\n',
        events.len() > 0 && redrawable_line(events.last()) is Some && redrawable_line(
            events.last(),
        )->0.last() != '\n' ==> whole_transcript(events).len() >= 2 && whole_transcript(
            events,
        )[whole_transcript(events).len() - 2] != '\n',
{
    let whole = whole_transcript(events);
    assert(whole.last() == '\n');
    if events.len() > 0 && redrawable_line(events.last()) is Some {
        let line = redrawable_line(events.last())->0;
        let before = redrawn_transcript(events.drop_last()) + erasure(
            size_after(events.drop_last()),
        ) + seq!['\r'];
        assert(line.len() > 0);
        assert(whole =~= before + line + seq!['\n']);
        assert(whole[whole.len() - 2] == line.last());
    }
}

/// After any sequence of events the renderer's state is the length of the
/// last redrawable line among them, and 0 where there was none.
pub proof fn lemma_size_is_last_line(events: Seq<ProgressEventView>)
    ensures
        size_after(events) == match last_redrawable(events) {
            Some(line) => line.len(),
            None => 0,
        },
    decreases events.len(),
{
    if events.len() > 0 {
        lemma_size_is_last_line(events.drop_last());
    }
}

/// The redraw law: whatever events came before, an event that composes a
/// redrawable line is written as a carriage return and the line, preceded,
/// where an earlier redrawable line exists, by a carriage return and exactly
/// as many spaces as that earlier line has characters.
pub proof fn lemma_overwrite_covers_previous_line(
    events: Seq<ProgressEventView>,
    next: ProgressEventView,
)
    requires
        redrawable_line(next) is Some,
    ensures
        redrawn_text(size_after(events), next) == match last_redrawable(events) {
            Some(previous) => seq!['\r'] + spaces(previous.len()) + seq!['\r'] + redrawable_line(
                next,
            )->0,
            None => seq!['\r'] + redrawable_line(next)->0,
        },
        size_after(events.push(next)) == redrawable_line(next)->0.len(),
{
    lemma_size_is_last_line(events);
    if last_redrawable(events) is Some {
        lemma_last_redrawable_nonempty(events);
    }
    assert(events.push(next).drop_last() == events);
}

/// Where a sequence of events composes a redrawable line at all, its last
/// one is not empty.
pub proof fn lemma_last_redrawable_nonempty(events: Seq<ProgressEventView>)
    requires
        last_redrawable(events) is Some,
    ensures
        last_redrawable(events)->0.len() > 0,
    decreases events.len(),
{
    if events.len() > 0 && redrawable_line(events.last()) is None {
        lemma_last_redrawable_nonempty(events.drop_last());
    }
}

/// The text of an optional field, empty where the field is absent.
pub fn field_text(field: &Option<String>) -> (text: &str)
    ensures
        text@ == text_or_empty(*field),
{
    match field {
        Some(text) => text.as_str(),
        None => {
            proof {
                reveal_strlit("");
            }
            ""
        },
    }
}

impl RenderState {
    /// The state before any event: no redrawable line has been written.
    pub fn new() -> (state: RenderState)
        ensures
            state@ == 0,
    {
        RenderState { line_size: 0 }
    }

    /// The length, in characters, of the last redrawable line written.
    pub fn line_size(&self) -> (size: usize)
        ensures
            size == self@,
    {
        self.line_size
    }

    /// Renders one event in `mode` and returns the text to write to the
    /// diagnostic stream.
    pub fn render(&mut self, mode: RenderMode, event: &ProgressEvent) -> (text: String)
        ensures
            text@ == rendered_text(mode, old(self)@, event@),
            final(self)@ == rendered_size(mode, old(self)@, event@),
    {
        match mode {
            RenderMode::Append => render_appended(event),
            RenderMode::Redraw => self.redraw(event),
        }
    }

    /// Renders one event by redrawing and returns the text to write.
    pub fn redraw(&mut self, event: &ProgressEvent) -> (text: String)
        ensures
            text@ == redrawn_text(old(self)@, event@),
            final(self)@ == redrawn_size(old(self)@, event@),
    {
        let status = field_text(&event.status);
        let progress = field_text(&event.progress);
        proof {
            reveal_strlit("\r");
            reveal_strlit("\n");
        }
        if progress.is_empty() {
            if status.is_empty() {
                String::new()
            } else if self.line_size == 0 {
                join(status, "\n")
            } else {
                let mut text = join("\n", status);
                text.append("\n");
                text
            }
        } else {
            let line = if status.is_empty() {
                join("Importing image: ", progress)
            } else {
                let mut line = join(status, ": ");
                line.append(progress);
                line
            };
            let mut text = if self.line_size > 0 {
                join("\r", space_run(self.line_size).as_str())
            } else {
                String::new()
            };
            text.append("\r");
            text.append(line.as_str());
            self.line_size = line.as_str().unicode_len();
            assert(text@ == redrawn_text(old(self)@, event@));
            text
        }
    }
}

/// Renders one event by appending and returns the text to write.
pub fn render_appended(event: &ProgressEvent) -> (text: String)
    ensures
        text@ == appended_text(event@),
{
    let status = field_text(&event.status);
    if status.is_empty() {
        String::new()
    } else {
        proof {
            reveal_strlit("\n");
        }
        join(status, "\n")
    }
}

/// The text that closes the rendering in `mode` once the stream has ended.
pub fn render_closing(mode: RenderMode) -> (text: String)
    ensures
        text@ == closing_text(mode),
{
    match mode {
        RenderMode::Append => String::new(),
        RenderMode::Redraw => {
            proof {
                reveal_strlit("\n");
            }
            "\n".to_owned()
        },
    }
}

} // verus!
