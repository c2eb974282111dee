//! The `image import` command: its surface, what to send to the daemon for
//! a source, what to do with each event of the transfer, and which images
//! an import made.

use vstd::prelude::*;
use vstd::string::*;
use crate::cli::{
    named, optional, required, switch, CommandSignature, CommandSignatureView, Flag, Positional,
    Shape,
};
use crate::error::{CommandError, CommandErrorView, ErrorKind};
use crate::image::{image_of, Image, ImageSummary, ImageView};
use crate::progress::{
    closing_text, field_text, render_closing, rendered_size, rendered_text, size_after,
    ProgressEvent, ProgressEventView, RenderMode, RenderState,
};
use crate::record::texts;
use crate::source::{ImportSource, ImportSourceView};
use crate::text::{join, str_eq};

verus! {

/// What the caller asks of an import besides its source.
#[derive(Debug, Clone, PartialEq, Eq)]
pub struct ImportOptions {
    /// The commit message of the created image.
    pub message: Option<String>,
    /// The platform, as `os[/arch[/variant]]`.
    pub platform: Option<String>,
    /// The `repository[:tag]` to name the created image by.
    pub repository: Option<String>,
    /// Instructions to apply to the created image.
    pub changes: Option<Vec<String>>,
    /// Whether the instructions are asked for interactively.
    pub interactive: Option<bool>,
}

/// The mathematical content of [`ImportOptions`].
pub struct ImportOptionsView {
    pub message: Option<Seq<char>>,
    pub platform: Option<Seq<char>>,
    pub repository: Option<Seq<char>>,
    pub changes: Option<Seq<Seq<char>>>,
    pub interactive: Option<bool>,
}

/// The text of an optional string.
pub open spec fn optional_text(field: Option<String>) -> Option<Seq<char>> {
    match field {
        Some(text) => Some(text@),
        None => None,
    }
}

impl View for ImportOptions {
    type V = ImportOptionsView;

    open spec fn view(&self) -> ImportOptionsView {
        ImportOptionsView {
            message: optional_text(self.message),
            platform: optional_text(self.platform),
            repository: optional_text(self.repository),
            changes: match self.changes {
                Some(list) => Some(texts(list@)),
                None => None,
            },
            interactive: self.interactive,
        }
    }
}

/// The body of the request that starts a transfer.
#[derive(Debug, Clone, PartialEq, Eq)]
pub enum Payload {
    /// The file at this path under the working directory, sent in chunks
    /// as it is read.
    Stream(String),
    /// The whole of standard input, read to its end before anything is
    /// sent.
    Buffered,
    /// Nothing: the daemon fetches the payload itself.
    Absent,
}

/// The mathematical content of a [`Payload`].
pub enum PayloadView {
    Stream(Seq<char>),
    Buffered,
    Absent,
}

impl View for Payload {
    type V = PayloadView;

    open spec fn view(&self) -> PayloadView {
        match self {
            Payload::Stream(path) => PayloadView::Stream(path@),
            Payload::Buffered => PayloadView::Buffered,
            Payload::Absent => PayloadView::Absent,
        }
    }
}

/// The request that starts a transfer.
#[derive(Debug, Clone, PartialEq, Eq)]
pub struct TransferRequest {
    /// The source that the daemon is told: `-` for a payload in the body,
    /// else the URL to fetch.
    pub from_src: String,
    /// The body of the request.
    pub payload: Payload,
    /// The caller's options, as given.
    pub options: ImportOptions,
}

/// The mathematical content of a [`TransferRequest`].
pub struct TransferRequestView {
    pub from_src: Seq<char>,
    pub payload: PayloadView,
    pub options: ImportOptionsView,
}

impl View for TransferRequest {
    type V = TransferRequestView;

    open spec fn view(&self) -> TransferRequestView {
        TransferRequestView {
            from_src: self.from_src@,
            payload: self.payload@,
            options: self.options@,
        }
    }
}

/// The request for a source, or none where standard input is the source
/// and is no byte payload.
pub open spec fn planned_request(
    source: ImportSourceView,
    options: ImportOptionsView,
    input_is_binary: bool,
) -> Option<TransferRequestView> {
    match source {
        ImportSourceView::File(path) => Some(
            TransferRequestView { from_src: "-"@, payload: PayloadView::Stream(path), options },
        ),
        ImportSourceView::Stdin => if input_is_binary {
            Some(TransferRequestView { from_src: "-"@, payload: PayloadView::Buffered, options })
        } else {
            None
        },
        ImportSourceView::Url(url) => Some(
            TransferRequestView { from_src: url, payload: PayloadView::Absent, options },
        ),
    }
}

/// How the events of a transfer from `source` are shown: redrawn for a
/// URL, appended for a file and for standard input.
pub open spec fn mode_of(source: ImportSourceView) -> RenderMode {
    match source {
        ImportSourceView::Url(_) => RenderMode::Redraw,
        _ => RenderMode::Append,
    }
}

/// The words that name a source in the report of a failed transfer.
pub open spec fn source_label(source: ImportSourceView) -> Seq<char> {
    match source {
        ImportSourceView::File(_) => "file"@,
        ImportSourceView::Stdin => "stdin"@,
        ImportSourceView::Url(_) => "URL"@,
    }
}

/// The report of a transfer from `source` that the daemon failed with
/// `cause`.
pub open spec fn transfer_failure(source: ImportSourceView, cause: Seq<char>) -> CommandErrorView {
    CommandErrorView {
        kind: ErrorKind::TransferError,
        message: "Failed to import image from "@ + source_label(source) + ": "@ + cause,
    }
}

/// The tentative identifier after an event: the event's status token where
/// it has one, else the identifier as it was.
pub open spec fn next_tentative(tentative: Seq<char>, event: ProgressEventView) -> Seq<char> {
    if event.status.len() == 0 {
        tentative
    } else {
        event.status
    }
}

/// The tentative identifier after a sequence of events, none of it seen
/// before.
pub open spec fn tentative_after(events: Seq<ProgressEventView>) -> Seq<char>
    decreases events.len(),
{
    if events.len() == 0 {
        Seq::empty()
    } else {
        next_tentative(tentative_after(events.drop_last()), events.last())
    }
}

/// The images that an import made: none for an empty tentative identifier,
/// else those of the listed images whose identifier is the tentative one,
/// in the order of the list.
pub open spec fn imported_images(listed: Seq<ImageView>, tentative: Seq<char>) -> Seq<ImageView> {
    if tentative.len() == 0 {
        Seq::empty()
    } else {
        listed.filter(|image: ImageView| image.id == tentative).map_values(
            |image: ImageView| image_of(image),
        )
    }
}

/// The views of a list of summaries.
pub open spec fn summary_views(listed: Seq<ImageSummary>) -> Seq<ImageView> {
    listed.map_values(|summary: ImageSummary| summary@)
}

/// The views of a list of images.
pub open spec fn image_views(images: Seq<Image>) -> Seq<ImageView> {
    images.map_values(|image: Image| image@)
}

/// The tentative identifier is the last status token that is not empty:
/// after any events it is empty exactly where no event had a token, and
/// else it is the token of the last event that had one.
pub proof fn lemma_tentative_is_last_status(events: Seq<ProgressEventView>)
    ensures
        tentative_after(events).len() == 0 <==> forall|i: int|
            0 <= i < events.len() ==> events[i].status.len() == 0,
        tentative_after(events).len() > 0 ==> exists|last: int|
            0 <= last < events.len() && events[last].status == tentative_after(events)
                && forall|later: int|
                last < later < events.len() ==> events[later].status.len() == 0,
    decreases events.len(),
{
    if events.len() > 0 {
        let front = events.drop_last();
        lemma_tentative_is_last_status(front);
        if events.last().status.len() == 0 {
            assert forall|i: int| 0 <= i < front.len() implies front[i] == events[i] by {}
            if tentative_after(events).len() > 0 {
                let last = choose|last: int|
                    0 <= last < front.len() && front[last].status == tentative_after(front)
                        && forall|later: int|
                        last < later < front.len() ==> front[later].status.len() == 0;
                assert(events[last].status == tentative_after(events));
                assert forall|later: int| last < later < events.len() implies events[later].status.len()
                    == 0 by {
                    if later < front.len() {
                        assert(front[later] == events[later]);
                    }
                }
            } else {
                assert forall|i: int| 0 <= i < events.len() implies events[i].status.len()
                    == 0 by {
                    if i < front.len() {
                        assert(front[i] == events[i]);
                    }
                }
            }
        } else {
            let last = events.len() - 1;
            assert(events[last].status == tentative_after(events));
        }
    }
}

/// The result of an import holds exactly the listed images of the
/// tentative identifier: each of its images has that identifier, it is no
/// longer than the list, and it is empty where the identifier is empty or
/// no listed image has it.
pub proof fn lemma_imported_images(listed: Seq<ImageView>, tentative: Seq<char>)
    ensures
        imported_images(listed, tentative).len() <= listed.len(),
        forall|i: int|
            0 <= i < imported_images(listed, tentative).len() ==> (#[trigger] imported_images(
                listed,
                tentative,
            )[i]).id == tentative,
        tentative.len() == 0 ==> imported_images(listed, tentative).len() == 0,
        (forall|i: int| 0 <= i < listed.len() ==> listed[i].id != tentative) ==> imported_images(
            listed,
            tentative,
        ).len() == 0,
        tentative.len() > 0 ==> (forall|i: int|
            0 <= i < listed.len() && listed[i].id == tentative ==> imported_images(
                listed,
                tentative,
            ).contains(image_of(#[trigger] listed[i]))),
{
    if tentative.len() > 0 {
        let wanted = |image: ImageView| image.id == tentative;
        let kept = listed.filter(wanted);
        listed.lemma_filter_len(wanted);
        let made = imported_images(listed, tentative);
        assert forall|i: int| 0 <= i < made.len() implies (#[trigger] made[i]).id == tentative by {
            listed.lemma_filter_pred(wanted, i);
        }
        if forall|i: int| 0 <= i < listed.len() ==> listed[i].id != tentative {
            if kept.len() > 0 {
                listed.lemma_filter_pred(wanted, 0);
                assert(kept.contains(kept[0]));
                listed.lemma_filter_contains_rev(wanted, kept[0]);
                let at = choose|at: int| 0 <= at < listed.len() && listed[at] == kept[0];
                assert(listed[at].id == tentative);
            }
        }
        assert forall|i: int| 0 <= i < listed.len() && listed[i].id == tentative implies made.contains(
            image_of(#[trigger] listed[i]),
        ) by {
            listed.lemma_filter_contains(wanted, i);
            let at = choose|at: int| 0 <= at < kept.len() && kept[at] == listed[i];
            assert(made[at] == image_of(listed[i]));
        }
    }
}

impl ImportOptions {
    /// Options that ask for nothing.
    pub fn new() -> (options: ImportOptions)
        ensures
            options@ == (ImportOptionsView {
                message: None,
                platform: None,
                repository: None,
                changes: None,
                interactive: None,
            }),
    {
        ImportOptions {
            message: None,
            platform: None,
            repository: None,
            changes: None,
            interactive: None,
        }
    }
}

impl ImportSource {
    /// How the events of a transfer from this source are shown.
    pub fn render_mode(&self) -> (mode: RenderMode)
        ensures
            mode == mode_of(self@),
    {
        match self {
            ImportSource::Url(_) => RenderMode::Redraw,
            _ => RenderMode::Append,
        }
    }
}

/// The state of one transfer: its source, its renderer, and the tentative
/// identifier seen so far.
#[derive(Debug)]
pub struct ImportSession {
    source: ImportSource,
    render: RenderState,
    tentative_id: String,
}

/// The mathematical content of an [`ImportSession`].
pub struct ImportSessionView {
    pub source: ImportSourceView,
    pub line_size: nat,
    pub tentative_id: Seq<char>,
}

impl View for ImportSession {
    type V = ImportSessionView;

    closed spec fn view(&self) -> ImportSessionView {
        ImportSessionView {
            source: self.source@,
            line_size: self.render@,
            tentative_id: self.tentative_id@,
        }
    }
}

/// The session after an event that reports no failure.
pub open spec fn session_step(session: ImportSessionView, event: ProgressEventView) -> ImportSessionView {
    ImportSessionView {
        source: session.source,
        line_size: rendered_size(mode_of(session.source), session.line_size, event),
        tentative_id: next_tentative(session.tentative_id, event),
    }
}

/// The session of a transfer from `source` after a sequence of events,
/// none of which reports a failure.
pub open spec fn session_after(source: ImportSourceView, events: Seq<ProgressEventView>) -> ImportSessionView
    decreases events.len(),
{
    if events.len() == 0 {
        ImportSessionView { source, line_size: 0, tentative_id: Seq::empty() }
    } else {
        session_step(session_after(source, events.drop_last()), events.last())
    }
}

/// After any events a session holds the tentative identifier that the
/// events give, and the renderer's state that they give: the length of the
/// last redrawable line for a URL, and 0 for the other sources, which never
/// redraw.
pub proof fn lemma_session_after(source: ImportSourceView, events: Seq<ProgressEventView>)
    ensures
        session_after(source, events).source == source,
        session_after(source, events).tentative_id == tentative_after(events),
        session_after(source, events).line_size == (if source is Url {
            size_after(events)
        } else {
            0
        }),
    decreases events.len(),
{
    if events.len() > 0 {
        lemma_session_after(source, events.drop_last());
    }
}

impl ImportSession {
    /// The session of a transfer that is about to start.
    pub fn new(source: ImportSource) -> (session: ImportSession)
        ensures
            session@ == (ImportSessionView {
                source: source@,
                line_size: 0,
                tentative_id: Seq::empty(),
            }),
    {
        ImportSession { source, render: RenderState::new(), tentative_id: String::new() }
    }

    /// The tentative identifier: the last status token seen that was not
    /// empty, or the empty string.
    pub fn tentative_id(&self) -> (id: String)
        ensures
            id@ == self@.tentative_id,
    {
        self.tentative_id.clone()
    }

    /// Takes the next event of the stream. An event that reports a failure
    /// ends the transfer with a `TransferError` and leaves the session as
    /// it was. Any other event updates the tentative identifier and the
    /// renderer, and returns the text to write to the diagnostic stream.
    pub fn on_event(&mut self, event: &ProgressEvent) -> (step: Result<String, CommandError>)
        ensures
            match event@.error {
                Some(cause) => step matches Err(e) && e@ == transfer_failure(
                    old(self)@.source,
                    cause,
                ) && final(self)@ == old(self)@,
                None => step matches Ok(text) && text@ == rendered_text(
                    mode_of(old(self)@.source),
                    old(self)@.line_size,
                    event@,
                ) && final(self)@ == session_step(old(self)@, event@),
            },
    {
        match &event.error {
            Some(cause) => {
                let label = match &self.source {
                    ImportSource::File(_) => "file",
                    ImportSource::Stdin => "stdin",
                    ImportSource::Url(_) => "URL",
                };
                let mut message = join("Failed to import image from ", label);
                message.append(": ");
                message.append(cause.as_str());
                Err(CommandError { kind: ErrorKind::TransferError, message })
            },
            None => {
                let status = field_text(&event.status);
                if !status.is_empty() {
                    self.tentative_id = status.to_owned();
                }
                let mode = self.source.render_mode();
                Ok(self.render.render(mode, event))
            },
        }
    }

    /// Ends the transfer after the last event: returns the text that closes
    /// the rendering, and the tentative identifier.
    pub fn finish(self) -> (end: (String, String))
        ensures
            end.0@ == closing_text(mode_of(self@.source)),
            end.1@ == self@.tentative_id,
    {
        let closing = render_closing(self.source.render_mode());
        (closing, self.tentative_id)
    }
}

/// The surface of the `image import` command: nothing or a byte payload
/// as input, image entities as output, the flags `--interactive`, `-I`,
/// `--change`, `-c`, `--message`, `-m` and `--platform`, the source as its
/// first argument and, if given, the name of the image as its second.
pub open spec fn import_signature() -> CommandSignatureView {
    CommandSignatureView {
        name: "ndocker image import"@,
        input_output_types: seq![(Shape::Nothing, Shape::Image), (Shape::Binary, Shape::Image)],
        flags: seq![
            switch(
                "interactive"@,
                Some('I'),
                "Apply Dockerfile instruction to the created image interactively"@,
            ),
            named(
                "change"@,
                Some('c'),
                Shape::TextList,
                "Apply Dockerfile instruction to the created image"@,
            ),
            named("message"@, Some('m'), Shape::Text, "Set a commit message for the image"@),
            named(
                "platform"@,
                None,
                Shape::Text,
                "Set the platform for the image, in the format os[/arch[/variant]], for example: linux/amd64/v5"@,
            ),
        ],
        positionals: seq![
            required("file|URL|-"@, Shape::Text, "The path to the tarball to import."@),
            optional(
                "REPOSITORY[:TAG]"@,
                Shape::Text,
                "The repository and tag to apply to the imported image. If not specified, the image will not be tagged."@,
            ),
        ],
    }
}

/// The `image import` command.
#[derive(Debug, Clone, Copy, PartialEq, Eq, Structural)]
pub struct ImageImportCommand;

impl ImageImportCommand {
    /// The name of the command in the shell.
    pub fn name(&self) -> (name: &'static str)
        ensures
            name@ == "ndocker image import"@,
    {
        "ndocker image import"
    }

    /// What the command does, in one sentence.
    pub fn description(&self) -> (description: &'static str)
        ensures
            description@ == "Import the contents from a tarball to create a filesystem image."@,
    {
        "Import the contents from a tarball to create a filesystem image."
    }

    /// The surface of the command.
    pub fn signature(&self) -> (surface: CommandSignature)
        ensures
            surface@ == import_signature(),
    {
        let surface = CommandSignature {
            name: "ndocker image import",
            input_output_types: vec![
                (Shape::Nothing, Shape::Image),
                (Shape::Binary, Shape::Image),
            ],
            flags: vec![
                Flag {
                    long: "interactive",
                    short: Some('I'),
                    argument: None,
                    description: "Apply Dockerfile instruction to the created image interactively",
                },
                Flag {
                    long: "change",
                    short: Some('c'),
                    argument: Some(Shape::TextList),
                    description: "Apply Dockerfile instruction to the created image",
                },
                Flag {
                    long: "message",
                    short: Some('m'),
                    argument: Some(Shape::Text),
                    description: "Set a commit message for the image",
                },
                Flag {
                    long: "platform",
                    short: None,
                    argument: Some(Shape::Text),
                    description: "Set the platform for the image, in the format os[/arch[/variant]], for example: linux/amd64/v5",
                },
            ],
            positionals: vec![
                Positional {
                    name: "file|URL|-",
                    shape: Shape::Text,
                    required: true,
                    description: "The path to the tarball to import.",
                },
                Positional {
                    name: "REPOSITORY[:TAG]",
                    shape: Shape::Text,
                    required: false,
                    description: "The repository and tag to apply to the imported image. If not specified, the image will not be tagged.",
                },
            ],
        };
        assert(surface@.flags =~= import_signature().flags);
        assert(surface@.positionals =~= import_signature().positionals);
        assert(surface@.input_output_types =~= import_signature().input_output_types);
        surface
    }

    /// Decides what to send to the daemon for `source`. `input_is_binary`
    /// says whether the caller's input is a byte payload; it matters for
    /// standard input alone, where any other input is a `StdinReadError`
    /// and nothing is to be sent.
    pub fn plan_transfer(
        &self,
        source: &ImportSource,
        options: ImportOptions,
        input_is_binary: bool,
    ) -> (plan: Result<TransferRequest, CommandError>)
        ensures
            match planned_request(source@, options@, input_is_binary) {
                Some(request) => plan matches Ok(planned) && planned@ == request,
                None => plan matches Err(e) && e@ == (CommandErrorView {
                    kind: ErrorKind::StdinReadError,
                    message: "Expected binary input from stdin"@,
                }),
            },
    {
        match source {
            ImportSource::File(path) => Ok(
                TransferRequest {
                    from_src: "-".to_owned(),
                    payload: Payload::Stream(path.clone()),
                    options,
                },
            ),
            ImportSource::Stdin => {
                if input_is_binary {
                    Ok(
                        TransferRequest {
                            from_src: "-".to_owned(),
                            payload: Payload::Buffered,
                            options,
                        },
                    )
                } else {
                    Err(CommandError::stdin_not_binary())
                }
            },
            ImportSource::Url(url) => Ok(
                TransferRequest { from_src: url.clone(), payload: Payload::Absent, options },
            ),
        }
    }

    /// Picks, from the daemon's list after a transfer, the images that the
    /// transfer made: those whose identifier is the tentative one, exactly
    /// and in the order of the list. An empty tentative identifier matches
    /// nothing.
    pub fn resolve_imported(&self, listed: &Vec<ImageSummary>, tentative_id: &str) -> (imported:
        Vec<Image>)
        ensures
            image_views(imported@) == imported_images(summary_views(listed@), tentative_id@),
    {
        let mut imported: Vec<Image> = Vec::new();
        if tentative_id.is_empty() {
            assert(image_views(imported@) =~= Seq::<ImageView>::empty());
            return imported;
        }
        let ghost wanted = |image: ImageView| image.id == tentative_id@;
        let ghost made = |image: ImageView| image_of(image);
        let ghost all = summary_views(listed@);
        let mut next: usize = 0;
        proof {
            reveal(Seq::filter);
            assert(all.take(0).filter(wanted) =~= Seq::<ImageView>::empty());
            assert(image_views(imported@) =~= all.take(0).filter(wanted).map_values(made));
        }
        while next < listed.len()
            invariant
                next <= listed.len(),
                all == summary_views(listed@),
                wanted == |image: ImageView| image.id == tentative_id@,
                made == |image: ImageView| image_of(image),
                image_views(imported@) == all.take(next as int).filter(wanted).map_values(made),
            decreases listed.len() - next,
        {
            let summary = &listed[next];
            proof {
                reveal(Seq::filter);
                assert(all.take(next + 1).drop_last() == all.take(next as int));
                assert(all.take(next + 1).last() == summary@);
            }
            if str_eq(summary.id.as_str(), tentative_id) {
                let ghost before = image_views(imported@);
                imported.push(Image::new(summary.duplicate()));
                assert(image_views(imported@) =~= before.push(image_of(summary@)));
                assert(all.take(next + 1).filter(wanted).map_values(made) =~= all.take(
                    next as int,
                ).filter(wanted).map_values(made).push(image_of(summary@)));
            }
            next = next + 1;
        }
        assert(all.take(next as int) == all);
        imported
    }
}

} // verus!
