//! The `image inspect` command: its surface, and what it hands on for the
//! daemon's record of an image.

use vstd::prelude::*;
use vstd::string::*;
use crate::cli::{
    required, switch, CommandSignature, CommandSignatureView, Flag, Positional, Shape,
};
use crate::error::{CommandError, CommandErrorView, ErrorKind};

verus! {

/// The daemon's detailed record of one image.
#[verifier::external_type_specification]
#[verifier::external_body]
pub struct ExImageInspect(bollard::models::ImageInspect);

/// The failure of a JSON encoding.
#[verifier::external_type_specification]
#[verifier::external_body]
pub struct ExJsonError(serde_json::Error);

/// What the command hands to the pipeline.
#[derive(Debug, Clone, PartialEq, Eq)]
pub enum InspectOutput {
    /// The record as indented JSON, to be shown as a plain string.
    Text(String),
    /// The record as compact JSON, to be read into a structured record.
    Json(String),
}

/// The mathematical content of an [`InspectOutput`].
pub enum InspectOutputView {
    Text(Seq<char>),
    Json(Seq<char>),
}

impl View for InspectOutput {
    type V = InspectOutputView;

    open spec fn view(&self) -> InspectOutputView {
        match self {
            InspectOutput::Text(text) => InspectOutputView::Text(text@),
            InspectOutput::Json(text) => InspectOutputView::Json(text@),
        }
    }
}

/// `serde_json::to_string` on an image record. Nothing is claimed of the
/// result: the JSON, or the reason why the record could not be encoded.
#[verifier::external_body]
fn encode_compact(record: &bollard::models::ImageInspect) -> (encoded: Result<
    String,
    serde_json::Error,
>) {
    serde_json::to_string(record)
}

/// `serde_json::to_string_pretty` on an image record. Nothing is claimed of
/// the result: the indented JSON, or the reason why the record could not be
/// encoded.
#[verifier::external_body]
fn encode_pretty(record: &bollard::models::ImageInspect) -> (encoded: Result<
    String,
    serde_json::Error,
>) {
    serde_json::to_string_pretty(record)
}

/// The message of a `serde_json::Error`, as its `Display` writes it.
/// Nothing is claimed of the text.
#[verifier::external_body]
fn encoding_failure_text(failure: &serde_json::Error) -> (text: String) {
    failure.to_string()
}

/// What the command hands on for an encoding: the text as a plain string
/// where `string` is set and as JSON to be read where it is not, and a
/// `SerializationError` with the cause where the encoding failed.
pub open spec fn presented(encoded: Result<String, String>, string: bool) -> Result<
    InspectOutputView,
    CommandErrorView,
> {
    match encoded {
        Ok(text) => Ok(
            if string {
                InspectOutputView::Text(text@)
            } else {
                InspectOutputView::Json(text@)
            },
        ),
        Err(cause) => Err(
            CommandErrorView {
                kind: ErrorKind::SerializationError,
                message: "Failed to serialize: "@ + cause@,
            },
        ),
    }
}

/// The views of an outcome of the command.
pub open spec fn outcome_view(outcome: Result<InspectOutput, CommandError>) -> Result<
    InspectOutputView,
    CommandErrorView,
> {
    match outcome {
        Ok(output) => Ok(output@),
        Err(e) => Err(e@),
    }
}

/// The surface of the `image inspect` command: no input, a record or a
/// string as output, the switch `--string`, `-s`, and the image as its one
/// argument.
pub open spec fn inspect_signature() -> CommandSignatureView {
    CommandSignatureView {
        name: "ndocker image inspect"@,
        input_output_types: seq![(Shape::Nothing, Shape::Structured), (Shape::Nothing, Shape::Text)],
        flags: seq![switch("string"@, Some('s'), "Show information in plain string"@)],
        positionals: seq![
            required("IMAGE"@, Shape::Text, "The ID or name of the image to inspect."@),
        ],
    }
}

/// The `image inspect` command.
#[derive(Debug, Clone, Copy, PartialEq, Eq, Structural)]
pub struct ImageInspectCommand;

impl ImageInspectCommand {
    /// The name of the command in the shell.
    pub fn name(&self) -> (name: &'static str)
        ensures
            name@ == "ndocker image inspect"@,
    {
        "ndocker image inspect"
    }

    /// What the command does, in one sentence.
    pub fn description(&self) -> (description: &'static str)
        ensures
            description@ == "Inspect a Docker image and show its detailed information."@,
    {
        "Inspect a Docker image and show its detailed information."
    }

    /// The surface of the command.
    pub fn signature(&self) -> (surface: CommandSignature)
        ensures
            surface@ == inspect_signature(),
    {
        let surface = CommandSignature {
            name: "ndocker image inspect",
            input_output_types: vec![
                (Shape::Nothing, Shape::Structured),
                (Shape::Nothing, Shape::Text),
            ],
            flags: vec![
                Flag {
                    long: "string",
                    short: Some('s'),
                    argument: None,
                    description: "Show information in plain string",
                },
            ],
            positionals: vec![
                Positional {
                    name: "IMAGE",
                    shape: Shape::Text,
                    required: true,
                    description: "The ID or name of the image to inspect.",
                },
            ],
        };
        assert(surface@.flags =~= inspect_signature().flags);
        assert(surface@.positionals =~= inspect_signature().positionals);
        assert(surface@.input_output_types =~= inspect_signature().input_output_types);
        surface
    }

    /// Shapes an encoding of the record into the command's outcome.
    pub fn present(&self, encoded: Result<String, String>, string: bool) -> (outcome: Result<
        InspectOutput,
        CommandError,
    >)
        ensures
            outcome_view(outcome) == presented(encoded, string),
    {
        match encoded {
            Ok(text) => {
                if string {
                    Ok(InspectOutput::Text(text))
                } else {
                    Ok(InspectOutput::Json(text))
                }
            },
            Err(cause) => Err(CommandError::serialization(cause.as_str())),
        }
    }

    /// Turns the daemon's record into the command's outcome. The record is
    /// encoded, indented where `string` is set and compact where it is not,
    /// and the outcome is the one that `present` gives for that encoding.
    pub fn run(&self, image_inspect: &bollard::models::ImageInspect, string: bool) -> (outcome:
        Result<InspectOutput, CommandError>)
        ensures
            exists|encoded: Result<String, String>|
                outcome_view(outcome) == #[trigger] presented(encoded, string),
    {
        let encoded = if string {
            encode_pretty(image_inspect)
        } else {
            encode_compact(image_inspect)
        };
        let encoded = match encoded {
            Ok(text) => Ok(text),
            Err(failure) => Err(encoding_failure_text(&failure)),
        };
        self.present(encoded, string)
    }
}

} // verus!
