//! The surface of a command: its name, what it takes and what it gives.
//! The names of the flags are part of the interface and must not change.

use vstd::prelude::*;
use crate::record::{record_fields, Fields};

verus! {

/// The shape of a value that a command takes or gives.
#[derive(Debug, Clone, Copy, PartialEq, Eq, Structural)]
pub enum Shape {
    /// No value at all.
    Nothing,
    /// A byte payload.
    Binary,
    /// A string.
    Text,
    /// A list of strings.
    TextList,
    /// A structured record.
    Structured,
    /// A table: a list of records.
    Table,
    /// Image entities.
    Image,
}

/// A named flag of a command.
#[derive(Debug, Clone, Copy, PartialEq, Eq)]
pub struct Flag {
    /// The long name, given as `--name`.
    pub long: &'static str,
    /// The short name, given as `-n`, if the flag has one.
    pub short: Option<char>,
    /// The shape of the flag's argument; a flag without one is a switch.
    pub argument: Option<Shape>,
    /// What the flag does.
    pub description: &'static str,
}

/// The mathematical content of a [`Flag`].
pub struct FlagView {
    pub long: Seq<char>,
    pub short: Option<char>,
    pub argument: Option<Shape>,
    pub description: Seq<char>,
}

impl View for Flag {
    type V = FlagView;

    open spec fn view(&self) -> FlagView {
        FlagView {
            long: self.long@,
            short: self.short,
            argument: self.argument,
            description: self.description@,
        }
    }
}

/// A positional argument of a command.
#[derive(Debug, Clone, Copy, PartialEq, Eq)]
pub struct Positional {
    /// The name shown in the usage.
    pub name: &'static str,
    /// The shape of the argument.
    pub shape: Shape,
    /// Whether the argument must be given.
    pub required: bool,
    /// What the argument is.
    pub description: &'static str,
}

/// The mathematical content of a [`Positional`].
pub struct PositionalView {
    pub name: Seq<char>,
    pub shape: Shape,
    pub required: bool,
    pub description: Seq<char>,
}

impl View for Positional {
    type V = PositionalView;

    open spec fn view(&self) -> PositionalView {
        PositionalView {
            name: self.name@,
            shape: self.shape,
            required: self.required,
            description: self.description@,
        }
    }
}

/// The surface of a command.
#[derive(Debug, Clone, PartialEq, Eq)]
pub struct CommandSignature {
    /// The name of the command in the shell.
    pub name: &'static str,
    /// The pairs of input and output that the command supports.
    pub input_output_types: Vec<(Shape, Shape)>,
    /// The flags, in the order of the usage.
    pub flags: Vec<Flag>,
    /// The positional arguments, in order.
    pub positionals: Vec<Positional>,
}

/// The mathematical content of a [`CommandSignature`].
pub struct CommandSignatureView {
    pub name: Seq<char>,
    pub input_output_types: Seq<(Shape, Shape)>,
    pub flags: Seq<FlagView>,
    pub positionals: Seq<PositionalView>,
}

impl View for CommandSignature {
    type V = CommandSignatureView;

    open spec fn view(&self) -> CommandSignatureView {
        CommandSignatureView {
            name: self.name@,
            input_output_types: self.input_output_types@,
            flags: self.flags@.map_values(|flag: Flag| flag@),
            positionals: self.positionals@.map_values(|positional: Positional| positional@),
        }
    }
}

/// A documented use of a command.
#[derive(Debug, PartialEq)]
pub struct Example {
    /// What the use shows.
    pub description: &'static str,
    /// The command line.
    pub example: &'static str,
    /// The table that the command line gives, where the documentation
    /// shows one. Its values are written as the shell displays them.
    pub result: Option<Vec<nu_protocol::Record>>,
}

/// The mathematical content of an [`Example`].
pub struct ExampleView {
    pub description: Seq<char>,
    pub example: Seq<char>,
    pub result: Option<Seq<Fields>>,
}

/// The contents of a list of records.
pub open spec fn rows_view(rows: Seq<nu_protocol::Record>) -> Seq<Fields> {
    rows.map_values(|row: nu_protocol::Record| record_fields(row))
}

impl View for Example {
    type V = ExampleView;

    open spec fn view(&self) -> ExampleView {
        ExampleView {
            description: self.description@,
            example: self.example@,
            result: match self.result {
                Some(rows) => Some(rows_view(rows@)),
                None => None,
            },
        }
    }
}

/// The contents of a list of examples.
pub open spec fn examples_view(examples: Seq<Example>) -> Seq<ExampleView> {
    examples.map_values(|example: Example| example@)
}

/// A required positional argument.
pub open spec fn required(name: Seq<char>, shape: Shape, description: Seq<char>) -> PositionalView {
    PositionalView { name, shape, required: true, description }
}

/// An optional positional argument.
pub open spec fn optional(name: Seq<char>, shape: Shape, description: Seq<char>) -> PositionalView {
    PositionalView { name, shape, required: false, description }
}

/// A flag without argument.
pub open spec fn switch(long: Seq<char>, short: Option<char>, description: Seq<char>) -> FlagView {
    FlagView { long, short, argument: None, description }
}

/// A flag with an argument of `shape`.
pub open spec fn named(
    long: Seq<char>,
    short: Option<char>,
    shape: Shape,
    description: Seq<char>,
) -> FlagView {
    FlagView { long, short, argument: Some(shape), description }
}

} // verus!
