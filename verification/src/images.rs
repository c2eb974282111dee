//! The `images` command: its surface, its documented uses, and the rows
//! it shows for the daemon's list of images.

use vstd::prelude::*;
use vstd::string::*;
use crate::cli::{
    examples_view, rows_view, switch, CommandSignature, CommandSignatureView, Example,
    ExampleView, Flag, Shape,
};
use crate::image::{
    base_fields, image_of, short_fields, standard_fields, Image, ImageSummary, ImageView,
};
use crate::record::{
    column_names, insert_field, lemma_insert_fresh, new_record, record_fields, texts, FieldValue,
    FieldValueView, Fields,
};

verus! {

/// One row of the `images` table.
#[derive(Debug, PartialEq)]
pub enum ImageRow {
    /// The entity itself, which a pipeline shows by its canonical view.
    Entity(Image),
    /// One of the entity's views, as a plain record.
    Plain(nu_protocol::Record),
}

/// The mathematical content of an [`ImageRow`].
pub enum ImageRowView {
    Entity(ImageView),
    Plain(Fields),
}

impl View for ImageRow {
    type V = ImageRowView;

    open spec fn view(&self) -> ImageRowView {
        match self {
            ImageRow::Entity(image) => ImageRowView::Entity(image@),
            ImageRow::Plain(record) => ImageRowView::Plain(record_fields(*record)),
        }
    }
}

/// The row that the command shows for a summary: the entity where `all` is
/// set, else its short view where `short` is set, else its standard view.
pub open spec fn image_row(summary: ImageView, all: bool, short: bool) -> ImageRowView {
    if all {
        ImageRowView::Entity(image_of(summary))
    } else if short {
        ImageRowView::Plain(short_fields(image_of(summary)))
    } else {
        ImageRowView::Plain(standard_fields(image_of(summary)))
    }
}

/// The surface of the `images` command: no input, a table as output, and
/// the switches `--all`, `-a` and `--short`, `-s`.
pub open spec fn images_signature() -> CommandSignatureView {
    CommandSignatureView {
        name: "ndocker images"@,
        input_output_types: seq![(Shape::Nothing, Shape::Table)],
        flags: seq![
            switch("all"@, Some('a'), "Show all the information of the image."@),
            switch("short"@, Some('s'), "Show a short version of information"@),
        ],
        positionals: Seq::empty(),
    }
}

/// The row of the documented table by default.
pub open spec fn example_standard_row() -> Fields {
    seq![
        ("id"@, FieldValueView::Text("8daff9993116"@)),
        ("repotags"@, FieldValueView::List(seq!["rust:1.84.0"@])),
        ("created"@, FieldValueView::Text("6 months ago"@)),
        ("size"@, FieldValueView::Text("1.4 GB"@)),
    ]
}

/// The row of the documented table with `-s`.
pub open spec fn example_short_row() -> Fields {
    seq![
        ("repotags"@, FieldValueView::List(seq!["rust:1.84.0"@])),
        ("created"@, FieldValueView::Text("6 months ago"@)),
        ("size"@, FieldValueView::Text("1.4 GB"@)),
    ]
}

/// The row of the documented table with `-a`.
pub open spec fn example_full_row() -> Fields {
    seq![
        ("id"@, FieldValueView::Text("8daff9993116"@)),
        ("parent_id"@, FieldValueView::Text(""@)),
        ("repotags"@, FieldValueView::List(seq!["rust:1.84.0"@])),
        ("created"@, FieldValueView::Text("6 months ago"@)),
        ("size"@, FieldValueView::Text("1.4 GB"@)),
        ("shared_size"@, FieldValueView::Text("-1 B"@)),
        ("containers"@, FieldValueView::Text("-1"@)),
    ]
}

/// The documented uses of the `images` command.
pub open spec fn images_examples() -> Seq<ExampleView> {
    seq![
        ExampleView {
            description: "List all Docker images"@,
            example: "ndocker images"@,
            result: Some(seq![example_standard_row()]),
        },
        ExampleView {
            description: "List all Docker images in a short version"@,
            example: "ndocker images -s"@,
            result: Some(seq![example_short_row()]),
        },
        ExampleView {
            description: "List all Docker images with all information, \"containers\" is the number of containers using the image. -1 means your docker daemon does not support this feature."@,
            example: "ndocker images -a"@,
            result: Some(seq![example_full_row()]),
        },
        ExampleView {
            description: "List \"id\", \"repotags\" and  \"size\" of all docker images"@,
            example: "ndocker images | select id repotags size"@,
            result: None,
        },
        ExampleView {
            description: "List all docker images in shrot version and sort by \"size\""@,
            example: "ndocker images -s | sort-by size"@,
            result: None,
        },
    ]
}

/// The documented tables have the columns of the views they stand for: by
/// default those of the standard view, with `-s` those of the short view,
/// and with `-a` those of the canonical view.
pub proof fn lemma_examples_show_the_views(image: ImageView)
    ensures
        column_names(example_standard_row()) == column_names(standard_fields(image)),
        column_names(example_short_row()) == column_names(short_fields(image)),
        column_names(example_full_row()) == column_names(base_fields(image)),
{
    assert(column_names(example_standard_row()) =~= column_names(standard_fields(image)));
    assert(column_names(example_short_row()) =~= column_names(short_fields(image)));
    assert(column_names(example_full_row()) =~= column_names(base_fields(image)));
}

/// The lengths of the field names in the documented tables, which tell
/// them apart.
proof fn lemma_example_names_differ()
    ensures
        "id"@.len() == 2,
        "parent_id"@.len() == 9,
        "repotags"@.len() == 8,
        "created"@.len() == 7,
        "size"@.len() == 4,
        "shared_size"@.len() == 11,
        "containers"@.len() == 10,
{
    reveal_strlit("id");
    reveal_strlit("parent_id");
    reveal_strlit("repotags");
    reveal_strlit("created");
    reveal_strlit("size");
    reveal_strlit("shared_size");
    reveal_strlit("containers");
}

/// Puts the text `text` into `row` as a new last field called `name`.
fn append_text(row: &mut nu_protocol::Record, name: &str, text: &str, span: nu_protocol::Span)
    requires
        forall|i: int|
            0 <= i < record_fields(*old(row)).len() ==> record_fields(*old(row))[i].0 != name@,
    ensures
        record_fields(*final(row)) == record_fields(*old(row)).push(
            (name@, FieldValueView::Text(text@)),
        ),
{
    proof {
        lemma_insert_fresh(record_fields(*row), name@, FieldValueView::Text(text@));
    }
    insert_field(row, name, FieldValue::Text(text.to_owned()), span);
}

/// Puts the list of the one text `item` into `row` as a new last field
/// called `name`.
fn append_single(row: &mut nu_protocol::Record, name: &str, item: &str, span: nu_protocol::Span)
    requires
        forall|i: int|
            0 <= i < record_fields(*old(row)).len() ==> record_fields(*old(row))[i].0 != name@,
    ensures
        record_fields(*final(row)) == record_fields(*old(row)).push(
            (name@, FieldValueView::List(seq![item@])),
        ),
{
    let items = vec![item.to_owned()];
    proof {
        assert(texts(items@) =~= seq![item@]);
        lemma_insert_fresh(record_fields(*row), name@, FieldValueView::List(seq![item@]));
    }
    insert_field(row, name, FieldValue::List(items), span);
}

/// The `images` command.
#[derive(Debug, Clone, Copy, PartialEq, Eq, Structural)]
pub struct ImagesCommand;

impl ImagesCommand {
    /// The name of the command in the shell.
    pub fn name(&self) -> (name: &'static str)
        ensures
            name@ == "ndocker images"@,
    {
        "ndocker images"
    }

    /// What the command does, in one sentence.
    pub fn description(&self) -> (description: &'static str)
        ensures
            description@ == "List Docker images and their infomation."@,
    {
        "List Docker images and their infomation."
    }

    /// The surface of the command.
    pub fn signature(&self) -> (surface: CommandSignature)
        ensures
            surface@ == images_signature(),
    {
        let surface = CommandSignature {
            name: "ndocker images",
            input_output_types: vec![(Shape::Nothing, Shape::Table)],
            flags: vec![
                Flag {
                    long: "all",
                    short: Some('a'),
                    argument: None,
                    description: "Show all the information of the image.",
                },
                Flag {
                    long: "short",
                    short: Some('s'),
                    argument: None,
                    description: "Show a short version of information",
                },
            ],
            positionals: Vec::new(),
        };
        assert(surface@.flags =~= images_signature().flags);
        assert(surface@.positionals =~= images_signature().positionals);
        assert(surface@.input_output_types =~= images_signature().input_output_types);
        surface
    }

    /// The documented uses of the command: the table by default, with
    /// `-s` and with `-a`, each with one row as the shell displays it, and
    /// two uses in a pipeline.
    pub fn examples(&self, span: nu_protocol::Span) -> (examples: Vec<Example>)
        ensures
            examples_view(examples@) == images_examples(),
    {
        proof {
            lemma_example_names_differ();
        }
        let mut standard = new_record();
        append_text(&mut standard, "id", "8daff9993116", span);
        append_single(&mut standard, "repotags", "rust:1.84.0", span);
        append_text(&mut standard, "created", "6 months ago", span);
        append_text(&mut standard, "size", "1.4 GB", span);
        let mut short = new_record();
        append_single(&mut short, "repotags", "rust:1.84.0", span);
        append_text(&mut short, "created", "6 months ago", span);
        append_text(&mut short, "size", "1.4 GB", span);
        let mut full = new_record();
        append_text(&mut full, "id", "8daff9993116", span);
        append_text(&mut full, "parent_id", "", span);
        append_single(&mut full, "repotags", "rust:1.84.0", span);
        append_text(&mut full, "created", "6 months ago", span);
        append_text(&mut full, "size", "1.4 GB", span);
        append_text(&mut full, "shared_size", "-1 B", span);
        append_text(&mut full, "containers", "-1", span);
        assert(record_fields(standard) =~= example_standard_row());
        assert(record_fields(short) =~= example_short_row());
        assert(record_fields(full) =~= example_full_row());
        let standard_rows = vec![standard];
        let short_rows = vec![short];
        let full_rows = vec![full];
        assert(rows_view(standard_rows@) =~= seq![example_standard_row()]);
        assert(rows_view(short_rows@) =~= seq![example_short_row()]);
        assert(rows_view(full_rows@) =~= seq![example_full_row()]);
        let examples = vec![
            Example {
                description: "List all Docker images",
                example: "ndocker images",
                result: Some(standard_rows),
            },
            Example {
                description: "List all Docker images in a short version",
                example: "ndocker images -s",
                result: Some(short_rows),
            },
            Example {
                description: "List all Docker images with all information, \"containers\" is the number of containers using the image. -1 means your docker daemon does not support this feature.",
                example: "ndocker images -a",
                result: Some(full_rows),
            },
            Example {
                description: "List \"id\", \"repotags\" and  \"size\" of all docker images",
                example: "ndocker images | select id repotags size",
                result: None,
            },
            Example {
                description: "List all docker images in shrot version and sort by \"size\"",
                example: "ndocker images -s | sort-by size",
                result: None,
            },
        ];
        assert(examples_view(examples@) =~= images_examples());
        examples
    }

    /// Shapes the daemon's list into the rows of the table: one row for
    /// each listed image, in the order of the list.
    pub fn run(
        &self,
        images: &Vec<ImageSummary>,
        all: bool,
        short: bool,
        span: nu_protocol::Span,
    ) -> (rows: Vec<ImageRow>)
        ensures
            rows.len() == images.len(),
            forall|i: int|
                0 <= i < rows.len() ==> (#[trigger] rows[i])@ == image_row(images[i]@, all, short),
    {
        let mut rows: Vec<ImageRow> = Vec::new();
        let mut next: usize = 0;
        while next < images.len()
            invariant
                next <= images.len(),
                rows.len() == next,
                forall|i: int|
                    0 <= i < next ==> (#[trigger] rows[i])@ == image_row(images[i]@, all, short),
            decreases images.len() - next,
        {
            let image = Image::new(images[next].duplicate());
            if all {
                rows.push(ImageRow::Entity(image));
            } else if short {
                rows.push(ImageRow::Plain(image.short_version(span)));
            } else {
                rows.push(ImageRow::Plain(image.standard_version(span)));
            }
            next = next + 1;
        }
        rows
    }
}

} // verus!
