//! Image history: the daemon's history items, the entity made from one, its
//! view, and the `image history` command.

use vstd::prelude::*;
use vstd::string::*;
use crate::cli::{
    required, switch, CommandSignature, CommandSignatureView, Flag, Positional, Shape,
};
use crate::clock::{moment_of, normalize_timestamp, representable};
use crate::record::{
    copy_texts, insert_field, lemma_insert_fresh, new_record, record_fields, texts, FieldValue,
    FieldValueView, Fields,
};
use crate::text::{short_id, shorten_id, shorten_string, truncated};

verus! {

/// The number of characters that a view shows of the command that created
/// a layer.
pub const CREATED_BY_WIDTH: usize = 45;

/// One layer of an image's history as the daemon reports it.
#[derive(Debug, Clone, PartialEq, Eq)]
pub struct HistoryItem {
    /// The identifier of the layer.
    pub id: String,
    /// The creation time, in seconds since the Unix epoch.
    pub created: i64,
    /// The command that created the layer.
    pub created_by: String,
    /// The names given to the layer.
    pub tags: Vec<String>,
    /// The size in bytes.
    pub size: i64,
    /// A free-form comment.
    pub comment: String,
}

/// A history entity. It is made once from an item and never changed.
#[derive(Debug, Clone, PartialEq, Eq)]
pub struct ImageHistory {
    pub id: String,
    /// The creation time, in seconds since the Unix epoch, within the
    /// calendar's range.
    pub created: i64,
    pub created_by: String,
    pub tags: Vec<String>,
    pub size: i64,
    pub comment: String,
}

/// The mathematical content of a history item and of a history entity.
pub struct HistoryView {
    pub id: Seq<char>,
    pub created: int,
    pub created_by: Seq<char>,
    pub tags: Seq<Seq<char>>,
    pub size: int,
    pub comment: Seq<char>,
}

impl View for HistoryItem {
    type V = HistoryView;

    open spec fn view(&self) -> HistoryView {
        HistoryView {
            id: self.id@,
            created: self.created as int,
            created_by: self.created_by@,
            tags: texts(self.tags@),
            size: self.size as int,
            comment: self.comment@,
        }
    }
}

impl View for ImageHistory {
    type V = HistoryView;

    open spec fn view(&self) -> HistoryView {
        HistoryView {
            id: self.id@,
            created: self.created as int,
            created_by: self.created_by@,
            tags: texts(self.tags@),
            size: self.size as int,
            comment: self.comment@,
        }
    }
}

/// The entity that an item describes: the item itself, its creation time
/// brought into the calendar's range.
pub open spec fn history_of(item: HistoryView) -> HistoryView {
    HistoryView { created: moment_of(item.created), ..item }
}

/// The full view of a history entity: short identifier, creation time, the
/// creating command cut to `CREATED_BY_WIDTH` characters, the names, the
/// size and the comment.
pub open spec fn history_fields(entry: HistoryView) -> Fields {
    seq![
        ("id"@, FieldValueView::Text(short_id(entry.id))),
        ("created"@, FieldValueView::Date(moment_of(entry.created))),
        (
            "created_by"@,
            FieldValueView::Text(truncated(entry.created_by, CREATED_BY_WIDTH as int)),
        ),
        ("tags"@, FieldValueView::List(entry.tags)),
        ("size"@, FieldValueView::Filesize(entry.size)),
        ("comment"@, FieldValueView::Text(entry.comment)),
    ]
}

/// One row of the `image history` table.
#[derive(Debug, PartialEq)]
pub enum HistoryRow {
    /// The entity itself, which a pipeline shows by its full view.
    Entity(ImageHistory),
    /// The full view, as a plain record.
    Plain(nu_protocol::Record),
}

/// The mathematical content of a [`HistoryRow`].
pub enum HistoryRowView {
    Entity(HistoryView),
    Plain(Fields),
}

impl View for HistoryRow {
    type V = HistoryRowView;

    open spec fn view(&self) -> HistoryRowView {
        match self {
            HistoryRow::Entity(entry) => HistoryRowView::Entity(entry@),
            HistoryRow::Plain(record) => HistoryRowView::Plain(record_fields(*record)),
        }
    }
}

/// The row that the command shows for an item.
pub open spec fn history_row(item: HistoryView, wide: bool) -> HistoryRowView {
    if wide {
        HistoryRowView::Plain(history_fields(history_of(item)))
    } else {
        HistoryRowView::Entity(history_of(item))
    }
}

/// The six field names of the full view are pairwise different.
proof fn lemma_history_names_differ()
    ensures
        "id"@.len() == 2,
        "created"@.len() == 7,
        "created_by"@.len() == 10,
        "tags"@.len() == 4,
        "size"@.len() == 4,
        "comment"@.len() == 7,
        "tags"@ != "size"@,
        "created"@ != "comment"@,
{
    reveal_strlit("id");
    reveal_strlit("created");
    reveal_strlit("created_by");
    reveal_strlit("tags");
    reveal_strlit("size");
    reveal_strlit("comment");
    assert("tags"@[0] != "size"@[0]);
    assert("created"@[1] != "comment"@[1]);
}

impl HistoryItem {
    /// A copy of this item.
    pub fn duplicate(&self) -> (copy: HistoryItem)
        ensures
            copy@ == self@,
    {
        HistoryItem {
            id: self.id.clone(),
            created: self.created,
            created_by: self.created_by.clone(),
            tags: copy_texts(&self.tags),
            size: self.size,
            comment: self.comment.clone(),
        }
    }
}

impl ImageHistory {
    /// An entry is well formed where the calendar can represent its
    /// creation time.
    pub open spec fn well_formed(&self) -> bool {
        representable(self.created as int)
    }

    /// The entity for a history item of the daemon.
    pub fn new(image_history: HistoryItem) -> (entry: ImageHistory)
        ensures
            entry@ == history_of(image_history@),
            entry.well_formed(),
    {
        ImageHistory {
            id: image_history.id,
            created: normalize_timestamp(image_history.created),
            created_by: image_history.created_by,
            tags: image_history.tags,
            size: image_history.size,
            comment: image_history.comment,
        }
    }

    /// The full view of the entity.
    pub fn full_version(&self, span: nu_protocol::Span) -> (view: nu_protocol::Record)
        ensures
            record_fields(view) == history_fields(self@),
    {
        let mut base = new_record();
        insert_field(&mut base, "id", FieldValue::Text(shorten_id(self.id.as_str())), span);
        insert_field(
            &mut base,
            "created",
            FieldValue::Date(normalize_timestamp(self.created)),
            span,
        );
        insert_field(
            &mut base,
            "created_by",
            FieldValue::Text(shorten_string(self.created_by.as_str(), CREATED_BY_WIDTH)),
            span,
        );
        insert_field(&mut base, "tags", FieldValue::List(copy_texts(&self.tags)), span);
        insert_field(&mut base, "size", FieldValue::Filesize(self.size), span);
        insert_field(&mut base, "comment", FieldValue::Text(self.comment.clone()), span);
        proof {
            lemma_history_names_differ();
            let entry = self@;
            let all = history_fields(entry);
            let one = seq![all[0]];
            let two = one.push(all[1]);
            let three = two.push(all[2]);
            let four = three.push(all[3]);
            let five = four.push(all[4]);
            lemma_insert_fresh(Fields::empty(), all[0].0, all[0].1);
            assert(Fields::empty().push(all[0]) == one);
            lemma_insert_fresh(one, all[1].0, all[1].1);
            lemma_insert_fresh(two, all[2].0, all[2].1);
            lemma_insert_fresh(three, all[3].0, all[3].1);
            lemma_insert_fresh(four, all[4].0, all[4].1);
            lemma_insert_fresh(five, all[5].0, all[5].1);
            assert(five.push(all[5]) == all);
        }
        base
    }

    /// The canonical view of the entity, which is its full view.
    pub fn to_base_value(&self, span: nu_protocol::Span) -> (view: nu_protocol::Record)
        ensures
            record_fields(view) == history_fields(self@),
    {
        self.full_version(span)
    }
}

/// The surface of the `image history` command: no input, a table as
/// output, the switch `--wide`, `-w`, and the image as its one argument.
pub open spec fn history_signature() -> CommandSignatureView {
    CommandSignatureView {
        name: "ndocker image history"@,
        input_output_types: seq![(Shape::Nothing, Shape::Table)],
        flags: seq![
            switch(
                "wide"@,
                Some('w'),
                "Show full information of the string instead of a short version."@,
            ),
        ],
        positionals: seq![
            required(
                "IMAGE"@,
                Shape::Text,
                "The ID or name of the image to show history for."@,
            ),
        ],
    }
}

/// The `image history` command.
#[derive(Debug, Clone, Copy, PartialEq, Eq, Structural)]
pub struct ImageHistoryCommand;

impl ImageHistoryCommand {
    /// The name of the command in the shell.
    pub fn name(&self) -> (name: &'static str)
        ensures
            name@ == "ndocker image history"@,
    {
        "ndocker image history"
    }

    /// What the command does, in one sentence.
    pub fn description(&self) -> (description: &'static str)
        ensures
            description@ == "List the history of a Docker image."@,
    {
        "List the history of a Docker image."
    }

    /// The surface of the command.
    pub fn signature(&self) -> (surface: CommandSignature)
        ensures
            surface@ == history_signature(),
    {
        let surface = CommandSignature {
            name: "ndocker image history",
            input_output_types: vec![(Shape::Nothing, Shape::Table)],
            flags: vec![
                Flag {
                    long: "wide",
                    short: Some('w'),
                    argument: None,
                    description: "Show full information of the string instead of a short version.",
                },
            ],
            positionals: vec![
                Positional {
                    name: "IMAGE",
                    shape: Shape::Text,
                    required: true,
                    description: "The ID or name of the image to show history for.",
                },
            ],
        };
        assert(surface@.flags =~= history_signature().flags);
        assert(surface@.positionals =~= history_signature().positionals);
        assert(surface@.input_output_types =~= history_signature().input_output_types);
        surface
    }

    /// Shapes the daemon's answer into the rows of the table, one row for
    /// each item and in the same order: records of the full view where
    /// `wide` is set, the entities themselves where it is not.
    pub fn run(&self, histories: &Vec<HistoryItem>, wide: bool, span: nu_protocol::Span) -> (rows:
        Vec<HistoryRow>)
        ensures
            rows.len() == histories.len(),
            forall|i: int|
                0 <= i < rows.len() ==> (#[trigger] rows[i])@ == history_row(histories[i]@, wide),
    {
        let mut rows: Vec<HistoryRow> = Vec::new();
        let mut next: usize = 0;
        while next < histories.len()
            invariant
                next <= histories.len(),
                rows.len() == next,
                forall|i: int|
                    0 <= i < next ==> (#[trigger] rows[i])@ == history_row(histories[i]@, wide),
            decreases histories.len() - next,
        {
            let entry = ImageHistory::new(histories[next].duplicate());
            if wide {
                rows.push(HistoryRow::Plain(entry.full_version(span)));
            } else {
                rows.push(HistoryRow::Entity(entry));
            }
            next = next + 1;
        }
        rows
    }
}

} // verus!
