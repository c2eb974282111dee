//! Records: the shell's insertion-ordered rows, which the views fill, and
//! the plain values that stand for what the rows hold.

use vstd::prelude::*;
use vstd::string::*;
use crate::clock::representable;

verus! {

/// The value of one field of a record.
#[derive(Debug, Clone, PartialEq, Eq)]
pub enum FieldValue {
    /// A text.
    Text(String),
    /// A list of texts.
    List(Vec<String>),
    /// A moment, in seconds since the Unix epoch.
    Date(i64),
    /// A size in bytes.
    Filesize(i64),
    /// A whole number.
    Int(i64),
}

/// The mathematical content of a [`FieldValue`].
pub enum FieldValueView {
    Text(Seq<char>),
    List(Seq<Seq<char>>),
    Date(int),
    Filesize(int),
    Int(int),
}

/// The texts that a sequence of strings holds.
pub open spec fn texts(items: Seq<String>) -> Seq<Seq<char>> {
    items.map_values(|item: String| item@)
}

impl View for FieldValue {
    type V = FieldValueView;

    open spec fn view(&self) -> FieldValueView {
        match self {
            FieldValue::Text(text) => FieldValueView::Text(text@),
            FieldValue::List(items) => FieldValueView::List(texts(items@)),
            FieldValue::Date(seconds) => FieldValueView::Date(*seconds as int),
            FieldValue::Filesize(bytes) => FieldValueView::Filesize(*bytes as int),
            FieldValue::Int(number) => FieldValueView::Int(*number as int),
        }
    }
}

/// A copy of a list of strings.
pub fn copy_texts(items: &Vec<String>) -> (copy: Vec<String>)
    ensures
        texts(copy@) == texts(items@),
{
    let mut copy: Vec<String> = Vec::new();
    let mut next: usize = 0;
    while next < items.len()
        invariant
            next <= items.len(),
            copy.len() == next,
            forall|i: int| 0 <= i < next ==> copy[i]@ == items[i]@,
        decreases items.len() - next,
    {
        copy.push(items[next].clone());
        next = next + 1;
    }
    assert(texts(copy@) =~= texts(items@));
    copy
}

impl FieldValue {
    /// A copy of this value.
    pub fn duplicate(&self) -> (copy: FieldValue)
        ensures
            copy@ == self@,
    {
        match self {
            FieldValue::Text(text) => FieldValue::Text(text.clone()),
            FieldValue::List(items) => FieldValue::List(copy_texts(items)),
            FieldValue::Date(seconds) => FieldValue::Date(*seconds),
            FieldValue::Filesize(bytes) => FieldValue::Filesize(*bytes),
            FieldValue::Int(number) => FieldValue::Int(*number),
        }
    }
}

/// The mathematical content of a record: its fields, in order.
pub type Fields = Seq<(Seq<char>, FieldValueView)>;

/// The shell's record: an insertion-ordered row of named values.
#[verifier::external_type_specification]
#[verifier::external_body]
pub struct ExShellRecord(nu_protocol::Record);

/// The shell's mark of where in the source a value comes from.
#[verifier::external_type_specification]
#[verifier::external_body]
pub struct ExShellSpan(nu_protocol::Span);

/// What a record of the shell holds: its fields in order, each by its name
/// and by the plain value that stands for its value. A string stands as
/// `Text`, a list of strings as `List`, a date as `Date` with its seconds
/// since the epoch, a file size as `Filesize` with its bytes, and an
/// integer as `Int`.
pub uninterp spec fn record_fields(record: nu_protocol::Record) -> Seq<(Seq<char>, FieldValueView)>;

/// The index of the last field called `name`, if there is one.
pub open spec fn last_index_of(fields: Fields, name: Seq<char>) -> Option<int>
    decreases fields.len(),
{
    if fields.len() == 0 {
        None
    } else if fields.last().0 == name {
        Some(fields.len() - 1)
    } else {
        last_index_of(fields.drop_last(), name)
    }
}

/// The fields after `value` has been inserted under `name`: it takes the
/// place of the value of the last field of that name, or, where there is no
/// such field, comes as a new last field.
pub open spec fn inserted(fields: Fields, name: Seq<char>, value: FieldValueView) -> Fields {
    match last_index_of(fields, name) {
        Some(index) => fields.update(index, (name, value)),
        None => fields.push((name, value)),
    }
}

/// The value of the last field called `name`, if there is one.
pub open spec fn lookup(fields: Fields, name: Seq<char>) -> Option<FieldValueView> {
    match last_index_of(fields, name) {
        Some(index) => Some(fields[index].1),
        None => None,
    }
}

/// The names of the fields, in order.
pub open spec fn column_names(fields: Fields) -> Seq<Seq<char>> {
    fields.map_values(|field: (Seq<char>, FieldValueView)| field.0)
}

/// `last_index_of` finds a field of the name, and the last one; it finds
/// none exactly where no field has the name.
pub proof fn lemma_last_index_of(fields: Fields, name: Seq<char>)
    ensures
        match last_index_of(fields, name) {
            Some(index) => 0 <= index < fields.len() && fields[index].0 == name && forall|
                later: int,
            |
                index < later < fields.len() ==> fields[later].0 != name,
            None => forall|i: int| 0 <= i < fields.len() ==> fields[i].0 != name,
        },
    decreases fields.len(),
{
    if fields.len() > 0 && fields.last().0 != name {
        let front = fields.drop_last();
        lemma_last_index_of(front, name);
        match last_index_of(front, name) {
            Some(index) => {
                assert forall|later: int| index < later < fields.len() implies fields[later].0
                    != name by {
                    if later < front.len() {
                        assert(fields[later] == front[later]);
                    }
                }
            },
            None => {
                assert forall|i: int| 0 <= i < fields.len() implies fields[i].0 != name by {
                    if i < front.len() {
                        assert(fields[i] == front[i]);
                    }
                }
            },
        }
    }
}

/// Inserting under a name that no field has appends the field.
pub proof fn lemma_insert_fresh(fields: Fields, name: Seq<char>, value: FieldValueView)
    requires
        forall|i: int| 0 <= i < fields.len() ==> fields[i].0 != name,
    ensures
        inserted(fields, name, value) == fields.push((name, value)),
{
    lemma_last_index_of(fields, name);
}

/// `nu_protocol::Record::new`. The contract claims that the new record
/// has no field.
#[verifier::external_body]
pub(crate) fn new_record() -> (record: nu_protocol::Record)
    ensures
        record_fields(record) == Fields::empty(),
{
    nu_protocol::Record::new()
}

/// `nu_protocol::Record::insert`, with the value of the shell that `value`
/// stands for, made at `span`. A moment must be one that the calendar can
/// represent. The contract claims what the record holds afterwards: the
/// value has taken the place of the value of the last field called `name`,
/// and where no field has that name a field of that name and value has
/// come last; no other field has changed.
#[verifier::external_body]
pub(crate) fn insert_field(
    base: &mut nu_protocol::Record,
    name: &str,
    value: FieldValue,
    span: nu_protocol::Span,
)
    requires
        value@ matches FieldValueView::Date(seconds) ==> representable(seconds),
    ensures
        record_fields(*final(base)) == inserted(record_fields(*old(base)), name@, value@),
{
    let value = match value {
        FieldValue::Text(text) => nu_protocol::Value::string(text, span),
        FieldValue::List(items) => nu_protocol::Value::list(
            items.into_iter().map(|item| nu_protocol::Value::string(item, span)).collect(),
            span,
        ),
        FieldValue::Date(seconds) => nu_protocol::Value::date(
            chrono::DateTime::from_timestamp(seconds, 0).unwrap_or_default().fixed_offset(),
            span,
        ),
        FieldValue::Filesize(bytes) => nu_protocol::Value::filesize(bytes, span),
        FieldValue::Int(number) => nu_protocol::Value::int(number, span),
    };
    base.insert(name.to_string(), value);
}

} // verus!
