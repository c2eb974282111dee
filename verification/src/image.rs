//! Images: the daemon's summary of an image, the entity made from it, and
//! the entity's views.

use vstd::prelude::*;
use vstd::string::*;
use crate::clock::{moment_of, normalize_timestamp, representable};
use crate::error::{CommandError, CommandErrorView, ErrorKind};
use crate::record::{
    copy_texts, insert_field, inserted, last_index_of, lemma_insert_fresh, lookup, new_record,
    record_fields, texts, FieldValue, FieldValueView, Fields,
};
use crate::text::{join, short_id, shorten_id, str_eq};

verus! {

/// An image as the daemon lists it.
#[derive(Debug, Clone, PartialEq, Eq)]
pub struct ImageSummary {
    /// The content-derived identifier.
    pub id: String,
    /// The identifier of the parent image, empty where there is none.
    pub parent_id: String,
    /// The `repository:tag` names.
    pub repo_tags: Vec<String>,
    /// The creation time, in seconds since the Unix epoch.
    pub created: i64,
    /// The size in bytes.
    pub size: i64,
    /// The size shared with other images, in bytes; -1 where unknown.
    pub shared_size: i64,
    /// The number of containers that use the image; -1 where unknown.
    pub containers: i64,
}

/// An image entity. It is made once from a summary and never changed.
#[derive(Debug, Clone, PartialEq, Eq)]
pub struct Image {
    pub id: String,
    pub parent_id: String,
    pub repo_tags: Vec<String>,
    /// The creation time, in seconds since the Unix epoch, within the
    /// calendar's range.
    pub created: i64,
    pub size: i64,
    pub shared_size: i64,
    pub containers: i64,
}

/// The mathematical content of an image summary and of an image.
pub struct ImageView {
    pub id: Seq<char>,
    pub parent_id: Seq<char>,
    pub repo_tags: Seq<Seq<char>>,
    pub created: int,
    pub size: int,
    pub shared_size: int,
    pub containers: int,
}

impl View for ImageSummary {
    type V = ImageView;

    open spec fn view(&self) -> ImageView {
        ImageView {
            id: self.id@,
            parent_id: self.parent_id@,
            repo_tags: texts(self.repo_tags@),
            created: self.created as int,
            size: self.size as int,
            shared_size: self.shared_size as int,
            containers: self.containers as int,
        }
    }
}

impl View for Image {
    type V = ImageView;

    open spec fn view(&self) -> ImageView {
        ImageView {
            id: self.id@,
            parent_id: self.parent_id@,
            repo_tags: texts(self.repo_tags@),
            created: self.created as int,
            size: self.size as int,
            shared_size: self.shared_size as int,
            containers: self.containers as int,
        }
    }
}

/// The image that a summary describes: the summary itself, its creation
/// time brought into the calendar's range.
pub open spec fn image_of(summary: ImageView) -> ImageView {
    ImageView { created: moment_of(summary.created), ..summary }
}

/// The value of the field `name` of an image, as every view shows it; none
/// where an image has no field of that name.
pub open spec fn image_field(image: ImageView, name: Seq<char>) -> Option<FieldValueView> {
    if name == "id"@ {
        Some(FieldValueView::Text(short_id(image.id)))
    } else if name == "parent_id"@ {
        Some(FieldValueView::Text(short_id(image.parent_id)))
    } else if name == "repotags"@ {
        Some(FieldValueView::List(image.repo_tags))
    } else if name == "created"@ {
        Some(FieldValueView::Date(moment_of(image.created)))
    } else if name == "size"@ {
        Some(FieldValueView::Filesize(image.size))
    } else if name == "shared_size"@ {
        Some(FieldValueView::Filesize(image.shared_size))
    } else if name == "containers"@ {
        Some(FieldValueView::Int(image.containers))
    } else {
        None
    }
}

/// The short view: names, creation time and size.
pub open spec fn short_fields(image: ImageView) -> Fields {
    seq![
        ("repotags"@, FieldValueView::List(image.repo_tags)),
        ("created"@, FieldValueView::Date(moment_of(image.created))),
        ("size"@, FieldValueView::Filesize(image.size)),
    ]
}

/// The standard view: the short identifier, then the short view.
pub open spec fn standard_fields(image: ImageView) -> Fields {
    seq![
        ("id"@, FieldValueView::Text(short_id(image.id))),
        ("repotags"@, FieldValueView::List(image.repo_tags)),
        ("created"@, FieldValueView::Date(moment_of(image.created))),
        ("size"@, FieldValueView::Filesize(image.size)),
    ]
}

/// The canonical view: every field.
pub open spec fn base_fields(image: ImageView) -> Fields {
    seq![
        ("id"@, FieldValueView::Text(short_id(image.id))),
        ("parent_id"@, FieldValueView::Text(short_id(image.parent_id))),
        ("repotags"@, FieldValueView::List(image.repo_tags)),
        ("created"@, FieldValueView::Date(moment_of(image.created))),
        ("size"@, FieldValueView::Filesize(image.size)),
        ("shared_size"@, FieldValueView::Filesize(image.shared_size)),
        ("containers"@, FieldValueView::Int(image.containers)),
    ]
}

/// Whether the short view has a field called `name`.
pub open spec fn in_short_view(name: Seq<char>) -> bool {
    name == "repotags"@ || name == "created"@ || name == "size"@
}

/// The names of an image's fields, as a failed lookup lists them.
pub open spec fn valid_fields() -> Seq<char> {
    "one of {id, parent_id, repotags, created, size, shared_size, containers}"@
}

/// The message that rejects the lookup of an unknown field.
pub open spec fn unknown_field_message(name: Seq<char>) -> Seq<char> {
    "Invalid value: expected "@ + valid_fields() + ", but got "@ + name
}

/// The lengths of the seven field names, which tell them apart.
proof fn lemma_field_name_lengths()
    ensures
        "id"@.len() == 2,
        "parent_id"@.len() == 9,
        "repotags"@.len() == 8,
        "created"@.len() == 7,
        "size"@.len() == 4,
        "shared_size"@.len() == 11,
        "containers"@.len() == 10,
{
    reveal_strlit("id");
    reveal_strlit("parent_id");
    reveal_strlit("repotags");
    reveal_strlit("created");
    reveal_strlit("size");
    reveal_strlit("shared_size");
    reveal_strlit("containers");
}

/// Every view shows a field in the same way. The canonical view holds
/// under each name what the lookup of that name gives, and nothing under
/// any other name. The standard view holds the same for `id` and the
/// fields of the short view, and the short view for `repotags`, `created`
/// and `size`; neither holds anything else.
pub proof fn lemma_views_agree(image: ImageView, name: Seq<char>)
    ensures
        lookup(base_fields(image), name) == image_field(image, name),
        lookup(standard_fields(image), name) == (if name == "id"@ || in_short_view(name) {
            image_field(image, name)
        } else {
            None
        }),
        lookup(short_fields(image), name) == (if in_short_view(name) {
            image_field(image, name)
        } else {
            None
        }),
{
    lemma_field_name_lengths();
    reveal_with_fuel(last_index_of, 8);
    let base = base_fields(image);
    assert(base.drop_last().len() == 6);
    assert(base.drop_last().drop_last().len() == 5);
    assert(base.drop_last().drop_last().drop_last().len() == 4);
    assert(base.drop_last().drop_last().drop_last().drop_last().len() == 3);
    assert(base.drop_last().drop_last().drop_last().drop_last().drop_last().len() == 2);
    assert(base.drop_last().drop_last().drop_last().drop_last().drop_last().drop_last().len()
        == 1);
    let standard = standard_fields(image);
    assert(standard.drop_last().len() == 3);
    assert(standard.drop_last().drop_last().len() == 2);
    assert(standard.drop_last().drop_last().drop_last().len() == 1);
    let short = short_fields(image);
    assert(short.drop_last().len() == 2);
    assert(short.drop_last().drop_last().len() == 1);
}

impl ImageSummary {
    /// A copy of this summary.
    pub fn duplicate(&self) -> (copy: ImageSummary)
        ensures
            copy@ == self@,
    {
        ImageSummary {
            id: self.id.clone(),
            parent_id: self.parent_id.clone(),
            repo_tags: copy_texts(&self.repo_tags),
            created: self.created,
            size: self.size,
            shared_size: self.shared_size,
            containers: self.containers,
        }
    }
}

impl Image {
    /// An image is well formed where the calendar can represent its
    /// creation time.
    pub open spec fn well_formed(&self) -> bool {
        representable(self.created as int)
    }

    /// The entity for a summary of the daemon.
    pub fn new(image_summary: ImageSummary) -> (image: Image)
        ensures
            image@ == image_of(image_summary@),
            image.well_formed(),
    {
        Image {
            id: image_summary.id,
            parent_id: image_summary.parent_id,
            repo_tags: image_summary.repo_tags,
            created: normalize_timestamp(image_summary.created),
            size: image_summary.size,
            shared_size: image_summary.shared_size,
            containers: image_summary.containers,
        }
    }

    /// A copy of this image.
    pub fn duplicate(&self) -> (copy: Image)
        ensures
            copy@ == self@,
            copy.well_formed() == self.well_formed(),
    {
        Image {
            id: self.id.clone(),
            parent_id: self.parent_id.clone(),
            repo_tags: copy_texts(&self.repo_tags),
            created: self.created,
            size: self.size,
            shared_size: self.shared_size,
            containers: self.containers,
        }
    }

    /// The short view: `repotags`, `created`, `size`.
    pub fn short_version(&self, span: nu_protocol::Span) -> (view: nu_protocol::Record)
        ensures
            record_fields(view) == short_fields(self@),
    {
        let mut base = new_record();
        self.base_add_repo_tags(&mut base, span);
        self.base_add_created(&mut base, span);
        self.base_add_size(&mut base, span);
        proof {
            lemma_field_name_lengths();
            let all = short_fields(self@);
            let one = seq![all[0]];
            let two = one.push(all[1]);
            lemma_insert_fresh(Fields::empty(), all[0].0, all[0].1);
            assert(Fields::empty().push(all[0]) == one);
            lemma_insert_fresh(one, all[1].0, all[1].1);
            lemma_insert_fresh(two, all[2].0, all[2].1);
            assert(two.push(all[2]) == all);
        }
        base
    }

    /// The standard view: `id`, `repotags`, `created`, `size`.
    pub fn standard_version(&self, span: nu_protocol::Span) -> (view: nu_protocol::Record)
        ensures
            record_fields(view) == standard_fields(self@),
    {
        let mut base = new_record();
        self.base_add_id(&mut base, span);
        self.base_add_repo_tags(&mut base, span);
        self.base_add_created(&mut base, span);
        self.base_add_size(&mut base, span);
        proof {
            lemma_field_name_lengths();
            let all = standard_fields(self@);
            let one = seq![all[0]];
            let two = one.push(all[1]);
            let three = two.push(all[2]);
            lemma_insert_fresh(Fields::empty(), all[0].0, all[0].1);
            assert(Fields::empty().push(all[0]) == one);
            lemma_insert_fresh(one, all[1].0, all[1].1);
            lemma_insert_fresh(two, all[2].0, all[2].1);
            lemma_insert_fresh(three, all[3].0, all[3].1);
            assert(three.push(all[3]) == all);
        }
        base
    }

    /// The canonical view, with every field: `id`, `parent_id`, `repotags`,
    /// `created`, `size`, `shared_size`, `containers`.
    pub fn to_base_value(&self, span: nu_protocol::Span) -> (view: nu_protocol::Record)
        ensures
            record_fields(view) == base_fields(self@),
    {
        let mut base = new_record();
        self.base_add_id(&mut base, span);
        self.base_add_parent_id(&mut base, span);
        self.base_add_repo_tags(&mut base, span);
        self.base_add_created(&mut base, span);
        self.base_add_size(&mut base, span);
        self.base_add_shared_size(&mut base, span);
        self.base_add_containers(&mut base, span);
        proof {
            lemma_field_name_lengths();
            let all = base_fields(self@);
            let one = seq![all[0]];
            let two = one.push(all[1]);
            let three = two.push(all[2]);
            let four = three.push(all[3]);
            let five = four.push(all[4]);
            let six = five.push(all[5]);
            lemma_insert_fresh(Fields::empty(), all[0].0, all[0].1);
            assert(Fields::empty().push(all[0]) == one);
            lemma_insert_fresh(one, all[1].0, all[1].1);
            lemma_insert_fresh(two, all[2].0, all[2].1);
            lemma_insert_fresh(three, all[3].0, all[3].1);
            lemma_insert_fresh(four, all[4].0, all[4].1);
            lemma_insert_fresh(five, all[5].0, all[5].1);
            lemma_insert_fresh(six, all[6].0, all[6].1);
            assert(six.push(all[6]) == all);
        }
        base
    }

    /// Puts the short identifier into `base` as `id`.
    pub fn base_add_id(&self, base: &mut nu_protocol::Record, span: nu_protocol::Span)
        ensures
            record_fields(*final(base)) == inserted(
                record_fields(*old(base)),
                "id"@,
                FieldValueView::Text(short_id(self@.id)),
            ),
    {
        insert_field(base, "id", FieldValue::Text(shorten_id(self.id.as_str())), span);
    }

    /// Puts the parent's short identifier into `base` as `parent_id`.
    pub fn base_add_parent_id(&self, base: &mut nu_protocol::Record, span: nu_protocol::Span)
        ensures
            record_fields(*final(base)) == inserted(
                record_fields(*old(base)),
                "parent_id"@,
                FieldValueView::Text(short_id(self@.parent_id)),
            ),
    {
        insert_field(
            base,
            "parent_id",
            FieldValue::Text(shorten_id(self.parent_id.as_str())),
            span,
        );
    }

    /// Puts the `repository:tag` names into `base` as `repotags`.
    pub fn base_add_repo_tags(&self, base: &mut nu_protocol::Record, span: nu_protocol::Span)
        ensures
            record_fields(*final(base)) == inserted(
                record_fields(*old(base)),
                "repotags"@,
                FieldValueView::List(self@.repo_tags),
            ),
    {
        insert_field(base, "repotags", FieldValue::List(copy_texts(&self.repo_tags)), span);
    }

    /// Puts the creation time into `base` as `created`.
    pub fn base_add_created(&self, base: &mut nu_protocol::Record, span: nu_protocol::Span)
        ensures
            record_fields(*final(base)) == inserted(
                record_fields(*old(base)),
                "created"@,
                FieldValueView::Date(moment_of(self@.created)),
            ),
    {
        insert_field(base, "created", FieldValue::Date(normalize_timestamp(self.created)), span);
    }

    /// Puts the size into `base` as `size`.
    pub fn base_add_size(&self, base: &mut nu_protocol::Record, span: nu_protocol::Span)
        ensures
            record_fields(*final(base)) == inserted(
                record_fields(*old(base)),
                "size"@,
                FieldValueView::Filesize(self@.size),
            ),
    {
        insert_field(base, "size", FieldValue::Filesize(self.size), span);
    }

    /// Puts the shared size into `base` as `shared_size`.
    pub fn base_add_shared_size(&self, base: &mut nu_protocol::Record, span: nu_protocol::Span)
        ensures
            record_fields(*final(base)) == inserted(
                record_fields(*old(base)),
                "shared_size"@,
                FieldValueView::Filesize(self@.shared_size),
            ),
    {
        insert_field(base, "shared_size", FieldValue::Filesize(self.shared_size), span);
    }

    /// Puts the number of containers into `base` as `containers`.
    pub fn base_add_containers(&self, base: &mut nu_protocol::Record, span: nu_protocol::Span)
        ensures
            record_fields(*final(base)) == inserted(
                record_fields(*old(base)),
                "containers"@,
                FieldValueView::Int(self@.containers),
            ),
    {
        insert_field(base, "containers", FieldValue::Int(self.containers), span);
    }

    /// The names of an image's fields, as a failed lookup lists them.
    pub fn valid_fields() -> (names: String)
        ensures
            names@ == valid_fields(),
    {
        "one of {id, parent_id, repotags, created, size, shared_size, containers}".to_owned()
    }

    /// Looks a field up by name. The value is the one that the canonical
    /// view holds under that name; a name that is no field of an image is
    /// an `UnknownField` error that names it and lists the fields.
    pub fn follow_path_string(&self, column_name: String) -> (found: Result<
        FieldValue,
        CommandError,
    >)
        ensures
            match image_field(self@, column_name@) {
                Some(value) => found matches Ok(held) && held@ == value,
                None => found matches Err(e) && e@ == (CommandErrorView {
                    kind: ErrorKind::UnknownField,
                    message: unknown_field_message(column_name@),
                }),
            },
    {
        let name = column_name.as_str();
        if str_eq(name, "id") {
            Ok(FieldValue::Text(shorten_id(self.id.as_str())))
        } else if str_eq(name, "parent_id") {
            Ok(FieldValue::Text(shorten_id(self.parent_id.as_str())))
        } else if str_eq(name, "repotags") {
            Ok(FieldValue::List(copy_texts(&self.repo_tags)))
        } else if str_eq(name, "created") {
            Ok(FieldValue::Date(normalize_timestamp(self.created)))
        } else if str_eq(name, "size") {
            Ok(FieldValue::Filesize(self.size))
        } else if str_eq(name, "shared_size") {
            Ok(FieldValue::Filesize(self.shared_size))
        } else if str_eq(name, "containers") {
            Ok(FieldValue::Int(self.containers))
        } else {
            let mut message = join("Invalid value: expected ", Image::valid_fields().as_str());
            message.append(", but got ");
            message.append(name);
            Err(CommandError { kind: ErrorKind::UnknownField, message })
        }
    }
}

} // verus!
