use ndocker::image::{Image, ImageSummary};
use ndocker::record::{copy_texts, FieldValue};
use nu_protocol::{Record, Span, Value};

fn image() -> Image {
    Image::new(ImageSummary {
        id: "sha256:8daff99931164b6aab2e5b4a4e3c0ab2f1e4a1d3".to_string(),
        parent_id: String::new(),
        repo_tags: vec!["rust:1.84.0".to_string()],
        created: 1_736_380_800,
        size: 7,
        shared_size: -1,
        containers: -1,
    })
}

fn columns(record: &Record) -> Vec<String> {
    record.columns().cloned().collect()
}

#[test]
fn a_field_is_appended_to_an_empty_record() {
    let mut record = Record::new();
    image().base_add_size(&mut record, Span::test_data());
    assert_eq!(record.len(), 1);
    assert_eq!(columns(&record), vec!["size"]);
    assert_eq!(record.get("size"), Some(&Value::test_filesize(7)));
}

#[test]
fn fields_are_appended_in_the_order_of_insertion() {
    let mut record = Record::new();
    image().base_add_size(&mut record, Span::test_data());
    image().base_add_id(&mut record, Span::test_data());
    image().base_add_containers(&mut record, Span::test_data());
    assert_eq!(columns(&record), vec!["size", "id", "containers"]);
    assert_eq!(record.get("id"), Some(&Value::test_string("8daff9993116")));
    assert_eq!(record.get("containers"), Some(&Value::test_int(-1)));
    assert_eq!(record.get("Containers"), None);
}

#[test]
fn an_insertion_replaces_the_value_of_the_last_field_of_the_name() {
    let mut record = Record::new();
    record.push("id", Value::test_string("first"));
    record.push("note", Value::test_bool(true));
    record.push("id", Value::test_string("second"));
    record.push("tail", Value::test_nothing());
    image().base_add_id(&mut record, Span::test_data());
    assert_eq!(columns(&record), vec!["id", "note", "id", "tail"]);
    let values: Vec<Value> = record.values().cloned().collect();
    assert_eq!(
        values,
        vec![
            Value::test_string("first"),
            Value::test_bool(true),
            Value::test_string("8daff9993116"),
            Value::test_nothing(),
        ]
    );
}

#[test]
fn an_insertion_may_change_the_kind_of_a_value() {
    let mut record = Record::new();
    record.push("repotags", Value::test_int(3));
    image().base_add_repo_tags(&mut record, Span::test_data());
    assert_eq!(record.len(), 1);
    assert_eq!(
        record.get("repotags"),
        Some(&Value::test_list(vec![Value::test_string("rust:1.84.0")]))
    );
}

#[test]
fn a_value_is_made_at_the_given_span() {
    let span = Span::new(3, 9);
    let mut record = Record::new();
    image().base_add_id(&mut record, span);
    image().base_add_repo_tags(&mut record, span);
    assert_eq!(record.get("id").unwrap().span(), span);
    let tags = record.get("repotags").unwrap();
    assert_eq!(tags.span(), span);
    assert_eq!(tags.as_list().unwrap()[0].span(), span);
}

#[test]
fn copies_are_equal() {
    let items = vec!["rust:1.84.0".to_string(), "rust:latest".to_string()];
    assert_eq!(copy_texts(&items), items);
    assert_eq!(copy_texts(&Vec::new()), Vec::<String>::new());
    for value in [
        FieldValue::Text("abc".to_string()),
        FieldValue::List(items.clone()),
        FieldValue::Date(-5),
        FieldValue::Filesize(1 << 40),
        FieldValue::Int(-1),
    ] {
        assert_eq!(value.duplicate(), value);
    }
}
