use ndocker::cli::{CommandSignature, Flag, Positional, Shape};
use ndocker::history::ImageHistoryCommand;
use ndocker::image::{Image, ImageSummary};
use ndocker::images::ImagesCommand;
use ndocker::import::ImageImportCommand;
use ndocker::inspect::ImageInspectCommand;
use nu_protocol::{Record, Span, Value};

fn flag_names(surface: &CommandSignature) -> Vec<(&'static str, Option<char>, Option<Shape>)> {
    surface.flags.iter().map(|flag| (flag.long, flag.short, flag.argument)).collect()
}

fn positional_names(surface: &CommandSignature) -> Vec<(&'static str, bool)> {
    surface.positionals.iter().map(|p| (p.name, p.required)).collect()
}

#[test]
fn the_surface_of_images() {
    let surface = ImagesCommand.signature();
    assert_eq!(surface.name, "ndocker images");
    assert_eq!(surface.name, ImagesCommand.name());
    assert_eq!(surface.input_output_types, vec![(Shape::Nothing, Shape::Table)]);
    assert_eq!(
        flag_names(&surface),
        vec![("all", Some('a'), None), ("short", Some('s'), None)]
    );
    assert!(surface.positionals.is_empty());
    assert_eq!(
        surface.flags[0],
        Flag {
            long: "all",
            short: Some('a'),
            argument: None,
            description: "Show all the information of the image.",
        }
    );
}

#[test]
fn the_surface_of_image_history() {
    let surface = ImageHistoryCommand.signature();
    assert_eq!(surface.name, "ndocker image history");
    assert_eq!(surface.input_output_types, vec![(Shape::Nothing, Shape::Table)]);
    assert_eq!(flag_names(&surface), vec![("wide", Some('w'), None)]);
    assert_eq!(
        surface.positionals,
        vec![Positional {
            name: "IMAGE",
            shape: Shape::Text,
            required: true,
            description: "The ID or name of the image to show history for.",
        }]
    );
}

#[test]
fn the_surface_of_image_inspect() {
    let surface = ImageInspectCommand.signature();
    assert_eq!(surface.name, "ndocker image inspect");
    assert_eq!(
        surface.input_output_types,
        vec![(Shape::Nothing, Shape::Structured), (Shape::Nothing, Shape::Text)]
    );
    assert_eq!(flag_names(&surface), vec![("string", Some('s'), None)]);
    assert_eq!(positional_names(&surface), vec![("IMAGE", true)]);
}

#[test]
fn the_surface_of_image_import() {
    let surface = ImageImportCommand.signature();
    assert_eq!(surface.name, "ndocker image import");
    assert_eq!(
        surface.input_output_types,
        vec![(Shape::Nothing, Shape::Image), (Shape::Binary, Shape::Image)]
    );
    assert_eq!(
        flag_names(&surface),
        vec![
            ("interactive", Some('I'), None),
            ("change", Some('c'), Some(Shape::TextList)),
            ("message", Some('m'), Some(Shape::Text)),
            ("platform", None, Some(Shape::Text)),
        ]
    );
    assert_eq!(
        positional_names(&surface),
        vec![("file|URL|-", true), ("REPOSITORY[:TAG]", false)]
    );
}

fn columns(record: &Record) -> Vec<String> {
    record.columns().cloned().collect()
}

fn row(fields: Vec<(&str, Value)>) -> Record {
    let mut record = Record::new();
    for (name, value) in fields {
        record.push(name, value);
    }
    record
}

#[test]
fn the_examples_of_images() {
    let examples = ImagesCommand.examples(Span::test_data());
    let lines: Vec<&str> = examples.iter().map(|e| e.example).collect();
    assert_eq!(
        lines,
        vec![
            "ndocker images",
            "ndocker images -s",
            "ndocker images -a",
            "ndocker images | select id repotags size",
            "ndocker images -s | sort-by size",
        ]
    );
    assert_eq!(examples[0].description, "List all Docker images");
    assert_eq!(
        examples[0].result,
        Some(vec![row(vec![
            ("id", Value::test_string("8daff9993116")),
            ("repotags", Value::test_list(vec![Value::test_string("rust:1.84.0")])),
            ("created", Value::test_string("6 months ago")),
            ("size", Value::test_string("1.4 GB")),
        ])])
    );
    assert_eq!(
        examples[1].result,
        Some(vec![row(vec![
            ("repotags", Value::test_list(vec![Value::test_string("rust:1.84.0")])),
            ("created", Value::test_string("6 months ago")),
            ("size", Value::test_string("1.4 GB")),
        ])])
    );
    assert!(examples[3].result.is_none());
    assert!(examples[4].result.is_none());
}

#[test]
fn the_examples_have_the_columns_of_the_views() {
    let image = Image::new(ImageSummary {
        id: "sha256:8daff9993116".to_string(),
        parent_id: String::new(),
        repo_tags: vec!["rust:1.84.0".to_string()],
        created: 0,
        size: 0,
        shared_size: -1,
        containers: -1,
    });
    let span = Span::test_data();
    let examples = ImagesCommand.examples(span);
    let shown = |index: usize| columns(&examples[index].result.as_ref().unwrap()[0]);
    assert_eq!(shown(0), columns(&image.standard_version(span)));
    assert_eq!(shown(1), columns(&image.short_version(span)));
    assert_eq!(shown(2), columns(&image.to_base_value(span)));
    let full = &examples[2].result.as_ref().unwrap()[0];
    assert_eq!(full.get("parent_id"), Some(&Value::test_string("")));
    assert_eq!(full.get("containers"), Some(&Value::test_string("-1")));
    assert_eq!(full.get("shared_size"), Some(&Value::test_string("-1 B")));
}
