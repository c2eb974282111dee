use ndocker::error::ErrorKind;
use ndocker::image::{Image, ImageSummary};
use ndocker::import::{
    ImageImportCommand, ImportOptions, ImportSession, Payload, TransferRequest,
};
use ndocker::progress::{ProgressEvent, RenderMode};
use nu_protocol::{Span, Value};
use ndocker::source::{resolve_source, ImportSource};

fn event(status: Option<&str>, progress: Option<&str>) -> ProgressEvent {
    ProgressEvent {
        status: status.map(|s| s.to_string()),
        progress: progress.map(|s| s.to_string()),
        error: None,
    }
}

fn failure(cause: &str) -> ProgressEvent {
    ProgressEvent { status: None, progress: None, error: Some(cause.to_string()) }
}

fn summary(id: &str, tag: &str) -> ImageSummary {
    ImageSummary {
        id: id.to_string(),
        parent_id: String::new(),
        repo_tags: vec![tag.to_string()],
        created: 1_700_000_000,
        size: 4_261_550,
        shared_size: -1,
        containers: 0,
    }
}

const BUSYBOX: &str = "sha256:abc123def4567890abc123def4567890abc123def4567890abc123def4567890";

#[test]
fn sources_choose_the_rendering() {
    assert_eq!(ImportSource::File("a.tar".to_string()).render_mode(), RenderMode::Append);
    assert_eq!(ImportSource::Stdin.render_mode(), RenderMode::Append);
    assert_eq!(ImportSource::Url("http://x".to_string()).render_mode(), RenderMode::Redraw);
}

#[test]
fn a_file_is_streamed_under_the_source_dash() {
    let source = ImportSource::File("busybox.tar".to_string());
    let plan = ImageImportCommand.plan_transfer(&source, ImportOptions::new(), false).unwrap();
    assert_eq!(
        plan,
        TransferRequest {
            from_src: "-".to_string(),
            payload: Payload::Stream("busybox.tar".to_string()),
            options: ImportOptions::new(),
        }
    );
}

#[test]
fn binary_stdin_is_buffered_under_the_source_dash() {
    let plan =
        ImageImportCommand.plan_transfer(&ImportSource::Stdin, ImportOptions::new(), true).unwrap();
    assert_eq!(plan.from_src, "-");
    assert_eq!(plan.payload, Payload::Buffered);
}

#[test]
fn stdin_that_is_not_binary_is_refused_before_any_request() {
    let source = resolve_source("-", false).unwrap();
    let e = ImageImportCommand.plan_transfer(&source, ImportOptions::new(), false).unwrap_err();
    assert_eq!(e.kind, ErrorKind::StdinReadError);
    assert_eq!(e.message, "Expected binary input from stdin");
}

#[test]
fn a_url_is_fetched_by_the_daemon() {
    let source = ImportSource::Url("https://example.com/rootfs.tar.gz".to_string());
    for binary in [false, true] {
        let plan =
            ImageImportCommand.plan_transfer(&source, ImportOptions::new(), binary).unwrap();
        assert_eq!(plan.from_src, "https://example.com/rootfs.tar.gz");
        assert_eq!(plan.payload, Payload::Absent);
    }
}

#[test]
fn the_options_travel_with_the_request() {
    let options = ImportOptions {
        message: Some("imported".to_string()),
        platform: Some("linux/amd64".to_string()),
        repository: Some("busybox:latest".to_string()),
        changes: Some(vec!["CMD [\"sh\"]".to_string()]),
        interactive: Some(false),
    };
    let source = ImportSource::Url("https://example.com/rootfs.tar.gz".to_string());
    let plan = ImageImportCommand.plan_transfer(&source, options.clone(), false).unwrap();
    assert_eq!(plan.options, options);
    assert_eq!(ImportOptions::new().platform, None);
}

#[test]
fn a_session_starts_without_identifier() {
    let session = ImportSession::new(ImportSource::Stdin);
    assert_eq!(session.tentative_id(), "");
    let (closing, id) = session.finish();
    assert_eq!(closing, "");
    assert_eq!(id, "");
}

#[test]
fn a_file_transfer_appends_each_status() {
    let mut session = ImportSession::new(ImportSource::File("busybox.tar".to_string()));
    assert_eq!(session.on_event(&event(Some("Loading layer"), Some("1MB"))).unwrap(), "Loading layer\n");
    assert_eq!(session.tentative_id(), "Loading layer");
    assert_eq!(session.on_event(&event(None, Some("2MB"))).unwrap(), "");
    assert_eq!(session.tentative_id(), "Loading layer");
    assert_eq!(session.on_event(&event(Some(BUSYBOX), None)).unwrap(), format!("{}\n", BUSYBOX));
    assert_eq!(session.on_event(&event(Some(""), None)).unwrap(), "");
    let (closing, id) = session.finish();
    assert_eq!(closing, "");
    assert_eq!(id, BUSYBOX);
}

#[test]
fn the_last_status_that_is_not_empty_is_the_identifier() {
    let mut session = ImportSession::new(ImportSource::Url("http://x".to_string()));
    session.on_event(&event(Some("first"), None)).unwrap();
    session.on_event(&event(Some("second"), Some("1%"))).unwrap();
    session.on_event(&event(None, Some("2%"))).unwrap();
    session.on_event(&event(None, None)).unwrap();
    assert_eq!(session.tentative_id(), "second");
}

#[test]
fn a_failure_ends_the_transfer_and_keeps_the_session() {
    let cases = [
        (ImportSource::File("a.tar".to_string()), "Failed to import image from file: no space left"),
        (ImportSource::Stdin, "Failed to import image from stdin: no space left"),
        (ImportSource::Url("http://x".to_string()), "Failed to import image from URL: no space left"),
    ];
    for (source, message) in cases {
        let mut session = ImportSession::new(source);
        session.on_event(&event(Some("layer"), Some("1%"))).unwrap();
        let e = session.on_event(&failure("no space left")).unwrap_err();
        assert_eq!(e.kind, ErrorKind::TransferError);
        assert_eq!(e.message, message);
        assert_eq!(session.tentative_id(), "layer");
    }
}

#[test]
fn a_failure_wins_over_the_other_fields() {
    let mut session = ImportSession::new(ImportSource::Stdin);
    let mut e = event(Some("status"), Some("1%"));
    e.error = Some("boom".to_string());
    assert_eq!(session.on_event(&e).unwrap_err().message, "Failed to import image from stdin: boom");
    assert_eq!(session.tentative_id(), "");
}

#[test]
fn importing_from_a_url_redraws_and_ends_with_one_newline() {
    let source = resolve_source("https://example.com/rootfs.tar.gz", false).unwrap();
    let options = ImportOptions { platform: Some("linux/amd64".to_string()), ..ImportOptions::new() };
    let plan = ImageImportCommand.plan_transfer(&source, options, false).unwrap();
    assert_eq!(plan.from_src, "https://example.com/rootfs.tar.gz");
    assert_eq!(plan.options.platform.as_deref(), Some("linux/amd64"));
    let mut session = ImportSession::new(source);
    let events = [
        event(Some("Downloading from https://example.com/rootfs.tar.gz"), None),
        event(None, Some("[=>      ]  1.2MB/30MB")),
        event(None, Some("[====>   ] 15.0MB/30MB")),
        event(Some("Importing"), Some("[=>      ] 512kB/30MB")),
        event(None, Some("done")),
    ];
    let mut transcript = String::new();
    let mut shown = 0usize;
    for e in &events {
        let text = session.on_event(e).unwrap();
        if let Some(rest) = text.strip_prefix('\r') {
            if shown > 0 {
                let erased = format!("{}\r", " ".repeat(shown));
                assert!(rest.starts_with(&erased));
                shown = rest[erased.len()..].chars().count();
            } else {
                shown = rest.chars().count();
            }
        }
        transcript.push_str(&text);
    }
    let (closing, id) = session.finish();
    transcript.push_str(&closing);
    assert_eq!(
        transcript,
        format!(
            "Downloading from https://example.com/rootfs.tar.gz\n\
             \rImporting image: [=>      ]  1.2MB/30MB\
             \r{}\rImporting image: [====>   ] 15.0MB/30MB\
             \r{}\rImporting: [=>      ] 512kB/30MB\
             \r{}\rImporting image: done\n",
            " ".repeat(39),
            " ".repeat(39),
            " ".repeat(32)
        )
    );
    assert!(transcript.ends_with("done\n"));
    assert_eq!(transcript.matches('\n').count(), 2);
    assert_eq!(id, "Importing");
}

#[test]
fn only_images_of_the_tentative_identifier_are_imported() {
    let listed = vec![
        summary("sha256:aaa", "a:1"),
        summary(BUSYBOX, "busybox:latest"),
        summary("sha256:bbb", "b:1"),
        summary(BUSYBOX, "busybox:again"),
    ];
    let imported = ImageImportCommand.resolve_imported(&listed, BUSYBOX);
    assert_eq!(
        imported,
        vec![
            Image::new(summary(BUSYBOX, "busybox:latest")),
            Image::new(summary(BUSYBOX, "busybox:again")),
        ]
    );
}

#[test]
fn the_identifier_is_matched_exactly() {
    let listed = vec![summary(BUSYBOX, "busybox:latest")];
    assert!(ImageImportCommand.resolve_imported(&listed, "abc123def456").is_empty());
    assert!(ImageImportCommand.resolve_imported(&listed, &BUSYBOX.to_uppercase()).is_empty());
    assert!(ImageImportCommand.resolve_imported(&listed, &format!("{} ", BUSYBOX)).is_empty());
    assert!(ImageImportCommand.resolve_imported(&listed, "sha256:other").is_empty());
    assert!(ImageImportCommand.resolve_imported(&Vec::new(), BUSYBOX).is_empty());
}

#[test]
fn an_empty_identifier_matches_nothing() {
    let listed = vec![summary("", "none:none"), summary(BUSYBOX, "busybox:latest")];
    assert!(ImageImportCommand.resolve_imported(&listed, "").is_empty());
}

#[test]
fn importing_a_local_tarball_yields_the_image_of_the_last_status() {
    let source = resolve_source("busybox.tar", true).unwrap();
    assert!(matches!(&source, ImportSource::File(path) if path == "busybox.tar"));
    let plan = ImageImportCommand.plan_transfer(&source, ImportOptions::new(), false).unwrap();
    assert_eq!(plan.from_src, "-");
    assert_eq!(plan.payload, Payload::Stream("busybox.tar".to_string()));
    assert_eq!(plan.options.repository, None);
    let mut session = ImportSession::new(source);
    let mut shown = String::new();
    shown.push_str(&session.on_event(&event(Some(BUSYBOX), None)).unwrap());
    let (closing, id) = session.finish();
    shown.push_str(&closing);
    assert_eq!(shown, format!("{}\n", BUSYBOX));
    let listed = vec![summary("sha256:fff", "other:1"), summary(BUSYBOX, "<none>:<none>")];
    let imported = ImageImportCommand.resolve_imported(&listed, &id);
    assert_eq!(imported.len(), 1);
    assert_eq!(
        imported[0].to_base_value(Span::test_data()).get("id"),
        Some(&Value::test_string("abc123def456"))
    );
    assert_eq!(
        imported[0].standard_version(Span::test_data()).get("id"),
        Some(&Value::test_string("abc123def456"))
    );
}

#[test]
fn a_transfer_without_status_imports_nothing() {
    let mut session = ImportSession::new(ImportSource::File("a.tar".to_string()));
    session.on_event(&event(None, Some("1%"))).unwrap();
    let (_, id) = session.finish();
    assert_eq!(id, "");
    assert!(ImageImportCommand
        .resolve_imported(&vec![summary(BUSYBOX, "busybox:latest")], &id)
        .is_empty());
}

#[test]
fn the_import_command_is_named() {
    assert_eq!(ImageImportCommand.name(), "ndocker image import");
    assert_eq!(
        ImageImportCommand.description(),
        "Import the contents from a tarball to create a filesystem image."
    );
}
