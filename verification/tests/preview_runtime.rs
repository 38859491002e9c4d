use fsel::preview::output::CommandOutput;
use fsel::preview::runtime::{
    apply_command_result, apply_image_result, image_render_failed, primary_panel_size,
    request_for_panel, CommandStep, PreviewContent, PreviewState, RequestStep, ShownRow,
};

fn row(selected: usize, line_number: usize, text: &str) -> ShownRow {
    ShownRow {
        selected,
        line_number,
        original_line: text.to_string(),
    }
}

fn output(stdout: &[u8], stderr: &[u8], success: bool) -> CommandOutput {
    CommandOutput {
        stdout: stdout.to_vec(),
        stderr: stderr.to_vec(),
        status: "exit status: 3".to_string(),
        success,
        stdout_truncated: false,
        stderr_truncated: false,
    }
}

fn text_of(state: &PreviewState) -> Option<String> {
    match &state.content {
        PreviewContent::Text(t) => Some(t.clone()),
        _ => None,
    }
}

#[test]
fn pending_replacement_keeps_image_until_current_result_arrives() {
    let mut preview = PreviewState::new(Some("printf replacement".to_string()), true);
    preview.content = PreviewContent::Image("previous".to_string());
    let step = preview.request_if_changed(Some(&row(0, 1, "next")), "");
    let launch = match step {
        RequestStep::Launch(l) => l,
        _ => panic!("a command should start"),
    };
    assert!(matches!(&preview.content, PreviewContent::Image(key) if key == "previous"));
    assert_eq!(launch.command, "printf replacement");
    assert_eq!(launch.item, "next");
    assert_eq!(launch.input_ordinal, 0);
    let shown = apply_command_result(&mut preview, launch.generation, Ok(output(b"replacement", b"", true)));
    assert!(matches!(shown, CommandStep::Shown));
    assert_eq!(text_of(&preview).as_deref(), Some("replacement"));
    preview.clear_request();
    assert!(matches!(preview.content, PreviewContent::Empty));
}

#[test]
fn password_mode_does_not_export_the_query() {
    let mut preview = PreviewState::new(Some("echo {q}".to_string()), false);
    match preview.request_if_changed(Some(&row(2, 7, "item")), "secret") {
        RequestStep::Launch(l) => {
            assert_eq!(l.query, None);
            assert_eq!(l.input_ordinal, 6);
        }
        _ => panic!("a command should start"),
    }
    assert!(matches!(preview.content, PreviewContent::Loading));
    assert!(matches!(
        preview.request_if_changed(Some(&row(2, 7, "item")), "other"),
        RequestStep::Unchanged
    ));
    let mut open = PreviewState::new(Some("echo {q}".to_string()), true);
    match open.request_if_changed(Some(&row(0, 1, "item")), "shown") {
        RequestStep::Launch(l) => assert_eq!(l.query.as_deref(), Some("shown")),
        _ => panic!("a command should start"),
    }
    assert!(matches!(
        open.request_if_changed(Some(&row(0, 1, "item")), "changed"),
        RequestStep::Launch(_)
    ));
}

#[test]
fn stale_results_are_dropped() {
    let mut preview = PreviewState::new(Some("cat {}".to_string()), true);
    let first = match preview.request_if_changed(Some(&row(0, 1, "a")), "") {
        RequestStep::Launch(l) => l.generation,
        _ => panic!("a command should start"),
    };
    let second = match preview.request_if_changed(Some(&row(1, 2, "b")), "") {
        RequestStep::Launch(l) => l.generation,
        _ => panic!("a command should start"),
    };
    assert_ne!(first, second);
    assert!(matches!(
        apply_command_result(&mut preview, first, Ok(output(b"old", b"", true))),
        CommandStep::Ignored
    ));
    assert!(matches!(preview.content, PreviewContent::Loading));
    assert!(!apply_image_result(&mut preview, first, "k".to_string(), Ok(())));
    assert!(matches!(preview.content, PreviewContent::Loading));
}

#[test]
fn command_failures_images_and_errors() {
    let mut preview = PreviewState::new(Some("run {}".to_string()), true);
    let g = match preview.request_if_changed(Some(&row(0, 1, "x")), "") {
        RequestStep::Launch(l) => l.generation,
        _ => panic!("a command should start"),
    };
    apply_command_result(&mut preview, g, Ok(output(b"", b"  \n", false)));
    assert_eq!(text_of(&preview).as_deref(), Some("Preview command exited with exit status: 3"));
    apply_command_result(&mut preview, g, Ok(output(b"", b"boom\n", false)));
    assert_eq!(text_of(&preview).as_deref(), Some("boom"));
    apply_command_result(&mut preview, g, Err("spawn failed".to_string()));
    assert_eq!(text_of(&preview).as_deref(), Some("spawn failed"));
    let png = [0x89u8, 0x50, 0x4e, 0x47, 0x0d, 0x0a, 0x1a, 0x0a, 0, 0];
    match apply_command_result(&mut preview, g, Ok(output(&png, b"", true))) {
        CommandStep::Decode { generation, key, bytes } => {
            assert_eq!(generation, g);
            assert_eq!(key, format!("dmenu-preview-{g}"));
            assert_eq!(bytes, png.to_vec());
        }
        _ => panic!("image bytes should be decoded"),
    }
    assert!(apply_image_result(&mut preview, g, format!("dmenu-preview-{g}"), Ok(())));
    assert!(preview.text_lines().is_none());
    image_render_failed(&mut preview);
    assert_eq!(text_of(&preview).as_deref(), Some("Failed to render preview image"));
    assert!(!apply_image_result(&mut preview, g, "k".to_string(), Err("bad image".to_string())));
    assert_eq!(text_of(&preview).as_deref(), Some("bad image"));
}

#[test]
fn text_lines_follow_str_lines() {
    let mut preview = PreviewState::new(None, false);
    assert_eq!(preview.title(), " Content ");
    assert!(matches!(preview.request_if_changed(None, ""), RequestStep::Unchanged));
    assert_eq!(preview.text_lines(), Some(Vec::new()));
    preview.content = PreviewContent::Text("foo\nbar\n\r\nbaz\r".to_string());
    assert_eq!(
        preview.text_lines(),
        Some(vec!["foo".to_string(), "bar".to_string(), String::new(), "baz\r".to_string()])
    );
    preview.content = PreviewContent::Loading;
    assert_eq!(preview.text_lines(), Some(vec!["Loading preview…".to_string()]));
    let mut on = PreviewState::new(Some("x".to_string()), false);
    assert_eq!(on.title(), " Preview ");
    assert!(matches!(on.request_if_changed(None, ""), RequestStep::Cleared));
}

#[test]
fn hidden_or_empty_panels_clear_their_preview() {
    assert_eq!(primary_panel_size(Some(0), 30), 0);
    assert_eq!(primary_panel_size(None, 30), 30);

    let mut preview = PreviewState::new(Some("printf x".to_string()), true);
    preview.content = PreviewContent::Text("old".to_string());
    let step = request_for_panel(&mut preview, 0, false, Some(&row(0, 1, "a")), "q");
    assert!(matches!(step, RequestStep::Cleared));
    assert!(matches!(preview.content, PreviewContent::Empty));

    let step = request_for_panel(&mut preview, 30, true, Some(&row(0, 1, "a")), "");
    assert!(matches!(step, RequestStep::Cleared));

    let step = request_for_panel(&mut preview, 30, true, Some(&row(0, 1, "a")), "q");
    assert!(matches!(step, RequestStep::Launch(l) if l.item == "a"));
}
