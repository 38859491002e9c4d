use fsel::cclip::input::{filter_line, input_lines, prompt_line, InputSettings, SpanRole, StyledSpan};
use fsel::cclip::tags::TagMode;

fn texts(spans: &[StyledSpan]) -> Vec<(String, SpanRole)> {
    spans.iter().map(|s| (s.text.clone(), s.role)).collect()
}

fn settings(count: bool, prompt: bool) -> InputSettings {
    InputSettings {
        show_input_count: count,
        show_input_prompt: prompt,
        cursor: "█".to_string(),
    }
}

#[test]
fn filter_line_counts_from_one_and_shows_the_prompt() {
    let line = filter_line(Some(1), 7, "abc", &settings(true, true), true);
    let joined: String = line.iter().map(|s| s.text.as_str()).collect();
    assert_eq!(joined, "(2/7) >> abc█");
    assert_eq!(line[1].role, SpanRole::Highlight);
    let plain = filter_line(None, 0, "", &settings(true, false), false);
    assert_eq!(
        texts(&plain),
        vec![
            (String::new(), SpanRole::Text),
            ("█".to_string(), SpanRole::Highlight)
        ]
    );
    let none = filter_line(None, 3, "q", &settings(true, false), true);
    let joined: String = none.iter().map(|s| s.text.as_str()).collect();
    assert_eq!(joined, "(0/3) q█");
}

#[test]
fn prompt_lines_end_with_the_dimmed_hint() {
    let line = prompt_line("Color: ", "red", "_", Some(" (hex/name or blank)"));
    assert_eq!(
        texts(&line),
        vec![
            ("Color: ".to_string(), SpanRole::Highlight),
            ("red".to_string(), SpanRole::Text),
            ("_".to_string(), SpanRole::Highlight),
            (" (hex/name or blank)".to_string(), SpanRole::Hint),
        ]
    );
}

#[test]
fn input_panel_follows_the_tag_step() {
    let s = settings(true, true);
    let normal = input_lines(&TagMode::Normal, "x", Some(0), 2, &s);
    assert_eq!(normal.title, " Filter ");
    assert_eq!((normal.primary_action, normal.exit_action), ("copy", "close"));
    assert_eq!(normal.classic.len(), 9);
    assert_eq!(normal.command.len(), 4);

    let removing = TagMode::RemovingTag {
        input: "wo".to_string(),
        tags: vec!["work".to_string()],
        selected: None,
        selected_item: None,
    };
    let lines = input_lines(&removing, "ignored", None, 0, &s);
    assert_eq!(lines.title, " Remove Tag ");
    assert_eq!((lines.primary_action, lines.exit_action), ("remove", "cancel"));
    let joined: String = lines.classic.iter().map(|s| s.text.as_str()).collect();
    assert_eq!(joined, "Remove: wo█ (blank = all)");

    let naming = TagMode::PromptingTagName {
        input: "t".to_string(),
        selected_item: None,
        available_tags: Vec::new(),
        selected_tag: None,
    };
    let lines = input_lines(&naming, "", None, 0, &s);
    assert_eq!(lines.title, " Tag Name ");
    assert_eq!(lines.command.len(), 3);
}
