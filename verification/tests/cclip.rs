use fsel::cclip::content::{
    noninteractive_preview, rendered_clipboard_content, require_original_copy_data,
    rowid_from_item_line,
};
use fsel::cclip::html::{decode_text_bytes, is_html_mime, text_for_display};
use fsel::cclip::model::{distinct_tags, entries_with_tag, CclipItem};
use fsel::cclip::tags::{
    begin_tag_removal, command_actions, pop_char, push_char, removal_message, submit_tag_color,
    submit_tag_emoji, submit_tag_name, submit_tag_removal, ColorSubmit, RemovalSubmit, TagMode,
};

#[test]
fn html_items_render_text_but_preserve_original_clipboard_record() {
    let original = format!(
        "{}{}{}",
        "42\ttext/html\t",
        r#"<meta content="text/html"><p>Hello &amp; goodbye</p>"#,
        "\ttag"
    );

    let item = CclipItem::from_line(original.clone()).expect("valid cclip item");

    assert_eq!(item.preview, "Hello & goodbye");
    assert_eq!(item.get_display_name(), "[tag] Hello & goodbye");
    assert_eq!(item.original_line, original);
}

#[test]
fn truncated_html_markup_uses_the_lazy_content_placeholder() {
    let item = CclipItem::from_line("42\ttext/html\t<meta charset=\"utf-8".to_string())
        .expect("truncated cclip preview should parse");

    assert!(item.preview.is_empty());
    assert_eq!(item.get_display_name(), "[HTML content]");
}

#[test]
fn from_line_needs_three_fields() {
    let error = CclipItem::from_line("42\ttext/plain".to_string()).err();
    assert_eq!(
        error.as_deref(),
        Some("Invalid cclip list format: expected at least 3 tab-separated fields")
    );
}

#[test]
fn from_line_splits_tags_and_keeps_tabs_in_the_last_field() {
    let item = CclipItem::from_line("7\timage/png\tphoto\t work, ,fun\textra".to_string())
        .expect("valid line");
    assert_eq!(item.rowid, "7");
    assert_eq!(item.mime_type, "image/png");
    assert_eq!(item.tags, vec!["work", "fun\textra"]);
    assert_eq!(item.get_display_name(), "[work, fun\textra] photo (image/png)");
    let labels = vec!["W".to_string(), "F".to_string()];
    assert_eq!(
        item.get_display_name_with_formatter(Some(&labels)),
        "[W, F] photo (image/png)"
    );
    assert_eq!(item.get_display_name_with_number(), "7   [work, fun\textra] photo (image/png)");
}

#[test]
fn display_names_cut_long_previews() {
    let text = "x".repeat(100);
    let item = CclipItem::from_line(format!("1234\ttext/plain\t{text}")).expect("valid line");
    assert_eq!(item.get_display_name(), "x".repeat(80));
    let other = CclipItem::from_line(format!("5\tapplication/json\t{text}")).expect("valid line");
    assert_eq!(other.get_display_name(), format!("{} (application/json)", "x".repeat(50)));
    assert_eq!(
        item.get_display_name_with_number_formatter(None),
        format!("1234 {}", "x".repeat(80))
    );
}

#[test]
fn noninteractive_html_output_uses_fetched_visible_text() {
    assert_eq!(
        noninteractive_preview("text/html", "", Some(b"<p>full &amp; readable</p>")),
        "full & readable"
    );
}

#[test]
fn noninteractive_html_output_keeps_preview_when_fetch_fails() {
    assert_eq!(
        noninteractive_preview("text/html", "summary", None),
        "summary"
    );
    assert_eq!(
        noninteractive_preview("text/html", "", None),
        "[HTML content]"
    );
}

#[test]
fn rendered_copy_converts_html_to_plain_text() {
    let rendered =
        rendered_clipboard_content("text/html", b"<p>Hello &amp; goodbye</p>".to_vec())
            .expect("valid HTML should render");

    assert_eq!(rendered.as_deref(), Some(b"Hello & goodbye".as_slice()));
}

#[test]
fn rendered_copy_accepts_empty_visible_html() {
    let rendered = rendered_clipboard_content("text/html", b"<style>x {}</style>".to_vec())
        .expect("valid empty HTML should render");

    assert_eq!(rendered, Some(Vec::new()));
}

#[test]
fn original_copy_still_rejects_empty_content() {
    assert!(require_original_copy_data(0).is_err());
    assert!(require_original_copy_data(1).is_ok());
}

#[test]
fn rendered_copy_honors_the_declared_charset() {
    let rendered =
        rendered_clipboard_content("text/html;charset=iso-8859-1", b"<p>caf\xe9</p>".to_vec())
            .expect("declared HTML charset should render");

    assert_eq!(rendered.as_deref(), Some("café".as_bytes()));
}

#[test]
fn rendered_copy_leaves_non_html_on_the_original_copy_path() {
    let rendered = rendered_clipboard_content("text/plain", b"plain".to_vec())
        .expect("plain text should be accepted");

    assert_eq!(rendered, None);
}

#[test]
fn html_mime_detection_ignores_case_and_parameters() {
    assert!(is_html_mime("Text/HTML; charset=utf-8"));
    assert!(!is_html_mime("text/plain"));
    assert!(!is_html_mime("text/htmlx"));
}

#[test]
fn decoding_reports_bad_bytes_and_unknown_charsets() {
    assert!(decode_text_bytes("text/html", b"\xff").is_err());
    assert_eq!(
        decode_text_bytes("text/html; charset=\"koi8-r\"", b"x").err().as_deref(),
        Some("unsupported text charset: koi8-r")
    );
    assert_eq!(decode_text_bytes("text/html;charset=UTF-8", "é".as_bytes()).unwrap(), "é");
}

#[test]
fn html_text_decodes_entities_and_drops_scripts() {
    assert_eq!(
        text_for_display(
            "text/html",
            "<script>var a = '<p>';</SCRIPT><b>A&lt;B</b>&#65;&#x42; &unknown; &"
        ),
        "A<B AB &unknown; &"
    );
    assert_eq!(text_for_display("text/plain", "  <b>kept</b>  "), "  <b>kept</b>  ");
}

#[test]
fn command_actions_follow_the_active_tag_step() {
    let name = TagMode::PromptingTagName {
        input: String::new(),
        selected_item: None,
        available_tags: Vec::new(),
        selected_tag: None,
    };
    let color = TagMode::PromptingTagColor {
        tag_name: "work".to_string(),
        emoji: None,
        input: String::new(),
        selected_item: None,
    };
    let removal = TagMode::RemovingTag {
        input: String::new(),
        tags: Vec::new(),
        selected: None,
        selected_item: None,
    };

    assert_eq!(command_actions(&TagMode::Normal), ("copy", "close"));
    assert_eq!(command_actions(&name), ("continue", "cancel"));
    assert_eq!(command_actions(&color), ("apply", "cancel"));
    assert_eq!(command_actions(&removal), ("remove", "cancel"));
}

#[test]
fn typing_goes_to_the_prompt_or_the_query() {
    let mut query = String::from("ab");
    let mut mode = TagMode::Normal;
    assert!(push_char(&mut mode, &mut query, 'c'));
    assert_eq!(query, "abc");
    assert!(pop_char(&mut mode, &mut query));
    assert!(pop_char(&mut mode, &mut query));
    assert_eq!(query, "a");

    let mut prompt = TagMode::PromptingTagEmoji {
        tag_name: "x".to_string(),
        input: String::new(),
        selected_item: None,
    };
    assert!(!push_char(&mut prompt, &mut query, 'é'));
    assert!(!pop_char(&mut prompt, &mut query));
    assert!(!pop_char(&mut prompt, &mut query));
    assert_eq!(query, "a");
    assert!(matches!(prompt, TagMode::PromptingTagEmoji { ref input, .. } if input.is_empty()));
}

#[test]
fn tag_prompts_advance_through_name_emoji_and_color() {
    let line = "9\ttext/plain\thello\twork".to_string();
    let (mode, note) = submit_tag_name("  work ", Some(line.clone()));
    assert_eq!(note.as_deref(), Some("Tag 'work' already applied (editing)"));
    let TagMode::PromptingTagEmoji { tag_name, .. } = mode else {
        panic!("expected the emoji prompt");
    };
    assert_eq!(tag_name, "work");

    let (mode, note) = submit_tag_emoji(String::new(), "  ", Some(line.clone()));
    assert!(matches!(mode, TagMode::Normal));
    assert_eq!(note.as_deref(), Some("Tag requires either a name or an emoji"));

    let (mode, _) = submit_tag_emoji(String::new(), " ⭐ ", Some(line.clone()));
    let TagMode::PromptingTagColor { tag_name, emoji, .. } = mode else {
        panic!("expected the color prompt");
    };
    assert_eq!(tag_name, "⭐");
    assert_eq!(emoji.as_deref(), Some("⭐"));

    match submit_tag_color("work".to_string(), None, " red ", Some(line.clone())) {
        ColorSubmit::Apply { rowid, add_tag, color, .. } => {
            assert_eq!(rowid, "9");
            assert!(!add_tag);
            assert_eq!(color.as_deref(), Some("red"));
        }
        ColorSubmit::Abort(message) => panic!("unexpected abort: {message}"),
    }
    assert!(matches!(
        submit_tag_color("new".to_string(), None, "", None),
        ColorSubmit::Abort(ref m) if m == "No item selected"
    ));
}

#[test]
fn tag_removal_starts_with_the_first_tag() {
    let mode = begin_tag_removal(Some("3\ttext/plain\thi\ta,b")).expect("valid line");
    let TagMode::RemovingTag { input, tags, selected, .. } = mode else {
        panic!("expected the removal prompt");
    };
    assert_eq!(input, "a");
    assert_eq!(tags, vec!["a", "b"]);
    assert_eq!(selected, Some(0));
    assert!(begin_tag_removal(None).is_err());

    match submit_tag_removal("  ", Some("3\ttext/plain\thi".to_string())) {
        RemovalSubmit::Untag { rowid, tag } => {
            assert_eq!(rowid, "3");
            assert_eq!(tag, None);
        }
        RemovalSubmit::Abort(message) => panic!("unexpected abort: {message}"),
    }
    assert!(matches!(
        submit_tag_removal("a", Some("\tx\ty".to_string())),
        RemovalSubmit::Abort(ref m) if m == "Unable to determine item id"
    ));
    assert_eq!(removal_message(Some("a")), "Removed tag 'a'");
    assert_eq!(removal_message(None), "Removed all tags");
    assert_eq!(rowid_from_item_line("12\tx").as_deref(), Some("12"));
}

#[test]
fn tag_creation_needs_a_selected_item() {
    use_begin_tag_creation();
}

fn use_begin_tag_creation() {
    match fsel::cclip::tags::begin_tag_creation(Some("7\ttext/plain\thi"), vec!["work".to_string()]) {
        Ok(TagMode::PromptingTagName {
            input,
            selected_item,
            available_tags,
            selected_tag,
        }) => {
            assert_eq!(input, "");
            assert_eq!(selected_item.as_deref(), Some("7\ttext/plain\thi"));
            assert_eq!(available_tags, vec!["work".to_string()]);
            assert_eq!(selected_tag, None);
        }
        _ => panic!("the tag name prompt should open"),
    }
    match fsel::cclip::tags::begin_tag_creation(None, Vec::new()) {
        Err(message) => assert_eq!(message, "No item selected - cannot create tag"),
        Ok(_) => panic!("no prompt without a selection"),
    }
}

fn item_line(line: &str) -> CclipItem {
    CclipItem::from_line(line.to_string()).expect("valid list line")
}

#[test]
fn distinct_tags_lists_each_tag_once_in_first_seen_order() {
    let items = vec![
        item_line("3\ttext/plain\tthree\twork, urgent"),
        item_line("2\ttext/plain\ttwo"),
        item_line("1\ttext/plain\tone\turgent,home"),
    ];
    assert_eq!(distinct_tags(&items), vec!["work", "urgent", "home"]);
    assert!(distinct_tags(&Vec::new()).is_empty());
}

#[test]
fn entries_with_tag_finds_the_tagged_positions() {
    let items = vec![
        item_line("3\ttext/plain\tthree\twork, urgent"),
        item_line("2\ttext/plain\ttwo"),
        item_line("1\ttext/plain\tone\turgent,home"),
    ];
    assert_eq!(entries_with_tag(&items, &"urgent".to_string()), vec![0, 2]);
    assert_eq!(entries_with_tag(&items, &"home".to_string()), vec![2]);
    assert!(entries_with_tag(&items, &"missing".to_string()).is_empty());
    assert!(items[0].has_tag(&"work".to_string()));
    assert!(!items[1].has_tag(&"work".to_string()));
}

#[test]
fn formatter_options_pick_labels_with_or_without_colour_names() {
    let item = CclipItem::from_line("7\ttext/plain\thello\twork".to_string()).expect("valid item");
    let labels = vec![("W work".to_string(), "W work (red)".to_string())];
    assert_eq!(
        item.get_display_name_with_formatter_options(Some(&labels), true),
        "[W work (red)] hello"
    );
    assert_eq!(
        item.get_display_name_with_formatter_options(Some(&labels), false),
        "[W work] hello"
    );
    assert_eq!(item.get_display_name_with_formatter_options(None, false), "[work] hello");
    assert_eq!(
        item.get_display_name_with_number_formatter_options(Some(&labels), false),
        "7   [W work] hello"
    );
}
