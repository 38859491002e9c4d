use fsel::preview::expand::expand_preview_command;
use fsel::preview::output::{
    append_truncation_notice, keep_within_limit, should_report_command_failure,
    signature_query, truncated_image_message, CommandOutput,
};

#[test]
fn command_expansion_uses_environment_variables() {
    let command = expand_preview_command("printf '%s %s %s' {} {q} {n}")
        .expect("unquoted placeholders should expand");

    assert_eq!(
        command,
        "printf '%s %s %s' \"$FSEL_PREVIEW_ITEM\" \"$FSEL_PREVIEW_QUERY\" \"$FSEL_PREVIEW_ORDINAL\""
    );
}

#[test]
fn password_mode_omits_the_query_from_preview_signatures() {
    assert_eq!(signature_query(false, "secret"), "");
    assert_eq!(signature_query(true, "visible"), "visible");
}

#[test]
fn nested_double_quotes_preserve_shell_context() {
    let command = expand_preview_command("echo \"$(printf \"{}\")\"")
        .expect("nested double-quoted placeholders should expand safely");

    assert_eq!(command, "echo \"$(printf \"$FSEL_PREVIEW_ITEM\"\"\")\"");
}

#[test]
fn nested_single_quoted_placeholders_are_rejected() {
    let result = expand_preview_command("echo \"$(printf '{}')\"");

    assert!(result.is_err());
}

#[test]
fn single_quoted_placeholders_are_rejected() {
    let result = expand_preview_command("printf %s '{}'");

    assert!(result.is_err());
}

#[test]
fn heredoc_preview_commands_are_rejected() {
    let result = expand_preview_command("sh <<EOF\necho {}\nEOF");

    assert!(result.is_err());
}

#[test]
fn quoted_shift_operators_are_not_treated_as_heredocs() {
    let command = expand_preview_command("python -c 'print(1 << 8)' {}")
        .expect("quoted shift operators are ordinary command data");

    assert!(command.contains("print(1 << 8)"));
}

#[test]
fn arithmetic_shift_operators_are_not_treated_as_heredocs() {
    let command = expand_preview_command("printf '%s' $((1 << 8)) {}")
        .expect("arithmetic shifts are not heredocs");

    assert!(command.contains("$((1 << 8))"));
}

#[test]
fn arithmetic_ordinal_placeholder_uses_an_unquoted_variable() {
    let command = expand_preview_command("printf '%s' $(({n}+1))")
        .expect("ordinal placeholders should expand in arithmetic contexts");

    assert_eq!(command, "printf '%s' $((FSEL_PREVIEW_ORDINAL+1))");
}

#[test]
fn case_patterns_do_not_close_command_substitutions() {
    let command = expand_preview_command("echo \"$(case x in x) printf '%s' \"{}\";; esac)\"")
        .expect("case pattern terminators belong to the case clause");

    assert!(command.contains("$FSEL_PREVIEW_ITEM"));
}

#[test]
fn case_pattern_parentheses_remain_balanced() {
    let command = expand_preview_command("echo \"$(case x in @(x)) :;; esac){}\"")
        .expect("parentheses within a case pattern should remain balanced");

    assert!(command.ends_with("$FSEL_PREVIEW_ITEM\"\"\""));
}

#[test]
fn plain_commands_pass_through_unchanged() {
    assert_eq!(expand_preview_command("ls -la").unwrap(), "ls -la");
}

#[test]
fn truncation_notice_is_added_to_failed_command_diagnostics() {
    let mut text = "command failed".to_string();

    append_truncation_notice(&mut text, true);

    assert_eq!(text, "command failed\n\n[preview output truncated]");
}

#[test]
fn truncation_notice_is_not_added_to_complete_output() {
    let mut text = "command failed".to_string();

    append_truncation_notice(&mut text, false);

    assert_eq!(text, "command failed");
}

#[test]
fn truncated_images_are_reported_before_decode() {
    let output = CommandOutput {
        stdout: b"\x89PNG\r\n\x1a\npartial".to_vec(),
        stderr: Vec::new(),
        status: "signal: 9".to_string(),
        success: false,
        stdout_truncated: true,
        stderr_truncated: false,
    };

    assert_eq!(
        truncated_image_message(&output).as_deref(),
        Some("Preview image exceeds the 32 MiB output limit")
    );
}

#[test]
fn truncated_stderr_does_not_reject_a_complete_image() {
    let output = CommandOutput {
        stdout: b"\x89PNG\r\n\x1a\ncomplete".to_vec(),
        stderr: b"diagnostic".to_vec(),
        status: "signal: 9".to_string(),
        success: false,
        stdout_truncated: false,
        stderr_truncated: true,
    };

    assert_eq!(truncated_image_message(&output), None);
}

#[test]
fn nonzero_commands_keep_nonempty_stdout() {
    let output = CommandOutput {
        stdout: b"useful diff".to_vec(),
        stderr: Vec::new(),
        status: "exit status: 1".to_string(),
        success: false,
        stdout_truncated: false,
        stderr_truncated: false,
    };

    assert!(!should_report_command_failure(&output));
}

#[test]
fn nonzero_commands_without_stdout_are_reported() {
    let output = CommandOutput {
        stdout: Vec::new(),
        stderr: b"boom".to_vec(),
        status: "exit status: 1".to_string(),
        success: false,
        stdout_truncated: false,
        stderr_truncated: false,
    };

    assert!(should_report_command_failure(&output));
}

#[test]
fn limited_reader_drains_after_reporting_the_cap() {
    let mut bytes = Vec::new();
    let mut truncated = false;
    let mut reports = 0;
    for chunk in [&b"ab"[..], &b"cd"[..], &b"ef"[..]] {
        if keep_within_limit(&mut bytes, chunk, 3) && !truncated {
            truncated = true;
            reports += 1;
        }
    }

    assert_eq!(bytes, b"abc");
    assert!(truncated);
    assert_eq!(reports, 1);
}

#[test]
fn output_under_the_limit_is_kept_whole() {
    let mut bytes = b"xy".to_vec();
    assert!(!keep_within_limit(&mut bytes, b"z", 3));
    assert_eq!(bytes, b"xyz");
    assert!(keep_within_limit(&mut bytes, b"!", 3));
    assert_eq!(bytes, b"xyz");
}
