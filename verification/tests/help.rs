use fsel::cli::help::{detailed_usage, short_usage};

#[test]
fn usage_texts_name_the_program() {
    let short = short_usage("fsel-dmenu");
    assert!(short.starts_with("fsel — Fast terminal application launcher\nUsage:\n  fsel-dmenu [OPTIONS]\n"));
    assert!(short.contains("-V, --version"));
    let long = detailed_usage("fsel");
    assert!(long.contains("  fsel [OPTIONS]\n"));
    assert!(long.contains("supports {}, {q}, and {n}"));
    assert!(long.ends_with("Default config path: ~/.config/fsel/config.toml\n"));
}
