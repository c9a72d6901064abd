use clawbang::script::{split_frontmatter, split_script, FrontmatterError, Script};

fn parts(frontmatter: &str, body: &str) -> Result<Script, FrontmatterError> {
    Ok(Script {
        frontmatter: frontmatter.to_string(),
        body: body.to_string(),
    })
}

#[test]
fn plain_source_is_all_body() {
    assert_eq!(split_script("fn main() {}"), parts("", "fn main() {}"));
}

#[test]
fn surrounding_whitespace_is_dropped() {
    assert_eq!(
        split_script("\n\t  fn main() {}\r\n\n"),
        parts("", "fn main() {}")
    );
}

#[test]
fn whitespace_beyond_ascii_is_dropped() {
    assert_eq!(
        split_script("\u{a0}\u{3000}\u{2028}fn main() {}\u{85}\u{2003}"),
        parts("", "fn main() {}")
    );
}

#[test]
fn empty_and_blank_scripts_have_empty_parts() {
    assert_eq!(split_script(""), parts("", ""));
    assert_eq!(split_script(" \n\t\n"), parts("", ""));
}

#[test]
fn shebang_line_is_dropped() {
    assert_eq!(
        split_script("#!/usr/bin/env clawbang\nfn main() {}\n"),
        parts("", "fn main() {}")
    );
}

#[test]
fn blank_lines_after_the_shebang_are_dropped() {
    assert_eq!(
        split_script("#!/x\n\n\n  fn main() {}"),
        parts("", "fn main() {}")
    );
}

#[test]
fn shebang_after_leading_whitespace_is_dropped() {
    assert_eq!(
        split_script("\n\n  #!/x\nfn main() {}"),
        parts("", "fn main() {}")
    );
}

#[test]
fn shebang_without_a_line_break_leaves_nothing() {
    assert_eq!(split_script("#!/usr/bin/env clawbang"), parts("", ""));
}

#[test]
fn only_the_first_shebang_line_is_dropped() {
    assert_eq!(
        split_script("#!/x\n#!/y\nfn main() {}"),
        parts("", "#!/y\nfn main() {}")
    );
}

#[test]
fn hash_without_bang_is_source() {
    assert_eq!(
        split_script("#[allow(unused)]\nfn main() {}"),
        parts("", "#[allow(unused)]\nfn main() {}")
    );
}

#[test]
fn frontmatter_is_split_off() {
    assert_eq!(
        split_script("+++\n[dependencies]\nrand = \"0.8\"\n+++\nfn main() {}\n"),
        parts("[dependencies]\nrand = \"0.8\"", "fn main() {}")
    );
}

#[test]
fn shebang_and_frontmatter_together() {
    assert_eq!(
        split_script(
            "#!/x\n+++\n[package]\nfoo=\"bar\"\n+++\nfn main(){std::process::exit(7)}"
        ),
        parts("[package]\nfoo=\"bar\"", "fn main(){std::process::exit(7)}")
    );
}

#[test]
fn body_keeps_its_leading_whitespace_after_frontmatter() {
    assert_eq!(
        split_script("+++\na = 1\n+++\n\n  fn main() {}\n"),
        parts("a = 1", "\n  fn main() {}")
    );
}

#[test]
fn frontmatter_keeps_its_inner_line_breaks() {
    assert_eq!(
        split_script("+++\n\na = 1\n\n+++\nx"),
        parts("\na = 1\n", "x")
    );
}

#[test]
fn frontmatter_of_one_empty_line() {
    assert_eq!(split_script("+++\n\n+++\nx"), parts("", "x"));
}

#[test]
fn first_closing_line_ends_the_frontmatter() {
    assert_eq!(
        split_script("+++\na = 1\n+++\nlet s = \"\n+++\n\";"),
        parts("a = 1", "let s = \"\n+++\n\";")
    );
}

#[test]
fn unclosed_frontmatter_is_rejected() {
    assert_eq!(
        split_script("+++\n[package]\nfn main() {}"),
        Err(FrontmatterError::Unclosed)
    );
}

#[test]
fn closing_line_may_end_the_script() {
    assert_eq!(split_script("+++\na = 1\n+++"), parts("a = 1", ""));
    assert_eq!(split_script("+++\na = 1\n+++\n"), parts("a = 1", ""));
    assert_eq!(split_script("#!/x\n+++\na = 1\n+++\n\n"), parts("a = 1", ""));
}

#[test]
fn block_may_be_empty() {
    assert_eq!(split_script("+++\n+++\nfn main() {}"), parts("", "fn main() {}"));
    assert_eq!(split_script("+++\n+++"), parts("", ""));
}

#[test]
fn opening_line_alone_is_an_unclosed_block() {
    assert_eq!(split_script("+++"), Err(FrontmatterError::Unclosed));
    assert_eq!(split_script("+++\n"), Err(FrontmatterError::Unclosed));
    assert_eq!(split_script("#!/x\n+++\n"), Err(FrontmatterError::Unclosed));
}

#[test]
fn closing_line_holds_nothing_else() {
    assert_eq!(
        split_script("+++\na = 1\n++++\nx"),
        Err(FrontmatterError::Unclosed)
    );
    assert_eq!(
        split_script("+++\na = 1\n+++ \nx"),
        Err(FrontmatterError::Unclosed)
    );
    assert_eq!(
        split_script("+++\na = 1\n +++\nx"),
        Err(FrontmatterError::Unclosed)
    );
    assert_eq!(
        split_script("+++\na = 1 +++\nx"),
        Err(FrontmatterError::Unclosed)
    );
}

#[test]
fn opening_line_holds_nothing_else() {
    assert_eq!(
        split_script("+++ \na = 1\n+++\nx"),
        parts("", "+++ \na = 1\n+++\nx")
    );
    assert_eq!(
        split_script("++++\na = 1\n+++\nx"),
        parts("", "++++\na = 1\n+++\nx")
    );
}

#[test]
fn delimiter_in_the_middle_of_the_source_is_source() {
    assert_eq!(
        split_script("fn main() {}\n+++\na = 1\n+++\n"),
        parts("", "fn main() {}\n+++\na = 1\n+++")
    );
}

#[test]
fn characters_of_several_bytes_are_kept_whole() {
    assert_eq!(
        split_script("#!/x\n+++\nname = \"h\u{e9}\u{1f600}\"\n+++\n// \u{4e16}\u{754c}\nfn main() {}"),
        parts(
            "name = \"h\u{e9}\u{1f600}\"",
            "// \u{4e16}\u{754c}\nfn main() {}"
        )
    );
}

#[test]
fn carriage_returns_are_not_line_breaks() {
    assert_eq!(
        split_script("+++\r\na = 1\r\n+++\r\nx"),
        parts("", "+++\r\na = 1\r\n+++\r\nx")
    );
}

#[test]
fn text_without_delimiter_is_all_body() {
    assert_eq!(split_frontmatter("fn main() {}"), parts("", "fn main() {}"));
    assert_eq!(split_frontmatter(""), parts("", ""));
}

#[test]
fn text_is_split_at_its_delimiters() {
    assert_eq!(
        split_frontmatter("+++\n[package]\nfoo=\"bar\"\n+++\nfn main(){}"),
        parts("[package]\nfoo=\"bar\"", "fn main(){}")
    );
    assert_eq!(split_frontmatter("+++\n\n+++\n"), parts("", ""));
}

#[test]
fn text_is_not_trimmed_before_it_is_split() {
    assert_eq!(
        split_frontmatter(" +++\na = 1\n+++\nx"),
        parts("", " +++\na = 1\n+++\nx")
    );
    assert_eq!(
        split_frontmatter("+++\na = 1\n+++\nx \n"),
        parts("a = 1", "x \n")
    );
    assert_eq!(split_frontmatter("#!/x\nabc"), parts("", "#!/x\nabc"));
}

#[test]
fn text_with_an_open_block_is_rejected() {
    assert_eq!(split_frontmatter("+++"), Err(FrontmatterError::Unclosed));
    assert_eq!(split_frontmatter("+++\n"), Err(FrontmatterError::Unclosed));
    assert_eq!(
        split_frontmatter("+++\na = 1\n++"),
        Err(FrontmatterError::Unclosed)
    );
    assert_eq!(
        split_frontmatter("+++\n+++a\n"),
        Err(FrontmatterError::Unclosed)
    );
}

#[test]
fn text_may_end_with_its_closing_line() {
    assert_eq!(split_frontmatter("+++\na = 1\n+++"), parts("a = 1", ""));
    assert_eq!(split_frontmatter("+++\na = 1\n+++\n"), parts("a = 1", ""));
    assert_eq!(split_frontmatter("+++\n+++"), parts("", ""));
    assert_eq!(split_frontmatter("+++\n+++\n+++\n"), parts("", "+++\n"));
}
