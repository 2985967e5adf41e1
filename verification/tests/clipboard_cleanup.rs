use scribe_client::clipboard_cleanup::{
    dedent, detect_wrap_width, is_intentional_break, prepare_copy_text, unwrap_lines,
};

// ---- prepare_copy_text ----

#[test]
fn passthrough_when_claude_inactive() {
    let text = "    indented\n    lines\n";
    assert_eq!(prepare_copy_text(text, false, true), text);
}

#[test]
fn passthrough_when_cleanup_disabled() {
    let text = "    indented\n    lines\n";
    assert_eq!(prepare_copy_text(text, true, false), text);
}

#[test]
fn applies_transforms_when_enabled() {
    let text = "    hello world\n    goodbye world\n";
    let result = prepare_copy_text(text, true, true);
    assert_eq!(result, "hello world\ngoodbye world\n");
}

// ---- dedent ----

#[test]
fn dedent_no_indent() {
    assert_eq!(dedent("foo\nbar"), "foo\nbar");
}

#[test]
fn dedent_uniform_indent() {
    assert_eq!(dedent("    foo\n    bar"), "foo\nbar");
}

#[test]
fn dedent_mixed_indent_strips_minimum() {
    assert_eq!(dedent("  foo\n    bar"), "foo\n  bar");
}

#[test]
fn dedent_empty_lines_ignored_for_minimum() {
    assert_eq!(dedent("    foo\n\n    bar"), "foo\n\nbar");
}

#[test]
fn dedent_zero_min_is_noop() {
    let text = "no indent\n  some indent";
    assert_eq!(dedent(text), text);
}

#[test]
fn dedent_preserves_trailing_newline() {
    assert_eq!(dedent("  a\n  b\n"), "a\nb\n");
}

#[test]
fn dedent_no_trailing_newline_stays_without() {
    assert_eq!(dedent("  a\n  b"), "a\nb");
}

#[test]
fn dedent_single_line() {
    assert_eq!(dedent("    hello"), "hello");
}

#[test]
fn dedent_all_empty_lines() {
    assert_eq!(dedent("\n\n"), "\n\n");
}

#[test]
fn dedent_empty_string() {
    assert_eq!(dedent(""), "");
}

// ---- detect_wrap_width ----

#[test]
fn detect_width_from_repeated_length() {
    // Three lines of 40 chars, one short tail.
    let line40 = "a".repeat(40);
    let lines = vec![line40.as_str(), line40.as_str(), line40.as_str(), "short"];
    assert_eq!(detect_wrap_width(&lines), 40);
}

#[test]
fn detect_width_returns_zero_for_single_line() {
    let lines = vec!["only one line here"];
    assert_eq!(detect_wrap_width(&lines), 0);
}

#[test]
fn detect_width_returns_zero_for_no_dominant() {
    let lines = vec!["short", "medium length", "a different size entirely"];
    assert_eq!(detect_wrap_width(&lines), 0);
}

#[test]
fn detect_width_ignores_intentional_breaks() {
    let line30 = "x".repeat(30);
    let lines = vec![
        line30.as_str(),
        line30.as_str(),
        "",              // blank — intentional break
        "- bullet item", // list marker — intentional break
        "# heading",     // heading — intentional break
    ];
    assert_eq!(detect_wrap_width(&lines), 30);
}

#[test]
fn detect_width_prefers_larger_on_tie() {
    // Two lines of length 40, two of length 50.
    let a = "a".repeat(40);
    let b = "b".repeat(50);
    let lines = vec![a.as_str(), a.as_str(), b.as_str(), b.as_str()];
    assert_eq!(detect_wrap_width(&lines), 50);
}

// ---- unwrap_lines ----

#[test]
fn unwrap_joins_hard_wrapped_prose() {
    let w = 40;
    let line_a = format!("{:<width$}", "This is a line that wraps at", width = w);
    let line_b = format!("{:<width$}", "a fixed width and should be", width = w);
    let tail = "joined together.";
    let input = format!("{line_a}\n{line_b}\n{tail}");
    let result = unwrap_lines(&input);
    // Should be one flowing line.
    assert!(!result.contains('\n'), "expected single line, got:\n{result}");
    assert!(result.contains("wraps at"));
    assert!(result.contains("joined together."));
}

#[test]
fn unwrap_preserves_blank_line_paragraph_separator() {
    let w = 40;
    let a1 = format!("{:<width$}", "First paragraph line one that", width = w);
    let a2 = "wraps here.";
    let b1 = format!("{:<width$}", "Second paragraph line one that", width = w);
    let b2 = "also wraps.";
    let input = format!("{a1}\n{a2}\n\n{b1}\n{b2}");
    let result = unwrap_lines(&input);
    // Blank line must survive.
    assert!(result.contains("\n\n"), "blank line separator lost:\n{result}");
}

#[test]
fn unwrap_preserves_bullet_lists() {
    let w = 40;
    let line = format!("{:<width$}", "Some prose that wraps at exactly", width = w);
    let input = format!("{line}\n{line}\n- bullet one\n- bullet two");
    let result = unwrap_lines(&input);
    assert!(result.contains("\n- bullet one\n- bullet two"));
}

#[test]
fn unwrap_preserves_ordered_lists() {
    let w = 40;
    let line = format!("{:<width$}", "Some prose that wraps at exactly", width = w);
    let input = format!("{line}\n{line}\n1. first\n2. second");
    let result = unwrap_lines(&input);
    assert!(result.contains("\n1. first\n2. second"));
}

#[test]
fn unwrap_preserves_headings() {
    let w = 40;
    let line = format!("{:<width$}", "Some prose that wraps at exactly", width = w);
    let input = format!("# Title\n{line}\n{line}\ntail");
    let result = unwrap_lines(&input);
    assert!(result.starts_with("# Title\n"));
}

#[test]
fn unwrap_preserves_code_blocks() {
    let w = 40;
    let line = format!("{:<width$}", "Some prose that wraps at exactly", width = w);
    let input = format!("{line}\n{line}\n```\ncode here\n```");
    let result = unwrap_lines(&input);
    assert!(result.contains("\n```\ncode here\n```"));
}

#[test]
fn unwrap_preserves_table_rows() {
    let w = 40;
    let line = format!("{:<width$}", "Some prose that wraps at exactly", width = w);
    let input = format!("{line}\n{line}\n| col1 | col2 |");
    let result = unwrap_lines(&input);
    assert!(result.contains("\n| col1 | col2 |"));
}

#[test]
fn unwrap_preserves_lines_ending_with_colon() {
    let w = 40;
    let line = format!("{:<width$}", "Some prose that wraps at exactly", width = w);
    let colon_line = "Here is a label:";
    let input = format!("{line}\n{line}\n{colon_line}");
    let result = unwrap_lines(&input);
    assert!(result.ends_with("\nHere is a label:"));
}

#[test]
fn unwrap_preserves_indented_code() {
    let w = 40;
    let line = format!("{:<width$}", "Some prose that wraps at exactly", width = w);
    let input = format!("{line}\n{line}\n    fn main() {{}}\ntail");
    let result = unwrap_lines(&input);
    assert!(result.contains("\n    fn main() {}"));
}

#[test]
fn unwrap_noop_when_no_dominant_width() {
    let input = "short\nmedium length\na different size line";
    assert_eq!(unwrap_lines(input), input);
}

#[test]
fn unwrap_preserves_trailing_newline() {
    let w = 40;
    let line = format!("{:<width$}", "Some prose that wraps at exactly", width = w);
    let input = format!("{line}\n{line}\ntail\n");
    let result = unwrap_lines(&input);
    assert!(result.ends_with('\n'), "trailing newline lost");
}

#[test]
fn unwrap_no_trailing_newline_stays_without() {
    let w = 40;
    let line = format!("{:<width$}", "Some prose that wraps at exactly", width = w);
    let input = format!("{line}\n{line}\ntail");
    let result = unwrap_lines(&input);
    assert!(!result.ends_with('\n'));
}

#[test]
fn unwrap_does_not_consume_overlong_lines() {
    // A line much longer than the wrap width should not be merged
    // into the preceding paragraph.
    let w = 40;
    let line = format!("{:<width$}", "Some prose that wraps at exactly", width = w);
    let overlong = "x".repeat(80);
    let input = format!("{line}\n{line}\n{overlong}");
    let result = unwrap_lines(&input);
    // The overlong line must appear on its own.
    assert!(
        result.contains(&format!("\n{overlong}")),
        "overlong line was incorrectly merged:\n{result}"
    );
}

// ---- is_intentional_break ----

#[test]
fn break_empty_line() {
    assert!(is_intentional_break(""));
}

#[test]
fn break_bullet_dash() {
    assert!(is_intentional_break("- item"));
}

#[test]
fn break_bullet_star() {
    assert!(is_intentional_break("* item"));
}

#[test]
fn break_bullet_plus() {
    assert!(is_intentional_break("+ item"));
}

#[test]
fn break_ordered_list() {
    assert!(is_intentional_break("1. first"));
    assert!(is_intentional_break("12. twelfth"));
}

#[test]
fn break_heading() {
    assert!(is_intentional_break("# Title"));
    assert!(is_intentional_break("## Subtitle"));
}

#[test]
fn break_table_row() {
    assert!(is_intentional_break("| a | b |"));
}

#[test]
fn break_code_fence() {
    assert!(is_intentional_break("```rust"));
    assert!(is_intentional_break("```"));
}

#[test]
fn break_colon_ending() {
    assert!(is_intentional_break("options:"));
}

#[test]
fn break_brace_ending() {
    assert!(is_intentional_break("fn main() {"));
    assert!(is_intentional_break("}"));
}

#[test]
fn break_indented_code() {
    assert!(is_intentional_break("    code line"));
    assert!(is_intentional_break("\tcode line"));
}

#[test]
fn not_break_normal_prose() {
    assert!(!is_intentional_break("This is normal text"));
}

#[test]
fn not_break_dash_without_space() {
    // A dash not followed by a space is not a list marker.
    assert!(!is_intentional_break("-nospace"));
}

#[test]
fn not_break_number_without_dot_space() {
    assert!(!is_intentional_break("100 items"));
}

// ---- end-to-end: dedent + unwrap together ----

#[test]
fn full_cleanup_claude_output() {
    // Output indented 4 spaces and wrapped at 76 chars (80 - 4 indent).
    let w = 76;
    let make_line = |s: &str| format!("    {s:<w$}");
    let input = [
        make_line("The assistant often outputs prose with hard line breaks"),
        make_line("at a fixed width like a column of roughly eighty"),
        String::from("    characters wide."),
        String::new(),
        String::from("    - Bullet one"),
        String::from("    - Bullet two"),
    ]
    .join("\n");

    let result = prepare_copy_text(&input, true, true);

    // Prose should be unwrapped into one line.
    assert!(result.contains("prose with hard line breaks at a fixed width"));
    assert!(result.contains("characters wide."));
    // Bullets preserved on separate lines.
    assert!(result.contains("\n- Bullet one\n- Bullet two"));
    // No leading 4-space indent.
    assert!(!result.starts_with("    "));
}

#[test]
fn full_cleanup_preserves_code_in_prose() {
    let w = 60;
    let make_line = |s: &str| format!("  {s:<w$}");
    let input = [
        make_line("Here is some prose that wraps at sixty characters"),
        make_line("and continues on the next line for a while."),
        String::from("  Followed by a short line."),
        String::new(),
        String::from("  ```"),
        String::from("  fn main() {}"),
        String::from("  ```"),
    ]
    .join("\n");

    let result = prepare_copy_text(&input, true, true);

    // Code block fences must survive as separate lines.
    assert!(result.contains("\n```\n"));
    assert!(result.contains("fn main() {}"));
}

// ---- what a clean-up never changes ----

#[test]
fn clean_up_touches_white_space_only() {
    let input = "    one two three four five six seven\n    one two three four five six seven\n    end\n";
    let result = prepare_copy_text(input, true, true);
    let solid = |s: &str| s.chars().filter(|c| !c.is_whitespace()).collect::<String>();
    assert_eq!(solid(&result), solid(input));
    assert!(result.ends_with('\n'));
}

#[test]
fn lines_that_stand_alone_stay_alone() {
    let line = "x".repeat(20);
    let input = format!("{line}\n{line}\n# heading\n- item\nend");
    assert_eq!(unwrap_lines(&input), format!("{line} {line}\n# heading\n- item\nend"));
}

#[test]
fn carriage_returns_go_with_their_line_ends() {
    assert_eq!(dedent("  a\r\n  b\r\n"), "a\nb\n");
}

// ---- any white space ----

#[test]
fn dedent_strips_shared_tabs() {
    assert_eq!(dedent("\tfoo\n\tbar"), "foo\nbar");
    assert_eq!(dedent("\t\tfoo\n\n\tbar\n"), "\tfoo\n\nbar\n");
}

#[test]
fn dedent_strips_the_longest_shared_white_space() {
    assert_eq!(dedent(" \tfoo\n \t bar"), "foo\n bar");
    assert_eq!(dedent("  \tfoo\n   bar"), "\tfoo\n bar");
    assert_eq!(dedent("  foo\n\tbar"), "  foo\n\tbar");
    assert_eq!(dedent("\u{3000}foo\n\u{3000}bar"), "foo\nbar");
    assert_eq!(dedent("\n\n"), "\n\n");
    assert_eq!(dedent("   \n  foo"), " \nfoo");
}

// ---- indentation, line ends and order ----

/// Spaces before every line that is not empty.
fn moved_in(text: &str, spaces: usize) -> String {
    text.split('\n')
        .map(|line| match line {
            "" | "\r" => line.to_owned(),
            _ => format!("{}{line}", " ".repeat(spaces)),
        })
        .collect::<Vec<_>>()
        .join("\n")
}

#[test]
fn indentation_of_the_whole_makes_no_difference() {
    let line = "one two three four five six";
    let prose = format!("{line}\n{line}\nend\n\n# heading\n  - item\n\tcode");
    let expected = format!("{line} {line} end\n\n# heading\n  - item\n\tcode");
    assert_eq!(prepare_copy_text(&prose, true, true), expected);
    for spaces in [0, 1, 2, 4, 9] {
        assert_eq!(prepare_copy_text(&moved_in(&prose, spaces), true, true), expected);
    }
    for text in ["", "\n\n", "a", "a\n", "  a\r\n    b\r\n", "\ta\n\tb", "\r\n\r\n"] {
        assert_eq!(dedent(&moved_in(text, 3)), dedent(text));
    }
}

#[test]
fn carriage_returns_stay_where_nothing_is_indented() {
    assert_eq!(dedent("a\r\nb"), "a\r\nb");
    assert_eq!(dedent(&moved_in("a\r\nb", 2)), "a\nb");
}

#[test]
fn line_feeds_at_the_end_of_a_text() {
    let line = "one two three four five six";
    for (text, expected) in [
        (format!("  {line}\n  {line}"), format!("{line} {line}")),
        (format!("  {line}\n  {line}\n"), format!("{line} {line}\n")),
        ("   ".to_owned(), String::new()),
        // Nothing is left of the last line.
        ("  a\n  ".to_owned(), "a\n".to_owned()),
        ("  abc\n   ".to_owned(), "abc\n ".to_owned()),
    ] {
        assert_eq!(prepare_copy_text(&text, true, true), expected);
    }
}

#[test]
fn lines_never_grow_in_number_and_keep_their_order() {
    let line = "x".repeat(20);
    let text = format!("# one\n{line}\n{line}\n- two\n{line}\n{line}\nend\n\n# one\n");
    let result = unwrap_lines(&text);
    assert!(result.lines().count() <= text.lines().count());
    let alone = |s: &str| {
        s.lines().filter(|l| is_intentional_break(l)).map(str::to_owned).collect::<Vec<_>>()
    };
    assert_eq!(alone(&result), ["# one", "- two", "", "# one"]);
}
