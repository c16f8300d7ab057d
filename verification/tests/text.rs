use email_cli::text::{strip_ansi, strip_html_tags};
use email_cli::chars::trim_str;

#[test]
fn strip_ansi_removes_color_sequences() {
    assert_eq!(strip_ansi("\x1b[31mred\x1b[0m plain"), "red plain");
}

#[test]
fn strip_ansi_keeps_plain_text() {
    assert_eq!(strip_ansi("hello, world"), "hello, world");
}

#[test]
fn strip_ansi_drops_lone_escape_but_keeps_next_char() {
    assert_eq!(strip_ansi("a\x1bXb"), "aXb");
}

#[test]
fn strip_ansi_unterminated_sequence_runs_to_end() {
    assert_eq!(strip_ansi("ok\x1b[12;34"), "ok");
}

#[test]
fn strip_ansi_tilde_terminates_sequence() {
    assert_eq!(strip_ansi("\x1b[3~x"), "x");
}

#[test]
fn strip_ansi_is_idempotent_on_example() {
    let once = strip_ansi("\x1b[1mbold\x1b[0m \x1b text");
    assert_eq!(strip_ansi(&once), once);
}

#[test]
fn strip_html_tags_basic() {
    assert_eq!(strip_html_tags("<p>Hello</p>\n<p>World</p>"), "Hello\nWorld\n");
}

#[test]
fn strip_html_tags_collapses_blank_lines_and_trims() {
    assert_eq!(
        strip_html_tags("  <b>a</b>  \n\n\n   \n\tb\r\n"),
        "a\n\nb\n"
    );
}

#[test]
fn strip_html_tags_leading_blank_line() {
    assert_eq!(strip_html_tags("\n\nx"), "\nx\n");
}

#[test]
fn strip_html_tags_empty() {
    assert_eq!(strip_html_tags(""), "");
}

#[test]
fn strip_html_tags_leaves_no_brackets() {
    let out = strip_html_tags("<div class=\"x\">1 > 0 and <i>2</i></div>");
    assert!(!out.contains('<') && !out.contains('>'));
    assert_eq!(out, "1  0 and 2\n");
}

#[test]
fn trim_str_matches_std_trim() {
    for s in ["  a b ", "\u{3000}x\u{00a0}", "", " \t\n", "no-space"] {
        assert_eq!(trim_str(s), s.trim());
    }
}

#[test]
fn strip_html_tags_is_idempotent_on_examples() {
    for html in [
        "<p>Hello</p>\n\n\n<p>  World </p>",
        "\n\n<b>x</b>\n",
        "  a  \r\n\r\n b",
        "<div>1 > 0</div>\n\t\n",
    ] {
        let once = strip_html_tags(html);
        assert_eq!(strip_html_tags(&once), once);
    }
}
