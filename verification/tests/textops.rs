use kp::text::outputs_match;
use kp::text::prepend_url_comment;
use kp::text::scrub_line;
use kp::text::strip_bom;
use kp::text::trim_str;
use kp::text::u64_to_string;

#[test]
fn trim_insensitive_comparison_judges_equal_up_to_edges() {
    assert!(outputs_match("4\n", "4"));
    assert!(outputs_match("4", "4\n"));
    assert!(outputs_match("4", "4"));
    assert!(outputs_match("  9\r\n", "9"));
    assert!(outputs_match("\u{3000}9\u{3000}", "9"));
    assert!(!outputs_match("4", "5"));
    assert!(!outputs_match("4 5", "45"));
    assert!(outputs_match("", "   \n"));
}

#[test]
fn trim_matches_std() {
    assert_eq!(trim_str("  a b  "), "a b");
    assert_eq!(trim_str("\t\nx\r\n"), "x");
    assert_eq!(trim_str("   \n"), "");
    assert_eq!(trim_str(""), "");
    assert_eq!(trim_str("inner  space"), "inner  space");
    for s in ["  a b  ", "\u{a0}q\u{2028}", "\r\nok", "no-edges"] {
        assert_eq!(trim_str(s), s.trim());
    }
}

#[test]
fn bom_stripping_leaves_bom_free_text_unchanged() {
    assert_eq!(strip_bom("abc"), "abc");
    assert_eq!(strip_bom(""), "");
    assert_eq!(strip_bom("a\u{feff}b"), "a\u{feff}b");
}

#[test]
fn bom_stripping_removes_exactly_one_leading_mark() {
    assert_eq!(strip_bom("\u{feff}abc"), "abc");
    assert_eq!(strip_bom("\u{feff}"), "");
    assert_eq!(strip_bom("\u{feff}\u{feff}x"), "\u{feff}x");
}

#[test]
fn bom_stripping_is_idempotent_on_single_marks() {
    let once = strip_bom("\u{feff}abc");
    assert_eq!(strip_bom(&once), once);
    let none = strip_bom("abc");
    assert_eq!(strip_bom(&none), none);
}

#[test]
fn decimal_rendering_is_exact() {
    assert_eq!(u64_to_string(0), "0");
    assert_eq!(u64_to_string(7), "7");
    assert_eq!(u64_to_string(10), "10");
    assert_eq!(u64_to_string(305), "305");
    assert_eq!(u64_to_string(u64::MAX), "18446744073709551615");
}

#[test]
fn url_comment_is_prepended_after_bom_strip() {
    assert_eq!(
        prepend_url_comment("\u{feff}fn main() {}", "https://example.invalid/a"),
        "// https://example.invalid/a\nfn main() {}"
    );
    assert_eq!(prepend_url_comment("x", "u"), "// u\nx");
}

#[test]
fn line_scrubbing_removes_line_breaks_and_edges() {
    assert_eq!(scrub_line("/cfg/dir\n"), "/cfg/dir");
    assert_eq!(scrub_line("  /cfg\r\n/dir\n"), "/cfg/dir");
    assert_eq!(scrub_line("a\nb"), "ab");
    assert_eq!(scrub_line(""), "");
}

#[test]
fn line_scrubbing_matches_trim_and_replace() {
    for s in ["/cfg/dir\r\n", "a\nb", "  x \n y ", "\r\r\n", "\n\n", "plain"] {
        let expected = s.trim().replace("\r\n", "").replace('\n', "");
        assert_eq!(scrub_line(s), expected.trim());
    }
}
