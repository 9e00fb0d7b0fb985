use tictactoe_server::text::{join, render_integer, text_equals, text_equals_ignoring_case};

#[test]
fn integers_render_in_decimal() {
    assert_eq!(render_integer(0), "0");
    assert_eq!(render_integer(7), "7");
    assert_eq!(render_integer(10), "10");
    assert_eq!(render_integer(42), "42");
    assert_eq!(render_integer(1005), "1005");
    assert_eq!(render_integer(9_007_199_254_740_993), "9007199254740993");
}

#[test]
fn negative_integers_render_with_a_sign() {
    assert_eq!(render_integer(-1), "-1");
    assert_eq!(render_integer(-5), "-5");
    assert_eq!(render_integer(-120), "-120");
}

#[test]
fn the_extreme_integers_render() {
    assert_eq!(render_integer(i64::MAX), "9223372036854775807");
    assert_eq!(render_integer(i64::MIN), "-9223372036854775808");
    assert_eq!(render_integer(i64::MIN + 1), "-9223372036854775807");
}

#[test]
fn rendering_agrees_with_the_standard_library() {
    let mut n: i64 = -3;
    for _ in 0..40 {
        assert_eq!(render_integer(n), n.to_string());
        n = n.wrapping_mul(7).wrapping_add(11);
    }
}

#[test]
fn texts_compare_by_their_characters() {
    assert!(text_equals("", ""));
    assert!(text_equals("in_progress", "in_progress"));
    assert!(!text_equals("in_progress", "in-progress"));
    assert!(!text_equals("X", "x"));
    assert!(!text_equals("draw", "dra"));
    assert!(!text_equals("dra", "draw"));
    assert!(!text_equals("", "x"));
    assert!(text_equals("h\u{159}i\u{161}t\u{11b}", "h\u{159}i\u{161}t\u{11b}"));
    assert!(!text_equals("h\u{159}i", "hri"));
}

#[test]
fn join_appends_the_tail() {
    assert_eq!(join("Position ", "4"), "Position 4");
    assert_eq!(join("", "tail"), "tail");
    assert_eq!(join("head", ""), "head");
    assert_eq!(join("", ""), "");
}

#[test]
fn texts_compare_without_regard_to_ascii_case() {
    assert!(text_equals_ignoring_case("", ""));
    assert!(text_equals_ignoring_case("draw", "DRAW"));
    assert!(text_equals_ignoring_case("Draw", "dRAW"));
    assert!(text_equals_ignoring_case("in_progress", "IN_PROGRESS"));
    assert!(!text_equals_ignoring_case("in_progress", "in-progress"));
    assert!(!text_equals_ignoring_case("draw", "dra"));
    assert!(!text_equals_ignoring_case("dra", "draw"));
    assert!(!text_equals_ignoring_case("a", "b"));
    assert!(!text_equals_ignoring_case("@", "`"));
    assert!(!text_equals_ignoring_case("[", "{"));
    assert!(text_equals_ignoring_case("Z9z", "z9Z"));
    assert!(!text_equals_ignoring_case("\u{e9}", "\u{c9}"));
}

#[test]
fn comparison_without_case_agrees_with_the_standard_library() {
    let samples = ["", "x", "X", "draw", "DrAw", "in-progress", "IN_PROGRESS", "@`", "[{", "Zz9", "\u{e9}\u{c9}"];
    for a in samples {
        for b in samples {
            assert_eq!(text_equals_ignoring_case(a, b), a.eq_ignore_ascii_case(b), "{a:?} {b:?}");
        }
    }
}
