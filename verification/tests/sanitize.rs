use dialogue_bot::sanitize::sanitize;

#[test]
fn reserved_characters_get_escaped() {
    for c in "_*[]()~>#+-=|{}.!".chars() {
        let input = c.to_string();
        let expected = format!("\\{}", c);
        assert_eq!(sanitize(&input), expected);
    }
}

#[test]
fn clean_text_passes_through() {
    assert_eq!(sanitize(""), "");
    assert_eq!(sanitize("hello world"), "hello world");
    assert_eq!(sanitize("héllo wörld ☃"), "héllo wörld ☃");
    assert_eq!(sanitize("abc 123 \"quotes\" and /slashes/"), "abc 123 \"quotes\" and /slashes/");
}

#[test]
fn mixed_text_is_escaped_in_place() {
    assert_eq!(sanitize("hi_there"), "hi\\_there");
    assert_eq!(sanitize("a.b"), "a\\.b");
    assert_eq!(sanitize("**bold**"), "\\*\\*bold\\*\\*");
    assert_eq!(sanitize("x = y + z"), "x \\= y \\+ z");
}

#[test]
fn sanitize_is_not_idempotent() {
    let t = "a.b";
    let once = sanitize(t);
    assert_eq!(once, "a\\.b");
    let twice = sanitize(&once);
    assert_eq!(twice, "a\\\\.b");
    assert_ne!(twice, once);
}
