use terse::network::login_info::LoginInfo;

#[test]
fn login_text_with_and_without_colours() {
    let l = LoginInfo::new("me@example.org".into(), "hunter2".into());

    colored::control::set_override(false);
    assert_eq!(l.as_string(false), "me@example.org");
    assert_eq!(l.as_string(true), "me@example.org (hunter2)");
    assert_eq!(l.to_string(), "me@example.org");

    colored::control::set_override(true);
    let short = LoginInfo::new("a".into(), "b".into());
    assert_eq!(short.as_string(false), "\u{1b}[31ma\u{1b}[0m");
    assert_eq!(short.as_string(true), "\u{1b}[31ma\u{1b}[0m (\u{1b}[34mb\u{1b}[0m)");

    colored::control::unset_override();
}
