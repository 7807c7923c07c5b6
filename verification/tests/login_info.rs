use colored::Colorize;
use terse::network::login_info::LoginInfo;

#[test]
fn displays_email_by_default() {
    assert_eq!(
        LoginInfo::new("email".into(), "password".into()).to_string(),
        format!("{}", Colorize::red("email"))
    )
}

#[test]
fn displays_no_password_if_specified() {
    assert_eq!(
        LoginInfo::new("email".into(), "password".into()).as_string(false),
        format!("{}", Colorize::red("email"))
    )
}

#[test]
fn displays_password_if_required() {
    assert_eq!(
        LoginInfo::new("email".into(), "password".into()).as_string(true),
        format!("{} ({})", Colorize::red("email"), Colorize::blue("password"))
    )
}

