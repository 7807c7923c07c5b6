use terse::network::info::{check_status, ServerStats, ServerValidityError};
use terse::network::login::{after_login_request, after_verification, LoginOption, LoginStep};

#[test]
fn stats_are_reported_a_fact_a_line() {
    let stats = ServerStats {
        server_name: "Example".to_string(),
        version: "0.3.1".to_string(),
        users: 12,
        posts: 340,
        age: "1.5".to_string(),
        max_post_size: 2048,
        max_title_size: 80,
    };
    let expected = format!(
        "Example running Terse version 0.3.1\nUsers on server: 12\nAnswers on server: 340\nServer instance age: 1.5\nMaximum post size: {}\nMaximum title size: 80 characters\n",
        bytesize::ByteSize::b(2048)
    );
    assert_eq!(stats.to_string(), expected);
}

#[test]
fn byte_sizes_are_written_by_bytesize() {
    let stats = ServerStats {
        server_name: "S".to_string(),
        version: "1".to_string(),
        users: 0,
        posts: 0,
        age: "0".to_string(),
        max_post_size: 1_000_000,
        max_title_size: 0,
    };
    let report = stats.to_string();
    let size_line = report.lines().nth(4).unwrap();
    assert_eq!(size_line, format!("Maximum post size: {}", bytesize::ByteSize::b(1_000_000)));
    assert_ne!(size_line, "Maximum post size: 1000000");
}

#[test]
fn status_codes_are_classified() {
    assert_eq!(check_status(200), Ok(()));
    assert_eq!(check_status(404), Err(ServerValidityError::ServerIsNotATerseServer));
    assert_eq!(check_status(500), Err(ServerValidityError::Other(500)));
    assert_eq!(check_status(201), Err(ServerValidityError::Other(201)));
}

#[test]
fn signing_in_steps() {
    assert_eq!(after_login_request(LoginOption::PleaseVerify), LoginStep::AskForCode);
    assert_eq!(after_login_request(LoginOption::Success), LoginStep::Save { bad_password: false });
    assert_eq!(after_login_request(LoginOption::BadPassword), LoginStep::Save { bad_password: true });
    assert_eq!(after_verification(true), LoginStep::Save { bad_password: false });
    assert_eq!(after_verification(false), LoginStep::RejectCode);
}
