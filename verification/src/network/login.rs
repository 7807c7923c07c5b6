use vstd::prelude::*;

verus! {

/// What a server answers a request to sign in with.
#[derive(Debug, Clone, Copy, PartialEq, Eq, Structural)]
pub enum LoginOption {
    /// The email is new to the server: it has sent a code to verify it.
    PleaseVerify,
    Success,
    BadPassword,
}

/// The next step of signing in.
#[derive(Debug, Clone, Copy, PartialEq, Eq, Structural)]
pub enum LoginStep {
    /// Ask the user for the code the server sent, and have the server check it.
    AskForCode,
    /// Keep the account on the server in use; where `bad_password` holds,
    /// tell the user first that the server said the password was wrong.
    Save { bad_password: bool },
    /// Tell the user the code was wrong, and keep nothing.
    RejectCode,
}

/// The step after the server answered a request to sign in: a new email is
/// verified first, and in every other case the account is kept, with a
/// warning where the server refused the password.
pub fn after_login_request(answer: LoginOption) -> (r: LoginStep)
    ensures
        r == match answer {
            LoginOption::PleaseVerify => LoginStep::AskForCode,
            LoginOption::Success => LoginStep::Save { bad_password: false },
            LoginOption::BadPassword => LoginStep::Save { bad_password: true },
        },
{
    match answer {
        LoginOption::PleaseVerify => LoginStep::AskForCode,
        LoginOption::Success => LoginStep::Save { bad_password: false },
        LoginOption::BadPassword => LoginStep::Save { bad_password: true },
    }
}

/// The step after the server checked the code: the account is kept when
/// the code was right.
pub fn after_verification(accepted: bool) -> (r: LoginStep)
    ensures
        r == if accepted { LoginStep::Save { bad_password: false } } else { LoginStep::RejectCode },
{
    if accepted {
        LoginStep::Save { bad_password: false }
    } else {
        LoginStep::RejectCode
    }
}

} // verus!
