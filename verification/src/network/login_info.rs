use vstd::prelude::*;
use vstd::string::StringExecFns;
use crate::paint::{paint_blue, paint_red, is_painting, red_code, blue_code};

verus! {

/// An account on a server: the email it is known by and its password.
pub struct LoginInfo {
    pub email: String,
    pub password: String,
}

/// How an account is shown, from its already painted email and, where the
/// password is shown, its painted password: `email` or `email (password)`.
pub open spec fn login_line(email: Seq<char>, password: Option<Seq<char>>) -> Seq<char> {
    match password {
        Some(p) => email + seq![' ', '('] + p + seq![')'],
        None => email,
    }
}

/// Whether `t` is how the account with `email` and `password` is shown, the
/// password only where `show_password` holds, with the email in red and the
/// password in blue when colours are on.
pub open spec fn is_login_text(t: Seq<char>, email: Seq<char>, password: Seq<char>, show_password: bool) -> bool {
    exists|e: Seq<char>, p: Seq<char>|
        #![trigger is_painting(e, email, red_code()), is_painting(p, password, blue_code())]
        is_painting(e, email, red_code()) && is_painting(p, password, blue_code())
            && t == login_line(e, if show_password { Some(p) } else { None })
}

/// Writes the line of an account from its painted email and painted password.
pub fn login_text(email: &str, password: Option<&str>) -> (r: String)
    ensures
        r@ == login_line(
            email@,
            match password {
                Some(p) => Some(p@),
                None => None,
            },
        ),
{
    let mut r = String::from_str(email);
    match password {
        Some(p) => {
            r.append(" (");
            r.append(p);
            r.append(")");
            proof {
                reveal_strlit(" (");
                reveal_strlit(")");
            }
        },
        None => {},
    }
    r
}

/// The email and password of an account, as plain text.
pub struct LoginInfoView {
    pub email: Seq<char>,
    pub password: Seq<char>,
}

impl View for LoginInfo {
    type V = LoginInfoView;

    open spec fn view(&self) -> LoginInfoView {
        LoginInfoView { email: self.email@, password: self.password@ }
    }
}

impl LoginInfo {
    pub fn new(email: String, password: String) -> (r: LoginInfo)
        ensures
            r.email == email,
            r.password == password,
    {
        LoginInfo { email, password }
    }

    /// The email in red, and after it the password in blue between
    /// parentheses where `show_password` holds.
    pub fn as_string(&self, show_password: bool) -> (r: String)
        ensures
            is_login_text(r@, self.email@, self.password@, show_password),
    {
        let email = paint_red(self.email.as_str());
        if show_password {
            let password = paint_blue(self.password.as_str());
            let r = login_text(email.as_str(), Some(password.as_str()));
            assert(is_painting(email@, self.email@, red_code()) && is_painting(password@, self.password@, blue_code()));
            r
        } else {
            let r = login_text(email.as_str(), None);
            assert(is_painting(email@, self.email@, red_code()) && is_painting(self.password@, self.password@, blue_code()));
            r
        }
    }

    /// How the account is shown by default: without its password.
    pub fn to_string(&self) -> (r: String)
        ensures
            is_login_text(r@, self.email@, self.password@, false),
    {
        self.as_string(false)
    }
}

/// Law: without the password shown, the text of an account tells nothing
/// of the password. Whatever the password, the texts it can be are the
/// same: the email, plain or in red.
pub proof fn lemma_hidden_password_is_not_shown(t: Seq<char>, email: Seq<char>, p1: Seq<char>, p2: Seq<char>)
    ensures
        is_login_text(t, email, p1, false) == is_login_text(t, email, p2, false),
        is_login_text(t, email, p1, false) <==> is_painting(t, email, red_code()),
{
    assert(is_painting(p1, p1, blue_code()));
    assert(is_painting(p2, p2, blue_code()));
    if is_painting(t, email, red_code()) {
        assert(t == login_line(t, None));
    }
}

impl LoginInfo {
    /// Whether both accounts have the same email and the same password.
    pub fn eq(&self, other: &LoginInfo) -> (r: bool)
        ensures
            r == (self@ == other@),
    {
        self.email == other.email && self.password == other.password
    }
}

impl Clone for LoginInfo {
    fn clone(&self) -> (r: LoginInfo)
        ensures
            r@ == self@,
    {
        LoginInfo { email: self.email.clone(), password: self.password.clone() }
    }
}

} // verus!
