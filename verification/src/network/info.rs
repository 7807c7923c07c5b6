use vstd::prelude::*;
use vstd::string::StringExecFns;
use crate::text::{decimal, push_decimal};

verus! {

/// What `bytesize::ByteSize::b(bytes)` writes through `Display`.
pub uninterp spec fn byte_size_display(bytes: u64) -> Seq<char>;

/// `bytes` as a human-readable size, written by `bytesize`'s `Display` for
/// `ByteSize::b(bytes)`. The text is named by `byte_size_display`; the unit
/// rules of `bytesize` are not restated.
#[verifier::external_body]
pub(crate) fn byte_size_text(bytes: u64) -> (r: String)
    ensures
        r@ == byte_size_display(bytes),
{
    bytesize::ByteSize::b(bytes).to_string()
}

/// What a server says about itself. The age of the instance is kept as the
/// text it is written as.
pub struct ServerStats {
    pub server_name: String,
    pub version: String,
    pub users: u32,
    pub posts: u32,
    pub age: String,
    pub max_post_size: u64,
    pub max_title_size: u64,
}

/// The report of a server's statistics, one fact a line.
pub open spec fn stats_report(s: ServerStats) -> Seq<char> {
    s.server_name@ + " running Terse version "@ + s.version@ + "\n"@
        + "Users on server: "@ + decimal(s.users as nat) + "\n"@
        + "Answers on server: "@ + decimal(s.posts as nat) + "\n"@
        + "Server instance age: "@ + s.age@ + "\n"@
        + "Maximum post size: "@ + byte_size_display(s.max_post_size) + "\n"@
        + "Maximum title size: "@ + decimal(s.max_title_size as nat) + " characters\n"@
}

impl ServerStats {
    /// The statistics as they are printed.
    pub fn to_string(&self) -> (r: String)
        ensures
            r@ == stats_report(*self),
    {
        let mut r = self.server_name.clone();
        r.append(" running Terse version ");
        r.append(self.version.as_str());
        r.append("\n");
        r.append("Users on server: ");
        push_decimal(&mut r, self.users as u64);
        r.append("\n");
        r.append("Answers on server: ");
        push_decimal(&mut r, self.posts as u64);
        r.append("\n");
        r.append("Server instance age: ");
        r.append(self.age.as_str());
        r.append("\n");
        r.append("Maximum post size: ");
        let size = byte_size_text(self.max_post_size);
        r.append(size.as_str());
        r.append("\n");
        r.append("Maximum title size: ");
        push_decimal(&mut r, self.max_title_size);
        r.append(" characters\n");
        assert(r@ =~= stats_report(*self));
        r
    }
}

/// Why a URL is not taken as a Terse server.
#[derive(Debug, Clone, Copy, PartialEq, Eq, Structural)]
pub enum ServerValidityError {
    /// No contact at all: the site does not exist.
    CannotConnect,
    /// The site has no `/exists-and-is-a-terse-server` page.
    ServerIsNotATerseServer,
    /// The site answered with another status code.
    Other(u16),
}

/// What the status code of the answer to `/exists-and-is-a-terse-server`
/// says: 200 means a Terse server, 404 means some other site, and any other
/// code is reported as it is.
pub fn check_status(status: u16) -> (r: Result<(), ServerValidityError>)
    ensures
        status == 200 ==> r is Ok,
        status == 404 ==> r == Err::<(), ServerValidityError>(ServerValidityError::ServerIsNotATerseServer),
        status != 200 && status != 404 ==> r == Err::<(), ServerValidityError>(ServerValidityError::Other(status)),
{
    if status == 200 {
        Ok(())
    } else if status == 404 {
        Err(ServerValidityError::ServerIsNotATerseServer)
    } else {
        Err(ServerValidityError::Other(status))
    }
}

} // verus!
