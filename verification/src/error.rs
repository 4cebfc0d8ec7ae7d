use vstd::prelude::*;

verus! {

use vstd::string::StringExecFns;

/// The errno value that "permission denied" failures carry on Linux (the
/// value of libc's EACCES). The code of such a failure is deliberately left
/// out of the failure record; every other code is kept.
pub const PERMISSION_DENIED: i32 = 13;

/// A failure record: an optional OS error code and a human-readable message.
/// The code is absent exactly when the underlying OS error was "permission
/// denied".
#[derive(Debug)]
pub struct Error {
    pub code: Option<i32>,
    pub msg: String,
}

/// The caller-facing text of a failure record whose OS error has the given
/// descriptive text: `Error<CODE: message>` when a code is present,
/// `Error<message>` when it was suppressed.
pub open spec fn rendered(code_text: Option<Seq<char>>, msg: Seq<char>) -> Seq<char> {
    match code_text {
        Some(d) => "Error<"@ + d + ": "@ + msg + ">"@,
        None => "Error<"@ + msg + ">"@,
    }
}

impl Error {
    /// Classifies an OS failure from its errno value: a "permission denied"
    /// code is suppressed and only the message kept; every other code is
    /// retained beside the message.
    pub fn from_os(code: i32, msg: &str) -> (r: Error)
        ensures
            code == PERMISSION_DENIED ==> r.code is None,
            code != PERMISSION_DENIED ==> r.code == Some(code),
            r.msg@ == msg@,
    {
        Error {
            code: if code == PERMISSION_DENIED {
                None
            } else {
                Some(code)
            },
            msg: String::from_str(msg),
        }
    }

    /// Renders the record as the text surfaced to the caller, with the
    /// operating system's descriptive text standing for the code when one is
    /// present.
    pub fn message(&self) -> (r: String)
        ensures
            self.code is None ==> r@ == rendered(None, self.msg@),
            self.code is Some ==> (exists|d: Seq<char>| r@ == rendered(Some(d), self.msg@)),
    {
        let mut s = String::from_str("Error<");
        match &self.code {
            Some(c) => {
                let d = errno_text(*c);
                s.append(d.as_str());
                s.append(": ");
                s.append(self.msg.as_str());
                s.append(">");
                proof {
                    assert(s@ == rendered(Some(d@), self.msg@));
                    assert(exists|dd: Seq<char>| s@ == rendered(Some(dd), self.msg@));
                }
                s
            },
            None => {
                s.append(self.msg.as_str());
                s.append(">");
                s
            },
        }
    }

    /// The diagnostic for a failed step: the step's name, a colon and space,
    /// and the operating system's descriptive text for the errno value.
    pub fn diagnostic(step: &str, code: i32) -> (r: String)
        ensures
            step@.is_prefix_of(r@),
            exists|d: Seq<char>| r@ == step@ + ": "@ + d,
    {
        let mut s = String::from_str(step);
        s.append(": ");
        let d = errno_text(code);
        s.append(d.as_str());
        proof {
            assert(s@.subrange(0, step@.len() as int) =~= step@);
            assert(s@ == step@ + ": "@ + d@);
            assert(exists|dd: Seq<char>| s@ == step@ + ": "@ + dd);
        }
        s
    }
}

/// Relies on the Display of errno::Errno: the operating system's descriptive
/// text for an errno value (what strerror reports), which depends on the
/// machine and locale, so nothing is promised of it.
#[verifier::external_body]
fn errno_text(code: i32) -> String {
    format!("{}", errno::Errno(code))
}

} // verus!
