use vstd::prelude::*;

use crate::error::{AuthError, Error};

verus! {

/// How a client authenticates.
#[derive(Clone, Debug, PartialEq, Eq, Hash, PartialOrd, Ord)]
pub enum Auth {
    NoAuth,
    UserPass(String, String),
    /// Path of a cookie file whose first line is `user:password`.
    CookieFile(String),
}

/// `c` is the position of the first `:` in `s`.
pub open spec fn first_colon(s: Seq<char>, c: int) -> bool {
    &&& 0 <= c < s.len()
    &&& s[c] == ':'
    &&& forall|k: int| 0 <= k < c ==> s[k] != ':'
}

/// Splits a cookie line at its first `:` into user and password.
pub fn parse_cookie_line(line: &str) -> (r: Result<(String, String), AuthError>)
    ensures
        r is Err <==> forall|k: int| 0 <= k < line@.len() ==> line@[k] != ':',
        r matches Err(e) ==> e == AuthError::InvalidCookieFile,
        r matches Ok((user, pass)) ==> exists|c: int|
            first_colon(line@, c) && user@ == line@.subrange(0, c) && pass@ == line@.subrange(
                c + 1,
                line@.len() as int,
            ),
{
    let n = line.unicode_len();
    let mut i: usize = 0;
    while i < n
        invariant
            i <= n == line@.len(),
            forall|k: int| 0 <= k < i ==> line@[k] != ':',
        decreases n - i,
    {
        if line.get_char(i) == ':' {
            let user = line.substring_char(0, i).to_owned();
            let pass = line.substring_char(i + 1, n).to_owned();
            assert(first_colon(line@, i as int));
            return Ok((user, pass));
        }
        i = i + 1;
    }
    Err(AuthError::InvalidCookieFile)
}

/// The user name and password of an authentication method. For a cookie file,
/// `cookie_line` is the file's first line, or `None` when the file is unreadable or empty.
pub open spec fn user_pass_outcome(
    auth: Auth,
    cookie_line: Option<Seq<char>>,
    r: Result<(Option<String>, Option<String>), Error>,
) -> bool {
    match auth {
        Auth::NoAuth => r matches Ok((u, p)) && u is None && p is None,
        Auth::UserPass(user, pass) => r matches Ok((u, p)) && u == Some(user) && p == Some(pass),
        Auth::CookieFile(_) => match cookie_line {
            None => r matches Err(Error::Auth(e)) && e == AuthError::InvalidCookieFile,
            Some(line) => if forall|k: int| 0 <= k < line.len() ==> line[k] != ':' {
                r matches Err(Error::Auth(e)) && e == AuthError::InvalidCookieFile
            } else {
                r matches Ok((Some(u), Some(p))) && exists|c: int|
                    first_colon(line, c) && u@ == line.subrange(0, c) && p@ == line.subrange(
                        c + 1,
                        line.len() as int,
                    )
            },
        },
    }
}

impl Auth {
    /// The user name and password to hand to the transport. `cookie_line` is read by the
    /// caller from the cookie file, when `self` names one.
    pub fn get_user_pass(self, cookie_line: Option<&str>) -> (r: Result<
        (Option<String>, Option<String>),
        Error,
    >)
        ensures
            user_pass_outcome(
                self,
                match cookie_line {
                    Some(l) => Some(l@),
                    None => None,
                },
                r,
            ),
    {
        match self {
            Auth::NoAuth => Ok((None, None)),
            Auth::UserPass(u, p) => Ok((Some(u), Some(p))),
            Auth::CookieFile(_) => match cookie_line {
                None => Err(Error::Auth(AuthError::InvalidCookieFile)),
                Some(line) => match parse_cookie_line(line) {
                    Ok((u, p)) => Ok((Some(u), Some(p))),
                    Err(e) => Err(Error::Auth(e)),
                },
            },
        }
    }
}

} // verus!
