use vstd::prelude::*;
use vstd::string::StringExecFns;
use vstd::string::StrSliceExecFns;
use crate::error::{DbusError, DbusErrorView};

verus! {

/// Whether `char::is_alphanumeric` holds of a character: Unicode's
/// Alphabetic or Numeric property.
pub uninterp spec fn char_is_alphanumeric(c: char) -> bool;

/// Calls `char::is_alphanumeric`. The contract claims only that the answer is
/// a function of the character alone, named `char_is_alphanumeric`; the
/// Unicode tables behind it are not stated.
#[verifier::external_body]
fn is_alphanumeric(c: char) -> (r: bool)
    ensures
        r == char_is_alphanumeric(c),
{
    c.is_alphanumeric()
}

/// Whether a character may appear in a user name: alphanumeric, `-`, `_` or `.`.
pub open spec fn username_char_allowed(c: char) -> bool {
    char_is_alphanumeric(c) || c == '-' || c == '_' || c == '.'
}

/// The longest user name accepted, in bytes of UTF-8.
pub const MAX_USERNAME_BYTES: usize = 255;

/// The length of a text in bytes of UTF-8, as `str::len` reports it.
pub open spec fn byte_len(name: Seq<char>) -> usize {
    vstd::utf8::encode_utf8(name).len() as usize
}

/// Why a user name is refused, if it is: it is empty, longer than 255 bytes,
/// or holds a character that is not allowed (checked in that order).
pub open spec fn username_problem(name: Seq<char>) -> Option<DbusErrorView> {
    if name.len() == 0 {
        Some(DbusErrorView::Failure("Username cannot be empty"@))
    } else if byte_len(name) > 255 {
        Some(DbusErrorView::Failure("Username is too long"@))
    } else if exists|i: int| 0 <= i < name.len() && !username_char_allowed(#[trigger] name[i]) {
        Some(DbusErrorView::Failure("Invalid characters in username: "@ + name))
    } else {
        None
    }
}

/// Checks a user name before it is handed to the fingerprint daemon.
pub fn validate_username(username: &str) -> (r: Result<(), DbusError>)
    ensures
        match r {
            Ok(()) => username_problem(username@) is None,
            Err(e) => username_problem(username@) == Some(e@),
        },
        r is Ok <==> {
            &&& username@.len() > 0
            &&& byte_len(username@) <= 255
            &&& forall|i: int| 0 <= i < username@.len() ==> {
                let c = #[trigger] username@[i];
                char_is_alphanumeric(c) || c == '-' || c == '_' || c == '.'
            }
        },
{
    if username.is_empty() {
        return Err(DbusError::Failure("Username cannot be empty".to_owned()));
    }
    if username.len() > MAX_USERNAME_BYTES {
        return Err(DbusError::Failure("Username is too long".to_owned()));
    }
    let n = username.unicode_len();
    let mut i: usize = 0;
    while i < n
        invariant
            n == username@.len(),
            n > 0,
            username.len() <= MAX_USERNAME_BYTES,
            i <= n,
            forall|j: int| 0 <= j < i ==> username_char_allowed(#[trigger] username@[j]),
        decreases n - i,
    {
        let c = username.get_char(i);
        if !(is_alphanumeric(c) || c == '-' || c == '_' || c == '.') {
            let mut m = "Invalid characters in username: ".to_owned();
            m.append(username);
            assert(!username_char_allowed(username@[i as int]));
            return Err(DbusError::Failure(m));
        }
        i = i + 1;
    }
    assert(!exists|j: int| 0 <= j < username@.len() && !username_char_allowed(#[trigger] username@[j]));
    Ok(())
}

} // verus!
