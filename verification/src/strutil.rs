//! String checks at the C boundary.
//!
//! Every string handed to the engine crosses the boundary as a
//! NUL-terminated C string, so a Rust string with an interior NUL byte
//! cannot be passed and is rejected up front with an invalid-argument
//! error, exactly as the engine's own convention demands.

use vstd::prelude::*;

use crate::error::Error;
use crate::error::SR_ERR_INVAL_ARG;

verus! {

/// Whether the character sequence holds a NUL, which no C string can carry.
pub open spec fn spec_has_nul(s: Seq<char>) -> bool {
    exists|i: int| 0 <= i < s.len() && s[i] == '\0'
}

/// Scans a string for an interior NUL character.
pub fn str_has_nul(s: &str) -> (r: bool)
    ensures
        r == spec_has_nul(s@),
{
    let n: usize = s.unicode_len();
    let mut i: usize = 0;
    while i < n
        invariant
            n == s@.len(),
            0 <= i <= n,
            forall|j: int| 0 <= j < i ==> s@[j] != '\0',
        decreases n - i,
    {
        if s.get_char(i) == '\0' {
            return true;
        }
        i = i + 1;
    }
    false
}

/// Accepts a string for the C boundary, or rejects it with the engine's
/// invalid-argument status — exactly when it holds an interior NUL.
pub fn check_c_string(s: &str) -> (r: Result<(), Error>)
    ensures
        r is Ok <==> !spec_has_nul(s@),
        r is Err ==> r->Err_0.errcode == SR_ERR_INVAL_ARG,
{
    if str_has_nul(s) {
        Err(Error { errcode: SR_ERR_INVAL_ARG })
    } else {
        Ok(())
    }
}

/// Character-for-character string equality.
pub fn str_eq(a: &str, b: &str) -> (r: bool)
    ensures
        r == (a@ == b@),
{
    let an: usize = a.unicode_len();
    let bn: usize = b.unicode_len();
    if an != bn {
        assert(a@ != b@) by {
            assert(a@.len() != b@.len());
        }
        return false;
    }
    let mut i: usize = 0;
    while i < an
        invariant
            an == a@.len(),
            an == b@.len(),
            0 <= i <= an,
            forall|j: int| 0 <= j < i ==> a@[j] == b@[j],
        decreases an - i,
    {
        if a.get_char(i) != b.get_char(i) {
            return false;
        }
        i = i + 1;
    }
    assert(a@ =~= b@);
    true
}

} // verus!
