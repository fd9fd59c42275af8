//! Which passwords users may choose.

use vstd::prelude::*;

use crate::number::is_digit;
use crate::status::Status;
use crate::text::chars_of;

verus! {

/// `c` is a capital letter from A to Z.
pub open spec fn is_upper(c: char) -> bool {
    'A' <= c <= 'Z'
}

/// `c` is a small letter from a to z.
pub open spec fn is_lower(c: char) -> bool {
    'a' <= c <= 'z'
}

/// The password is long enough, and holds a capital letter, a small letter and
/// a digit.
pub open spec fn is_password(s: Seq<char>, min_length: nat) -> bool {
    &&& s.len() >= min_length
    &&& exists|i: int| 0 <= i < s.len() && is_upper(#[trigger] s[i])
    &&& exists|i: int| 0 <= i < s.len() && is_lower(#[trigger] s[i])
    &&& exists|i: int| 0 <= i < s.len() && is_digit(#[trigger] s[i])
}

/// Whether a user may choose the password, where it has to have `min_length`
/// characters.
pub fn validate_password(password: &str, min_length: u32) -> (r: Result<(), Status>)
    ensures
        r is Ok <==> is_password(password@, min_length as nat),
        r matches Err(e) ==> e == Status::BadRequest,
{
    let v = chars_of(password);
    let mut upper = false;
    let mut lower = false;
    let mut digit = false;
    let mut i: usize = 0;
    while i < v.len()
        invariant
            i <= v@.len(),
            v@ == password@,
            upper == exists|k: int| 0 <= k < i && is_upper(#[trigger] v@[k]),
            lower == exists|k: int| 0 <= k < i && is_lower(#[trigger] v@[k]),
            digit == exists|k: int| 0 <= k < i && is_digit(#[trigger] v@[k]),
        decreases v.len() - i,
    {
        let c = v[i];
        assert(v@[i as int] == c);
        upper = upper || ('A' <= c && c <= 'Z');
        lower = lower || ('a' <= c && c <= 'z');
        digit = digit || ('0' <= c && c <= '9');
        i = i + 1;
    }
    if v.len() >= min_length as usize && upper && lower && digit {
        Ok(())
    } else {
        Err(Status::BadRequest)
    }
}

/// A password that is long enough for one minimum is long enough for a smaller
/// one.
pub proof fn smaller_minimum_allows_more(s: Seq<char>, min_length: nat, smaller: nat)
    requires
        smaller <= min_length,
        is_password(s, min_length),
    ensures
        is_password(s, smaller),
{
}

/// A password is long enough and has a capital, a small letter and a digit; one that lacks any
/// of them is none.
pub proof fn passwords_need_every_kind(s: Seq<char>, min_length: nat, i: int, j: int, k: int)
    ensures
        s.len() < min_length ==> !is_password(s, min_length),
        (forall|x: int| 0 <= x < s.len() ==> !('A' <= (#[trigger] s[x]) <= 'Z')) ==> !is_password(s, min_length),
        (forall|x: int| 0 <= x < s.len() ==> !('a' <= (#[trigger] s[x]) <= 'z')) ==> !is_password(s, min_length),
        (forall|x: int| 0 <= x < s.len() ==> !('0' <= (#[trigger] s[x]) <= '9')) ==> !is_password(s, min_length),
        s.len() >= min_length && 0 <= i < s.len() && 'A' <= s[i] <= 'Z' && 0 <= j < s.len() && 'a' <= s[j] <= 'z'
            && 0 <= k < s.len() && '0' <= s[k] <= '9' ==> is_password(s, min_length),
{
    if s.len() >= min_length && 0 <= i < s.len() && 'A' <= s[i] <= 'Z' && 0 <= j < s.len() && 'a' <= s[j] <= 'z'
        && 0 <= k
        < s.len() && '0' <= s[k] <= '9' {
        assert(is_upper(s[i]) && is_lower(s[j]) && is_digit(s[k]));
    }
}

} // verus!
