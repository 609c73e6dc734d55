use vstd::prelude::*;
use vstd::string::StrSliceExecFns;

verus! {

/// ASCII upper-casing of one character: `a`..`z` map to `A`..`Z`, every
/// other character is unchanged.
pub open spec fn upper_char(c: char) -> char {
    if 97 <= c as u32 && c as u32 <= 122 {
        ((c as u32 - 32) as u8) as char
    } else {
        c
    }
}

/// ASCII upper-casing of a character sequence, character by character.
pub open spec fn upper_seq(s: Seq<char>) -> Seq<char> {
    s.map_values(|c: char| upper_char(c))
}

/// Relies on std's `String::push`: appends the given character to the end
/// of the string.
pub assume_specification[ String::push ](s: &mut String, ch: char)
    ensures
        final(s)@ == old(s)@.push(ch),
;

/// Relies on std's `String::pop`: removes the last character of the string
/// and returns it, or returns `None` when the string is empty.
pub assume_specification[ String::pop ](s: &mut String) -> (r: Option<char>)
    ensures
        old(s)@.len() == 0 ==> r is None && final(s)@ == old(s)@,
        old(s)@.len() > 0 ==> r == Some(old(s)@.last()) && final(s)@ == old(s)@.drop_last(),
;

/// ASCII upper-casing of a whole string.
pub fn to_upper(s: &str) -> (r: String)
    ensures
        r@ == upper_seq(s@),
{
    let n = s.unicode_len();
    let mut r = String::new();
    let mut i: usize = 0;
    while i < n
        invariant
            n == s@.len(),
            i <= n,
            r@ == upper_seq(s@.take(i as int)),
        decreases n - i,
    {
        let c = s.get_char(i);
        let u = c as u32;
        let up = if 97 <= u && u <= 122 {
            ((u - 32) as u8) as char
        } else {
            c
        };
        assert(up == upper_char(c));
        r.push(up);
        i = i + 1;
        assert(s@.take(i as int) == s@.take(i as int - 1).push(s@[i as int - 1]));
        assert(r@ =~= upper_seq(s@.take(i as int)));
    }
    assert(s@.take(n as int) == s@);
    r
}

} // verus!
