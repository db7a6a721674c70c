//! Text helpers: characters of a `str`, literal comparison, a scanner for
//! tagged fragments, and UTF-8 reading of reply bodies.
use vstd::prelude::*;
use vstd::string::StringSliceAdditionalSpecFns;

verus! {

/// The characters of `s`, in order.
pub fn chars_of(s: &str) -> (v: Vec<char>)
    ensures
        v@ == s@,
{
    let mut v: Vec<char> = Vec::new();
    for c in it: s.chars()
        invariant
            v@ == it.history(),
    {
        v.push(c);
    }
    v
}


/// Whether `s` holds the same characters as `lit`.
pub fn eq_lit(s: &String, lit: &str) -> (r: bool)
    ensures
        r == (s@ == lit@),
{
    let l = String::from_str(lit);
    *s == l
}

/// `pat` occurs in `text` at position `k`.
pub open spec fn matches_at(text: Seq<char>, pat: Seq<char>, k: int) -> bool {
    0 <= k && k + pat.len() <= text.len() && text.subrange(k, k + pat.len()) == pat
}

/// The first position at or after `k` where `pat` occurs in `text`.
pub open spec fn find_from(text: Seq<char>, pat: Seq<char>, k: int) -> Option<int>
    decreases text.len() + 1 - k,
{
    if k < 0 || k + pat.len() > text.len() {
        None
    } else if matches_at(text, pat, k) {
        Some(k)
    } else {
        find_from(text, pat, k + 1)
    }
}

/// What stands between the first `open` of `text` and the first `close` after it.
pub open spec fn tag_value(text: Seq<char>, open: Seq<char>, close: Seq<char>) -> Option<Seq<char>> {
    match find_from(text, open, 0) {
        None => None,
        Some(i) => match find_from(text, close, i + open.len()) {
            None => None,
            Some(j) => Some(text.subrange(i + open.len(), j)),
        },
    }
}

fn matches_at_exec(text: &Vec<char>, pat: &Vec<char>, k: usize) -> (r: bool)
    requires
        k + pat.len() <= text.len(),
    ensures
        r == matches_at(text@, pat@, k as int),
{
    let mut i: usize = 0;
    while i < pat.len()
        invariant
            k + pat.len() <= text.len(),
            i <= pat.len(),
            forall|m: int| 0 <= m < i ==> text@[k + m] == pat@[m],
        decreases pat.len() - i,
    {
        if text[k + i] != pat[i] {
            assert(text@.subrange(k as int, k + pat.len())[i as int] != pat@[i as int]);
            return false;
        }
        i = i + 1;
    }
    assert(text@.subrange(k as int, k + pat.len()) =~= pat@);
    true
}

/// The first position at or after `from` where `pat` occurs in `text`.
pub fn find(text: &Vec<char>, pat: &Vec<char>, from: usize) -> (r: Option<usize>)
    ensures
        r matches Some(k) ==> find_from(text@, pat@, from as int) == Some(k as int),
        r matches Some(k) ==> from <= k && k + pat.len() <= text.len(),
        r is None ==> find_from(text@, pat@, from as int) is None,
{
    if from > text.len() || pat.len() > text.len() - from {
        return None;
    }
    if pat.len() == 0 {
        assert(text@.subrange(from as int, from as int) =~= pat@);
        return Some(from);
    }
    let mut k: usize = from;
    while k <= text.len() - pat.len()
        invariant
            from <= k <= text.len() - pat.len() + 1,
            1 <= pat.len() <= text.len(),
            find_from(text@, pat@, from as int) == find_from(text@, pat@, k as int),
        decreases text.len() + 1 - k,
    {
        if matches_at_exec(text, pat, k) {
            return Some(k);
        }
        k = k + 1;
    }
    None
}

/// What stands between the first `open` of `text` and the first `close` after it.
pub fn find_tag_value(text: &str, open: &str, close: &str) -> (r: Option<String>)
    ensures
        r matches Some(v) ==> tag_value(text@, open@, close@) == Some(v@),
        r is None ==> tag_value(text@, open@, close@) is None,
{
    let t = chars_of(text);
    let o = chars_of(open);
    let c = chars_of(close);
    match find(&t, &o, 0) {
        None => None,
        Some(i) => {
            if o.len() > t.len() - i {
                return None;
            }
            let start = i + o.len();
            match find(&t, &c, start) {
                None => None,
                Some(j) => {
                    let v = text.substring_char(start, j);
                    Some(String::from_str(v))
                },
            }
        },
    }
}


/// The error of `std::str::from_utf8`; only its presence is used.
#[verifier::external_type_specification]
#[verifier::external_body]
pub struct ExUtf8Error(std::str::Utf8Error);

/// Relies on `std::str::from_utf8`: the same bytes as text where they are
/// valid UTF-8, an error where they are not.
#[verifier::external_body]
pub(crate) fn utf8_text(b: &[u8]) -> (r: Result<&str, std::str::Utf8Error>)
    ensures
        r matches Ok(s) ==> s.spec_bytes() == b@,
        r is Err ==> !vstd::utf8::valid_utf8(b@),
{
    std::str::from_utf8(b)
}

/// The text of a body where it is valid UTF-8.
pub fn body_text(b: &[u8]) -> (r: Option<&str>)
    ensures
        r matches Some(s) ==> vstd::utf8::valid_utf8(b@) && s@ == vstd::utf8::decode_utf8(b@),
        r is None ==> !vstd::utf8::valid_utf8(b@),
{
    match utf8_text(b) {
        Ok(s) => {
            proof {
                vstd::utf8::encode_utf8_valid_utf8(s@);
                vstd::utf8::encode_utf8_decode_utf8(s@);
            }
            Some(s)
        },
        Err(_) => None,
    }
}

} // verus!
