//! The `application/x-www-form-urlencoded` codec of request and response bodies,
//! and lookups in decoded key/value pairs.
use vstd::prelude::*;
use crate::types::pairs_view;

verus! {

/// The error of `serde_urlencoded::from_bytes`; only its presence is used.
#[verifier::external_type_specification]
#[verifier::external_body]
pub struct ExFormDecodeError(serde_urlencoded::de::Error);

/// The error of `serde_urlencoded::to_string`; only its presence is used.
#[verifier::external_type_specification]
#[verifier::external_body]
pub struct ExFormEncodeError(serde_urlencoded::ser::Error);

/// The key/value pairs, in order, that `serde_urlencoded::from_bytes` decodes
/// from a body; `None` where it refuses the body.
pub uninterp spec fn form_decoded(b: Seq<u8>) -> Option<Seq<(Seq<char>, Seq<char>)>>;

/// The body that `serde_urlencoded::to_string` writes for a list of key/value
/// pairs; `None` where it refuses them.
pub uninterp spec fn form_encoded(pairs: Seq<(Seq<char>, Seq<char>)>) -> Option<Seq<char>>;

/// Relies on `serde_urlencoded::from_bytes` into `Vec<(String, String)>`: the
/// percent-decoded pairs of `key=value&...`, in order; the result depends on
/// the bytes alone.
#[verifier::external_body]
pub(crate) fn decode_pairs(b: &[u8]) -> (r: Result<Vec<(String, String)>, serde_urlencoded::de::Error>)
    ensures
        r matches Ok(v) ==> form_decoded(b@) == Some(pairs_view(v@)),
        r is Err ==> form_decoded(b@) is None,
{
    serde_urlencoded::from_bytes::<Vec<(String, String)>>(b)
}

/// Relies on `serde_urlencoded::to_string` on a slice of string pairs: the
/// percent-encoded `key=value&...` body; the result depends on the pairs alone.
#[verifier::external_body]
pub(crate) fn encode_pairs(pairs: &Vec<(String, String)>) -> (r: Result<String, serde_urlencoded::ser::Error>)
    ensures
        r matches Ok(s) ==> form_encoded(pairs_view(pairs@)) == Some(s@),
        r is Err ==> form_encoded(pairs_view(pairs@)) is None,
{
    serde_urlencoded::to_string(pairs.as_slice())
}

/// The value of the first pair whose key is `key`.
pub open spec fn lookup(pairs: Seq<(Seq<char>, Seq<char>)>, key: Seq<char>) -> Option<Seq<char>>
    decreases pairs.len(),
{
    if pairs.len() == 0 {
        None
    } else if pairs[0].0 == key {
        Some(pairs[0].1)
    } else {
        lookup(pairs.drop_first(), key)
    }
}

/// The value of the first pair whose key is `key`.
pub fn first_value(pairs: &Vec<(String, String)>, key: &str) -> (r: Option<String>)
    ensures
        r matches Some(v) ==> lookup(pairs_view(pairs@), key@) == Some(v@),
        r is None ==> lookup(pairs_view(pairs@), key@) is None,
{
    let k = String::from_str(key);
    let ghost pv = pairs_view(pairs@);
    let mut i: usize = 0;
    assert(pv.subrange(0, pv.len() as int) =~= pv);
    while i < pairs.len()
        invariant
            i <= pairs.len(),
            k@ == key@,
            pv == pairs_view(pairs@),
            lookup(pv, key@) == lookup(pv.subrange(i as int, pv.len() as int), key@),
        decreases pairs.len() - i,
    {
        let ghost rest = pv.subrange(i as int, pv.len() as int);
        assert(rest.drop_first() =~= pv.subrange(i + 1, pv.len() as int));
        if pairs[i].0 == k {
            return Some(pairs[i].1.clone());
        }
        i = i + 1;
    }
    None
}

/// Adds the pair `(key, value)` at the end of `v`.
pub fn push_field(v: &mut Vec<(String, String)>, key: &str, value: &String)
    ensures
        pairs_view(final(v)@) == pairs_view(old(v)@).push((key@, value@)),
{
    v.push((String::from_str(key), value.clone()));
    assert(pairs_view(final(v)@) =~= pairs_view(old(v)@).push((key@, value@)));
}

/// The pair `(key, value)` where a value is present, else nothing.
pub open spec fn opt_field(key: Seq<char>, value: Option<String>) -> Seq<(Seq<char>, Seq<char>)> {
    match value {
        Some(s) => seq![(key, s@)],
        None => Seq::empty(),
    }
}

/// Adds the pair `(key, value)` at the end of `v` where a value is present.
pub fn push_opt_field(v: &mut Vec<(String, String)>, key: &str, value: &Option<String>)
    ensures
        pairs_view(final(v)@) == pairs_view(old(v)@) + opt_field(key@, *value),
{
    match value {
        Some(s) => push_field(v, key, s),
        None => {},
    }
    assert(pairs_view(final(v)@) =~= pairs_view(old(v)@) + opt_field(key@, *value));
}

/// Adds the pairs of `w` at the end of `v`.
pub fn extend_fields(v: &mut Vec<(String, String)>, w: Vec<(String, String)>)
    ensures
        pairs_view(final(v)@) == pairs_view(old(v)@) + pairs_view(w@),
{
    let mut w = w;
    let ghost w0 = w@;
    v.append(&mut w);
    assert(pairs_view(final(v)@) =~= pairs_view(old(v)@) + pairs_view(w0));
}

} // verus!
