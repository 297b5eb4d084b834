//! Application/x-www-form-urlencoded percent-encoding of query values,
//! done by the `url` crate and named here so that URL and form-body
//! contracts can speak about it exactly.

use vstd::prelude::*;

verus! {

/// The percent-encoding that `application/x-www-form-urlencoded` applies
/// to one value: a function of the characters alone.
pub uninterp spec fn urlencode_of(s: Seq<char>) -> Seq<char>;

/// Relies on `url::form_urlencoded::byte_serialize`: percent-encodes the
/// UTF-8 bytes of the value as application/x-www-form-urlencoded; the
/// result depends on the input alone, and an empty input stays empty.
#[verifier::external_body]
pub(crate) fn form_urlencode(s: &str) -> (r: String)
    ensures
        r@ == urlencode_of(s@),
        s@.len() == 0 ==> r@.len() == 0,
{
    url::form_urlencoded::byte_serialize(s.as_bytes()).collect()
}

} // verus!
