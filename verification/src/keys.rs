//! Cache keys: a request's identity under memoization is the uploaded file's
//! name together with the transform parameters, joined with a delimiter.
//!
//! The key deliberately omits the image content, matching the service's
//! observable behaviour: two different uploads that share a name and
//! parameters share a cache entry.

use vstd::prelude::*;
use vstd::string::StringExecFns;
use crate::numeral::decimal;
use crate::numeral::u32_to_decimal;

verus! {

/// The cache key for a request: filename, width, height and quality in
/// decimal, separated by underscores.
pub open spec fn spec_key(name: Seq<char>, width: u32, height: u32, quality: u8) -> Seq<char> {
    name + seq!['_'] + decimal(width as int) + seq!['_'] + decimal(height as int) + seq!['_']
        + decimal(quality as int)
}

fn push_underscore(s: &mut String)
    ensures
        final(s)@ == old(s)@ + seq!['_'],
{
    s.append("_");
    proof {
        reveal_strlit("_");
        assert("_"@ =~= seq!['_']);
    }
}

/// Derives the cache key identifying a request.
pub fn derive_key(filename: &str, width: u32, height: u32, quality: u8) -> (r: String)
    ensures
        r@ == spec_key(filename@, width, height, quality),
{
    let mut s = filename.to_owned();
    push_underscore(&mut s);
    let w = u32_to_decimal(width);
    s.append(w.as_str());
    push_underscore(&mut s);
    let h = u32_to_decimal(height);
    s.append(h.as_str());
    push_underscore(&mut s);
    let q = u32_to_decimal(quality as u32);
    s.append(q.as_str());
    s
}

} // verus!
