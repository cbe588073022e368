use vstd::prelude::*;

use crate::text::str_eq;

verus! {

/// The string was neither `true` nor `false`.
#[derive(Clone, Copy, Debug, PartialEq, Eq)]
pub struct BoolFormatError;

/// The literal string the upstream API uses for a boolean.
pub open spec fn spec_bool_str(v: bool) -> Seq<char> {
    if v {
        seq!['t', 'r', 'u', 'e']
    } else {
        seq!['f', 'a', 'l', 's', 'e']
    }
}

/// What a boolean string decodes to, if anything.
pub open spec fn parse_bool_spec(s: Seq<char>) -> Option<bool> {
    if s == spec_bool_str(true) {
        Some(true)
    } else if s == spec_bool_str(false) {
        Some(false)
    } else {
        None
    }
}

/// Renders a boolean as the literal string the upstream API uses.
pub fn serialize(v: bool) -> (r: String)
    ensures
        r@ == spec_bool_str(v),
{
    let r = if v {
        String::from_str("true")
    } else {
        String::from_str("false")
    };
    proof {
        reveal_strlit("true");
        reveal_strlit("false");
        assert(r@ =~= spec_bool_str(v));
    }
    r
}

/// Decodes a boolean string. Succeeds exactly on the two literal strings.
pub fn deserialize(s: &str) -> (r: Result<bool, BoolFormatError>)
    ensures
        (match r {
            Ok(b) => parse_bool_spec(s@) == Some(b),
            Err(_) => parse_bool_spec(s@) is None,
        }),
{
    proof {
        reveal_strlit("true");
        reveal_strlit("false");
        assert("true"@ =~= spec_bool_str(true));
        assert("false"@ =~= spec_bool_str(false));
    }
    if str_eq(s, "true") {
        Ok(true)
    } else if str_eq(s, "false") {
        Ok(false)
    } else {
        Err(BoolFormatError)
    }
}

/// The canonical rendering of either boolean decodes back to it.
pub proof fn lemma_bool_round_trip(v: bool)
    ensures
        parse_bool_spec(spec_bool_str(v)) == Some(v),
{
    assert(spec_bool_str(true).len() != spec_bool_str(false).len());
}

} // verus!
