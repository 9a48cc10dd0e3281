//! Validation of the relay's numeric command-line options.

use vstd::prelude::*;
use crate::text::{
    decimal_chars, lemma_decimal_round_trip, parse_usize, unsigned_decimal, usize_parse_error_text,
};

verus! {

/// Whether `s` writes a count the relay accepts for its network dimensions:
/// an unsigned decimal number from 1 up to `usize::MAX`.
pub open spec fn is_nonzero_count(s: Seq<char>) -> bool {
    unsigned_decimal(s) is Some && 1 <= unsigned_decimal(s)->0 <= usize::MAX
}

/// Parses a count that must be at least 1 (channel and neuron counts). The
/// error is the parser's own text, or "value must be >= 1" for zero.
pub fn parse_nonzero_usize(s: &str) -> (r: Result<usize, String>)
    ensures
        r is Ok <==> is_nonzero_count(s@),
        r matches Ok(v) ==> unsigned_decimal(s@) == Some(v as nat),
        r matches Err(e) ==> e@ == if unsigned_decimal(s@) == Some(0nat) {
            "value must be >= 1"@
        } else {
            usize_parse_error_text(s@)
        },
{
    let val = match parse_usize(s) {
        Ok(v) => v,
        Err(e) => {
            return Err(e);
        },
    };
    if val == 0 {
        return Err(String::from_str("value must be >= 1"));
    }
    Ok(val)
}


/// Round trip: the decimal rendering of any count from 1 up to `usize::MAX`
/// is accepted, and `parse_nonzero_usize` gives back that count.
pub proof fn lemma_nonzero_count_round_trip(n: nat)
    requires
        1 <= n <= usize::MAX,
    ensures
        is_nonzero_count(decimal_chars(n)),
        unsigned_decimal(decimal_chars(n)) == Some(n),
{
    lemma_decimal_round_trip(n);
}

} // verus!
