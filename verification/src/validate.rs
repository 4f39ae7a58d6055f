//! Input validation: a candidate CEP must be non-empty, all decimal
//! digits, and exactly eight characters long, checked in that order.

use vstd::prelude::*;
use crate::num::all_digits;
use crate::num::is_digit_char;
use crate::types::CepError;

verus! {

/// A well-formed CEP: exactly eight decimal digits.
pub open spec fn is_valid_cep(s: Seq<char>) -> bool {
    s.len() == 8 && all_digits(s)
}

/// The reason `validate_cep` gives for a rejected candidate: the empty
/// check comes first, then the digit check, then the length check.
pub open spec fn rejection_reason(s: Seq<char>) -> Seq<char> {
    if s.len() == 0 {
        "empty"@
    } else if !all_digits(s) {
        "non-digit characters"@
    } else {
        "wrong length"@
    }
}

/// Accept exactly the well-formed candidates; reject the rest with
/// `InvalidInput` naming the first check that failed.
pub fn validate_cep(cep: &str) -> (r: Result<(), CepError>)
    ensures
        r is Ok <==> is_valid_cep(cep@),
        r matches Err(e) ==> (e matches CepError::InvalidInput(m) && m@ == rejection_reason(cep@)),
{
    let n = cep.unicode_len();
    if n == 0 {
        return Err(CepError::InvalidInput(String::from_str("empty")));
    }
    let mut i: usize = 0;
    while i < n
        invariant
            0 <= i <= n,
            n == cep@.len(),
            all_digits(cep@.take(i as int)),
        decreases n - i,
    {
        let c = cep.get_char(i);
        let u = c as u32;
        if u < 48 || u > 57 {
            proof {
                assert(cep@[i as int] == c);
                assert(!is_digit_char(c));
            }
            return Err(CepError::InvalidInput(String::from_str("non-digit characters")));
        }
        proof {
            assert(cep@.take(i + 1).drop_last() =~= cep@.take(i as int));
            assert(is_digit_char(cep@.take(i + 1).last()));
            assert(all_digits(cep@.take(i + 1)));
        }
        i = i + 1;
    }
    proof {
        assert(cep@.take(n as int) =~= cep@);
    }
    if n != 8 {
        return Err(CepError::InvalidInput(String::from_str("wrong length")));
    }
    Ok(())
}

} // verus!
