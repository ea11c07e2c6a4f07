use vstd::prelude::*;

use crate::config::ValidationError;

verus! {

/// Whether a byte is an ASCII decimal digit.
pub open spec fn is_digit(b: u8) -> bool {
    48 <= b <= 57
}

/// The number that a string of decimal digits spells.
pub open spec fn decimal_value(s: Seq<u8>) -> nat
    decreases s.len(),
{
    if s.len() == 0 {
        0
    } else {
        decimal_value(s.drop_last()) * 10 + (s.last() - 48) as nat
    }
}

proof fn lemma_decimal_grows(s: Seq<u8>, i: int, j: int)
    requires
        0 <= i <= j <= s.len(),
        forall|k: int| 0 <= k < s.len() ==> is_digit(#[trigger] s[k]),
    ensures
        decimal_value(s.take(i)) <= decimal_value(s.take(j)),
    decreases j - i,
{
    if i < j {
        lemma_decimal_grows(s, i, j - 1);
        assert(s.take(j).drop_last() =~= s.take(j - 1));
    }
}

/// Reads a port number typed by the operator: one or more decimal digits whose value is at
/// most 65535. Anything else but digits is `NotANumber`; digits spelling a larger number
/// are `PortOutOfRange`. Zero is returned as it is; the update refuses it.
pub fn parse_port(text: &[u8]) -> (r: Result<u64, ValidationError>)
    ensures
        text@.len() == 0 || (exists|k: int| 0 <= k < text@.len() && !is_digit(#[trigger] text@[k]))
            ==> r == Err::<u64, ValidationError>(ValidationError::NotANumber),
        text@.len() > 0 && (forall|k: int| 0 <= k < text@.len() ==> is_digit(#[trigger] text@[k]))
            ==> r == (if decimal_value(text@) <= 65535 {
            Ok::<u64, ValidationError>(decimal_value(text@) as u64)
        } else {
            Err(ValidationError::PortOutOfRange)
        }),
{
    if text.len() == 0 {
        return Err(ValidationError::NotANumber);
    }
    let mut i: usize = 0;
    while i < text.len()
        invariant
            i <= text@.len(),
            forall|k: int| 0 <= k < i ==> is_digit(#[trigger] text@[k]),
        decreases text.len() - i,
    {
        if text[i] < 48 || text[i] > 57 {
            return Err(ValidationError::NotANumber);
        }
        i = i + 1;
    }
    let mut value: u64 = 0;
    let mut j: usize = 0;
    while j < text.len()
        invariant
            j <= text@.len(),
            forall|k: int| 0 <= k < text@.len() ==> is_digit(#[trigger] text@[k]),
            value == decimal_value(text@.take(j as int)),
            value <= 65535,
        decreases text.len() - j,
    {
        assert(text@.take(j + 1).drop_last() =~= text@.take(j as int));
        let next: u64 = value * 10 + (text[j] - 48) as u64;
        if next > 65535 {
            proof {
                lemma_decimal_grows(text@, j + 1, text@.len() as int);
                assert(text@.take(text@.len() as int) =~= text@);
            }
            return Err(ValidationError::PortOutOfRange);
        }
        value = next;
        j = j + 1;
    }
    assert(text@.take(text@.len() as int) =~= text@);
    Ok(value)
}

} // verus!
