use crate::error::{SplitError, SplitErrorView};
use vstd::prelude::*;

verus! {

/// The bitrate that is used where none is asked for.
pub const DEFAULT_BITRATE: &'static str = "256k";

/// Whether `c` is one of the digits `0` to `9`.
pub open spec fn is_digit(c: char) -> bool {
    '0' <= c && c <= '9'
}

/// Whether `c` is a unit that may end a bitrate: `k` or `M`.
pub open spec fn is_unit(c: char) -> bool {
    c == 'k' || c == 'M'
}

/// Whether `text` holds digits and nothing else.
pub open spec fn all_digits(text: Seq<char>) -> bool {
    forall|i: int| 0 <= i < text.len() ==> is_digit(#[trigger] text[i])
}

/// The syntax of a bitrate: one or more digits, and after them at most one
/// unit, `k` or `M`.
pub open spec fn is_bitrate(text: Seq<char>) -> bool {
    if text.len() > 0 && is_unit(text.last()) {
        text.len() > 1 && all_digits(text.drop_last())
    } else {
        text.len() > 0 && all_digits(text)
    }
}

/// Accepts `value` as a bitrate exactly if it has the syntax of one.
pub fn bitrate(value: &str) -> (verdict: Result<(), SplitError>)
    ensures
        verdict is Ok <==> is_bitrate(value@),
        verdict matches Err(error) ==> error@ == SplitErrorView::ValidationError,
{
    let total = value.unicode_len();
    let mut seen: usize = 0;
    let mut unit_at_end = false;
    for c in chars: value.chars()
        invariant
            chars.seq() == value@,
            total == value@.len(),
            seen == chars.index(),
            unit_at_end ==> seen == total && seen > 0 && is_unit(value@[seen - 1]),
            forall|i: int|
                0 <= i < seen && !(unit_at_end && i == seen - 1) ==> is_digit(#[trigger] value@[i]),
    {
        let digit = '0' <= c && c <= '9';
        let unit = c == 'k' || c == 'M';
        if !digit {
            if unit && seen + 1 == total {
                unit_at_end = true;
            } else {
                proof {
                    let text = value@;
                    if is_unit(text.last()) {
                        assert(!is_digit(text.drop_last()[seen as int]));
                    }
                }
                return Err(SplitError::ValidationError);
            }
        }
        seen = seen + 1;
    }
    proof {
        let text = value@;
        if text.len() > 0 && is_unit(text.last()) {
            assert(all_digits(text.drop_last()));
        }
    }
    let digits = if unit_at_end {
        total - 1
    } else {
        total
    };
    if digits > 0 {
        Ok(())
    } else {
        Err(SplitError::ValidationError)
    }
}

/// Accepts `value` as the input file exactly if it is not empty and names
/// a file that is there. Whether it is there, the caller has looked up.
pub fn file_name(value: &str, exists: bool) -> (verdict: Result<(), SplitError>)
    ensures
        verdict is Ok <==> value@.len() > 0 && exists,
        verdict matches Err(error) ==> error@ == SplitErrorView::ValidationError,
{
    if !value.is_empty() && exists {
        Ok(())
    } else {
        Err(SplitError::ValidationError)
    }
}

/// The default bitrate has the syntax of a bitrate.
pub proof fn lemma_default_bitrate_is_valid()
    ensures
        is_bitrate(DEFAULT_BITRATE@),
{
    reveal_strlit("256k");
}

} // verus!
