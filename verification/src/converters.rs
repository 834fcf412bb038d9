use std::num::ParseFloatError;
use vstd::prelude::*;

verus! {

/// `std::num::ParseFloatError`, opaque to the verifier.
#[verifier::external_type_specification]
#[verifier::external_body]
pub struct ExParseFloatError(ParseFloatError);

/// Why a text is not an interval of the form `(start,end)`.
#[derive(Debug)]
pub enum ConvertError {
    /// One of the two numbers could not be parsed.
    ParseFloatError(ParseFloatError),
    /// The text does not start with `(` or does not end with `)`.
    MissingParentheses,
    /// Between the parentheses there is not exactly one comma.
    InvalidFormat,
}

/// The byte `(`.
pub const OPEN: u8 = 0x28;

/// The byte `)`.
pub const CLOSE: u8 = 0x29;

/// The byte `,`.
pub const COMMA: u8 = 0x2c;

/// The text starts with `(` and ends with `)`.
pub open spec fn is_wrapped(text: Seq<u8>) -> bool {
    text.len() > 0 && text[0] == OPEN && text.last() == CLOSE
}

/// `start..end` is what is left of the text once every `(` at its start and
/// then every `)` at its end has been taken away.
pub open spec fn is_inner(text: Seq<u8>, start: int, end: int) -> bool {
    &&& 0 <= start <= end <= text.len()
    &&& forall|k: int| 0 <= k < start ==> text[k] == OPEN
    &&& start < text.len() ==> text[start] != OPEN
    &&& forall|k: int| end <= k < text.len() ==> text[k] == CLOSE
    &&& start < end ==> text[end - 1] != CLOSE
}

/// `comma` is the place of the one and only comma in `start..end`.
pub open spec fn is_only_comma(text: Seq<u8>, start: int, comma: int, end: int) -> bool {
    &&& start <= comma < end
    &&& forall|k: int| start <= k < end ==> (text[k] == COMMA <==> k == comma)
}

/// A text has one inner part only.
pub proof fn lemma_inner_is_unique(text: Seq<u8>, start: int, end: int, start2: int, end2: int)
    requires
        is_inner(text, start, end),
        is_inner(text, start2, end2),
    ensures
        start == start2,
        end == end2,
{
}

/// Finds the two halves of an interval written as `(start,end)`.
///
/// On success the text of the first number is `text[start..comma]` and the
/// text of the second is `text[comma + 1..end]`, for the returned
/// `(start, comma, end)`. The text must be wrapped in parentheses, of which
/// any number may stand at either end, and must hold exactly one comma
/// between them; the numbers themselves are not looked at.
pub fn split_pair(text: &[u8]) -> (halves: Result<(usize, usize, usize), ConvertError>)
    ensures
        match halves {
            Ok((start, comma, end)) => {
                &&& is_wrapped(text@)
                &&& is_inner(text@, start as int, end as int)
                &&& is_only_comma(text@, start as int, comma as int, end as int)
            },
            Err(ConvertError::MissingParentheses) => !is_wrapped(text@),
            Err(ConvertError::InvalidFormat) => {
                &&& is_wrapped(text@)
                &&& forall|start: int, comma: int, end: int|
                    is_inner(text@, start, end) ==> !is_only_comma(text@, start, comma, end)
            },
            Err(ConvertError::ParseFloatError(_)) => false,
        },
{
    let len = text.len();
    if len == 0 || text[0] != OPEN || text[len - 1] != CLOSE {
        return Err(ConvertError::MissingParentheses);
    }
    let mut start: usize = 0;
    while start < len && text[start] == OPEN
        invariant
            start <= len == text@.len(),
            forall|k: int| 0 <= k < start ==> text@[k] == OPEN,
        decreases len - start,
    {
        start += 1;
    }
    let mut end: usize = len;
    while end > start && text[end - 1] == CLOSE
        invariant
            start <= end <= len == text@.len(),
            forall|k: int| end <= k < len ==> text@[k] == CLOSE,
        decreases end,
    {
        end -= 1;
    }

    let mut comma: Option<usize> = None;
    let mut i: usize = start;
    while i < end
        invariant
            start <= i <= end <= len == text@.len(),
            is_wrapped(text@),
            is_inner(text@, start as int, end as int),
            match comma {
                Some(at) => start <= at < i && forall|k: int|
                    start <= k < i ==> (text@[k] == COMMA <==> k == at),
                None => forall|k: int| start <= k < i ==> text@[k] != COMMA,
            },
        decreases end - i,
    {
        if text[i] == COMMA {
            if let Some(first) = comma {
                assert forall|start2: int, comma2: int, end2: int|
                    is_inner(text@, start2, end2) implies !is_only_comma(
                    text@,
                    start2,
                    comma2,
                    end2,
                ) by {
                    lemma_inner_is_unique(text@, start as int, end as int, start2, end2);
                    assert(text@[first as int] == COMMA && text@[i as int] == COMMA);
                }
                return Err(ConvertError::InvalidFormat);
            }
            comma = Some(i);
        }
        i += 1;
    }
    match comma {
        Some(at) => Ok((start, at, end)),
        None => {
            assert forall|start2: int, comma2: int, end2: int|
                is_inner(text@, start2, end2) implies !is_only_comma(
                text@,
                start2,
                comma2,
                end2,
            ) by {
                lemma_inner_is_unique(text@, start as int, end as int, start2, end2);
                if start2 <= comma2 < end2 {
                    assert(text@[comma2] != COMMA);
                }
            }
            Err(ConvertError::InvalidFormat)
        },
    }
}

} // verus!
