//! Text marshalling: the single validation gate through which every
//! user-supplied string must pass before crossing the foreign-call boundary.
//!
//! A text is foreign-call-safe when none of its bytes is the terminator
//! byte (value 0); marshalling appends the terminator that the foreign
//! side expects and rejects texts with an embedded one, reporting the
//! byte offset of the first occurrence.

use vstd::prelude::*;
use vstd::string::StrSliceExecFns;
use vstd::string::StringExecFns;
use vstd::string::StringSliceAdditionalSpecFns;

use crate::error::is_invalid_args;
use crate::error::Error;

verus! {

/// Whether a byte sequence contains a terminator byte (value 0).
pub open spec fn has_nul(bytes: Seq<u8>) -> bool {
    exists|i: int| 0 <= i < bytes.len() && bytes[i] == 0
}

/// The offset of the first terminator byte (value 0) of a byte sequence;
/// meaningful only when `has_nul` holds of it.
pub open spec fn first_nul(bytes: Seq<u8>) -> int
    decreases bytes.len(),
{
    if bytes.len() == 0 {
        0
    } else if bytes[0] == 0 {
        0
    } else {
        1 + first_nul(bytes.drop_first())
    }
}

proof fn lemma_first_nul_at(bytes: Seq<u8>, i: int)
    requires
        0 <= i < bytes.len(),
        bytes[i] == 0,
        forall|j: int| 0 <= j < i ==> bytes[j] != 0,
    ensures
        first_nul(bytes) == i,
    decreases i,
{
    if i > 0 {
        lemma_first_nul_at(bytes.drop_first(), i - 1);
    }
}

/// Finds the byte offset of the first terminator byte (value 0), if any.
pub fn find_nul(bytes: &[u8]) -> (res: Option<usize>)
    ensures
        match res {
            Some(i) => {
                &&& i < bytes@.len()
                &&& bytes@[i as int] == 0
                &&& forall|j: int| 0 <= j < i ==> bytes@[j] != 0
                &&& i == first_nul(bytes@)
            },
            None => !has_nul(bytes@),
        },
{
    let mut i: usize = 0;
    while i < bytes.len()
        invariant
            i <= bytes@.len(),
            forall|j: int| 0 <= j < i ==> bytes@[j] != 0,
        decreases bytes@.len() - i,
    {
        if bytes[i] == 0 {
            proof {
                lemma_first_nul_at(bytes@, i as int);
            }
            return Some(i);
        }
        i += 1;
    }
    None
}

/// Reports whether the text contains a terminator byte (value 0).
pub fn contains_nul(text: &str) -> (res: bool)
    ensures
        res == has_nul(text.spec_bytes()),
{
    find_nul(text.as_bytes()).is_some()
}

/// The character of a single decimal digit.
pub open spec fn decimal_digit(d: int) -> char {
    if d == 0 {
        '0'
    } else if d == 1 {
        '1'
    } else if d == 2 {
        '2'
    } else if d == 3 {
        '3'
    } else if d == 4 {
        '4'
    } else if d == 5 {
        '5'
    } else if d == 6 {
        '6'
    } else if d == 7 {
        '7'
    } else if d == 8 {
        '8'
    } else {
        '9'
    }
}

/// The decimal rendering of a natural number, most significant digit first.
pub open spec fn spec_decimal(n: nat) -> Seq<char>
    decreases n,
{
    if n < 10 {
        seq![decimal_digit(n as int)]
    } else {
        spec_decimal(n / 10).push(decimal_digit((n % 10) as int))
    }
}

/// Appends the decimal rendering of `n` to `s`.
pub fn push_decimal(s: &mut String, n: u64)
    ensures
        final(s)@ == old(s)@ + spec_decimal(n as nat),
    decreases n,
{
    let ghost prior: Seq<char> = s@;
    if n >= 10 {
        push_decimal(s, n / 10);
    }
    let d: u64 = n % 10;
    let digit: &str = if d == 0 {
        "0"
    } else if d == 1 {
        "1"
    } else if d == 2 {
        "2"
    } else if d == 3 {
        "3"
    } else if d == 4 {
        "4"
    } else if d == 5 {
        "5"
    } else if d == 6 {
        "6"
    } else if d == 7 {
        "7"
    } else if d == 8 {
        "8"
    } else {
        "9"
    };
    proof {
        reveal_strlit("0");
        reveal_strlit("1");
        reveal_strlit("2");
        reveal_strlit("3");
        reveal_strlit("4");
        reveal_strlit("5");
        reveal_strlit("6");
        reveal_strlit("7");
        reveal_strlit("8");
        reveal_strlit("9");
        assert(digit@ =~= seq![decimal_digit(d as int)]);
    }
    s.append(digit);
    proof {
        assert(s@ =~= prior + spec_decimal(n as nat));
    }
}

/// The decimal rendering of an integer: a sign, when it is negative,
/// followed by the digits of its magnitude.
pub open spec fn spec_decimal_signed(n: int) -> Seq<char> {
    if n < 0 {
        seq!['-'] + spec_decimal((-n) as nat)
    } else {
        spec_decimal(n as nat)
    }
}

/// Appends the decimal rendering of `n` to `s`, with a sign when it is
/// negative.
pub fn push_decimal_signed(s: &mut String, n: i64)
    ensures
        final(s)@ == old(s)@ + spec_decimal_signed(n as int),
{
    let ghost prior: Seq<char> = s@;
    if n < 0 {
        s.append("-");
        proof {
            reveal_strlit("-");
            assert(s@ =~= prior + seq!['-']);
        }
        let magnitude: u64 = (-(n as i128)) as u64;
        push_decimal(s, magnitude);
        proof {
            assert(s@ =~= prior + spec_decimal_signed(n as int));
        }
    } else {
        push_decimal(s, n as u64);
    }
}

/// The rejection message for a text whose first terminator byte sits at the
/// given byte offset.
pub open spec fn nul_msg_at(offset: nat) -> Seq<char> {
    "cannot contains null bytes (0 byte). Null byte found at "@ + spec_decimal(offset)
}

/// Marshals a user-supplied text into the foreign-call-safe representation:
/// the text's bytes with the terminator byte appended. Fails with an
/// invalid-arguments error naming `field_name` when the text holds an
/// embedded terminator byte, reporting the byte offset of the first one.
pub fn marshal(field_name: &str, text: &str) -> (res: Result<Vec<u8>, Error>)
    ensures
        match res {
            Ok(buf) => {
                &&& !has_nul(text.spec_bytes())
                &&& buf@ == text.spec_bytes().push(0u8)
            },
            Err(e) => {
                &&& has_nul(text.spec_bytes())
                &&& is_invalid_args(
                    e,
                    field_name@,
                    nul_msg_at(first_nul(text.spec_bytes()) as nat),
                )
            },
        },
{
    match find_nul(text.as_bytes()) {
        Some(i) => {
            let mut msg = "cannot contains null bytes (0 byte). Null byte found at ".to_owned();
            push_decimal(&mut msg, i as u64);
            Err(Error::new_invalid_arguments(field_name, msg.as_str()))
        },
        None => {
            let mut buf = text.as_bytes_vec();
            buf.push(0);
            Ok(buf)
        },
    }
}

} // verus!
