//! Small helpers on text.

use vstd::prelude::*;
use vstd::string::StringExecFns;
use vstd::utf8::{encode_utf8, encode_utf8_decode_utf8};
use crate::types::DecodeError;

verus! {

/// Whether two strings hold the same characters.
pub fn str_eq(a: &str, b: &str) -> (same: bool)
    ensures
        same == (a@ == b@),
{
    let x: &[u8] = a.as_bytes();
    let y: &[u8] = b.as_bytes();
    proof {
        encode_utf8_decode_utf8(a@);
        encode_utf8_decode_utf8(b@);
    }
    if x.len() != y.len() {
        assert(a@ != b@) by {
            if a@ == b@ {
                assert(x@ == y@);
            }
        }
        return false;
    }
    let mut i: usize = 0;
    while i < x.len()
        invariant
            i <= x@.len(),
            x@.len() == y@.len(),
            x@ == encode_utf8(a@),
            y@ == encode_utf8(b@),
            forall|k: int| 0 <= k < i ==> x@[k] == y@[k],
        decreases x@.len() - i,
    {
        if x[i] != y[i] {
            assert(a@ != b@) by {
                if a@ == b@ {
                    assert(x@ == y@);
                }
            }
            return false;
        }
        i = i + 1;
    }
    assert(x@ =~= y@);
    true
}

/// The hexadecimal digit for `d`, in lower case.
pub open spec fn hex_char(d: u8) -> char {
    if d < 10 {
        (48 + d) as char
    } else {
        (87 + d) as char
    }
}

/// `t` in hexadecimal digits, in lower case and without leading zeros.
pub open spec fn hex_digits(t: u8) -> Seq<char> {
    if t < 16 {
        seq![hex_char(t)]
    } else {
        seq![hex_char(t / 16), hex_char(t % 16)]
    }
}

/// The hexadecimal digit for `d`.
fn hex_digit(d: u8) -> (s: &'static str)
    requires
        d < 16,
    ensures
        s@ == seq![hex_char(d)],
{
    proof {
        reveal_strlit("0");
        reveal_strlit("1");
        reveal_strlit("2");
        reveal_strlit("3");
        reveal_strlit("4");
        reveal_strlit("5");
        reveal_strlit("6");
        reveal_strlit("7");
        reveal_strlit("8");
        reveal_strlit("9");
        reveal_strlit("a");
        reveal_strlit("b");
        reveal_strlit("c");
        reveal_strlit("d");
        reveal_strlit("e");
        reveal_strlit("f");
    }
    let s: &'static str = match d {
        0 => "0",
        1 => "1",
        2 => "2",
        3 => "3",
        4 => "4",
        5 => "5",
        6 => "6",
        7 => "7",
        8 => "8",
        9 => "9",
        10 => "a",
        11 => "b",
        12 => "c",
        13 => "d",
        14 => "e",
        _ => "f",
    };
    assert(s@ =~= seq![hex_char(d)]);
    s
}

impl DecodeError {
    /// The error in words.
    pub open spec fn spec_message(self) -> Seq<char> {
        match self {
            DecodeError::Empty => "empty buffer"@,
            DecodeError::UnknownType(t) => "unknown message type: 0x"@ + hex_digits(t),
            DecodeError::OutOfBounds => "buffer too short"@,
            DecodeError::InvalidUtf8 => "invalid UTF-8"@,
        }
    }

    /// The error in words; an unknown tag is named in hexadecimal.
    pub fn message(&self) -> (text: String)
        ensures
            text@ == self.spec_message(),
    {
        match self {
            DecodeError::Empty => "empty buffer".to_owned(),
            DecodeError::UnknownType(t) => {
                let mut text: String = "unknown message type: 0x".to_owned();
                if *t >= 16 {
                    text.append(hex_digit(*t / 16));
                    text.append(hex_digit(*t % 16));
                } else {
                    text.append(hex_digit(*t));
                }
                assert(text@ =~= "unknown message type: 0x"@ + hex_digits(*t));
                text
            },
            DecodeError::OutOfBounds => "buffer too short".to_owned(),
            DecodeError::InvalidUtf8 => "invalid UTF-8".to_owned(),
        }
    }
}

} // verus!
