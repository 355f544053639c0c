//! Validation of 20-byte contract addresses written as hex strings.
//!
//! An address string is accepted iff, after an optional `0x` prefix, it
//! consists of exactly 40 hexadecimal digits; the accepted value is the
//! 20-byte sequence those digits denote.

use vstd::prelude::*;

use crate::errors::{ConfigError, Field};

verus! {

/// A 20-byte contract address.
#[derive(Clone, PartialEq, Eq, Debug)]
pub struct Address {
    pub bytes: Vec<u8>,
}

impl View for Address {
    type V = Seq<u8>;

    open spec fn view(&self) -> Seq<u8> {
        self.bytes@
    }
}

impl DeepView for Address {
    type V = Seq<u8>;

    open spec fn deep_view(&self) -> Seq<u8> {
        self@
    }
}

impl Address {
    /// A well-formed address holds exactly 20 bytes.
    pub open spec fn wf(&self) -> bool {
        self.bytes@.len() == 20
    }
}

/// Is `c` a hexadecimal digit?
pub open spec fn is_hex_digit(c: char) -> bool {
    ('0' <= c && c <= '9') || ('a' <= c && c <= 'f') || ('A' <= c && c <= 'F')
}

/// The numeric value of a hexadecimal digit.
pub open spec fn hex_digit_value(c: char) -> u8
    recommends
        is_hex_digit(c),
{
    if '0' <= c && c <= '9' {
        ((c as u32) - ('0' as u32)) as u8
    } else if 'a' <= c && c <= 'f' {
        ((c as u32) - ('a' as u32) + 10) as u8
    } else {
        ((c as u32) - ('A' as u32) + 10) as u8
    }
}

/// The digits of `s` with an optional leading `0x` removed.
pub open spec fn strip_hex_prefix(s: Seq<char>) -> Seq<char> {
    if s.len() >= 2 && s[0] == '0' && s[1] == 'x' {
        s.skip(2)
    } else {
        s
    }
}

/// Acceptance: exactly 40 hexadecimal digits after the optional prefix.
pub open spec fn is_valid_address(s: Seq<char>) -> bool {
    let body = strip_hex_prefix(s);
    body.len() == 40 && forall|i: int| 0 <= i < 40 ==> is_hex_digit(#[trigger] body[i])
}

/// The byte at position `i` denoted by hex digits `2 * i` and `2 * i + 1`.
pub open spec fn spec_address_byte(body: Seq<char>, i: int) -> u8
    recommends
        0 <= i < 20,
        is_valid_address(body),
{
    (hex_digit_value(body[2 * i]) * 16 + hex_digit_value(body[2 * i + 1])) as u8
}

/// The 20 bytes denoted by a valid address string.
pub open spec fn spec_address_bytes(s: Seq<char>) -> Seq<u8> {
    Seq::new(20, |i: int| spec_address_byte(strip_hex_prefix(s), i))
}

/// The index of the first comma of `s`, or `s.len()` when there is none.
pub open spec fn first_comma_idx(s: Seq<char>) -> nat
    decreases s.len(),
{
    if s.len() == 0 {
        0
    } else if s[0] == ',' {
        0
    } else {
        (1 + first_comma_idx(s.skip(1))) as nat
    }
}

/// The addresses denoted by a comma-separated list, or `None` when any
/// segment is not a valid address.
pub open spec fn spec_parse_address_list(s: Seq<char>) -> Option<Seq<Seq<u8>>>
    decreases s.len(),
{
    let j = first_comma_idx(s) as int;
    if j >= s.len() {
        if is_valid_address(s) {
            Some(seq![spec_address_bytes(s)])
        } else {
            None
        }
    } else {
        if is_valid_address(s.take(j)) {
            match spec_parse_address_list(s.skip(j + 1)) {
                Some(rest) => Some(seq![spec_address_bytes(s.take(j))] + rest),
                None => None,
            }
        } else {
            None
        }
    }
}

/// A scan that saw no comma before `j`, and a comma or the end at `j`, found
/// the first comma index.
proof fn lemma_first_comma_at(s: Seq<char>, j: int)
    requires
        0 <= j <= s.len(),
        forall|k: int| 0 <= k < j ==> s[k] != ',',
        j == s.len() || s[j] == ',',
    ensures
        first_comma_idx(s) == j,
    decreases j,
{
    if j == 0 {
    } else {
        assert(s[0] != ',');
        lemma_first_comma_at(s.skip(1), j - 1);
    }
}

/// Parses a comma-separated list of addresses: accepted iff every segment
/// between commas is a valid address string.
pub fn parse_address_list(s: &str) -> (r: Result<Vec<Address>, ConfigError>)
    ensures
        r is Ok <==> spec_parse_address_list(s@) is Some,
        r matches Ok(v) ==> Some(v.deep_view()) == spec_parse_address_list(s@) && forall|i: int|
            0 <= i < v@.len() ==> (#[trigger] v@[i]).wf(),
        r is Err ==> r == Result::<Vec<Address>, ConfigError>::Err(ConfigError::InvalidValue(
            Field::EntryPoints,
        )),
    decreases s@.len(),
{
    let len = s.unicode_len();
    let mut j: usize = 0;
    while j < len && s.get_char(j) != ','
        invariant
            j <= len,
            len == s@.len(),
            forall|k: int| 0 <= k < j ==> s@[k] != ',',
        decreases len - j,
    {
        j += 1;
    }
    proof {
        lemma_first_comma_at(s@, j as int);
    }
    if j == len {
        let a = match parse_address(s) {
            Ok(a) => a,
            Err(e) => {
                return Err(e);
            },
        };
        let mut out: Vec<Address> = Vec::new();
        out.push(a);
        proof {
            assert(out.deep_view() =~= seq![spec_address_bytes(s@)]);
        }
        Ok(out)
    } else {
        let head = s.substring_char(0, j);
        let tail = s.substring_char(j + 1, len);
        proof {
            assert(head@ == s@.take(j as int));
            assert(tail@ == s@.skip(j + 1));
        }
        let a = match parse_address(head) {
            Ok(a) => a,
            Err(e) => {
                return Err(e);
            },
        };
        let mut rest = match parse_address_list(tail) {
            Ok(v) => v,
            Err(e) => {
                return Err(e);
            },
        };
        let ghost rest0 = rest.deep_view();
        let mut out: Vec<Address> = Vec::new();
        out.push(a);
        out.append(&mut rest);
        proof {
            assert(out.deep_view() =~= seq![spec_address_bytes(s@.take(j as int))] + rest0);
        }
        Ok(out)
    }
}

/// The numeric value of one hex digit, or `None` for any other character.
fn hex_value(c: char) -> (r: Option<u8>)
    ensures
        r is Some <==> is_hex_digit(c),
        r matches Some(v) ==> v == hex_digit_value(c) && v < 16,
{
    if '0' <= c && c <= '9' {
        Some(((c as u32) - ('0' as u32)) as u8)
    } else if 'a' <= c && c <= 'f' {
        Some(((c as u32) - ('a' as u32) + 10) as u8)
    } else if 'A' <= c && c <= 'F' {
        Some(((c as u32) - ('A' as u32) + 10) as u8)
    } else {
        None
    }
}

/// Parses an address from a string: accepted iff the string is, after an
/// optional `0x` prefix, exactly 40 hexadecimal digits.
pub fn parse_address(s: &str) -> (r: Result<Address, ConfigError>)
    ensures
        r is Ok <==> is_valid_address(s@),
        r matches Ok(a) ==> a.wf() && a@ == spec_address_bytes(s@),
        r is Err ==> r == Result::<Address, ConfigError>::Err(ConfigError::InvalidValue(
            Field::EntryPoints,
        )),
{
    let len = s.unicode_len();
    let off: usize = if len >= 2 && s.get_char(0) == '0' && s.get_char(1) == 'x' {
        2
    } else {
        0
    };
    proof {
        if off == 2 {
            assert(strip_hex_prefix(s@) =~= s@.skip(2));
        } else {
            assert(strip_hex_prefix(s@) =~= s@);
        }
    }
    if len - off != 40 {
        return Err(ConfigError::InvalidValue(Field::EntryPoints));
    }
    let ghost body = strip_hex_prefix(s@);
    let mut bytes: Vec<u8> = Vec::new();
    let mut i: usize = 0;
    while i < 20
        invariant
            i <= 20,
            off + 40 == len,
            len == s@.len(),
            off == 0 || off == 2,
            body == strip_hex_prefix(s@),
            body.len() == 40,
            forall|j: int| 0 <= j < body.len() ==> body[j] == s@[j + off],
            bytes@.len() == i,
            forall|j: int| 0 <= j < 2 * i ==> is_hex_digit(#[trigger] body[j]),
            forall|j: int| 0 <= j < i ==> bytes@[j] == spec_address_byte(body, j),
        decreases 20 - i,
    {
        let hi = match hex_value(s.get_char(off + 2 * i)) {
            Some(v) => v,
            None => {
                proof {
                    assert(body[2 * (i as int)] == s@[2 * (i as int) + off]);
                    assert(!is_hex_digit(body[2 * (i as int)]));
                }
                return Err(ConfigError::InvalidValue(Field::EntryPoints));
            },
        };
        let lo = match hex_value(s.get_char(off + 2 * i + 1)) {
            Some(v) => v,
            None => {
                proof {
                    assert(body[2 * (i as int) + 1] == s@[2 * (i as int) + 1 + off]);
                    assert(!is_hex_digit(body[2 * (i as int) + 1]));
                }
                return Err(ConfigError::InvalidValue(Field::EntryPoints));
            },
        };
        bytes.push(hi * 16 + lo);
        i += 1;
    }
    proof {
        assert forall|j: int| 0 <= j < 40 implies is_hex_digit(#[trigger] body[j]) by {
            if j % 2 == 0 {
                assert(body[2 * (j / 2)] == body[j]);
            } else {
                assert(body[2 * (j / 2) + 1] == body[j]);
            }
        }
        assert(bytes@ =~= spec_address_bytes(s@));
    }
    Ok(Address { bytes })
}

} // verus!
