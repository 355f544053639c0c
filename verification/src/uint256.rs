//! Validation of unsigned 256-bit integers written as base-10 digit strings.
//!
//! A string is accepted iff it is non-empty, consists solely of base-10
//! digits, and denotes a value below `2^256`; the accepted value is held in
//! four 64-bit limbs, least significant first.

use vstd::prelude::*;

use crate::errors::{ConfigError, Field};

verus! {

/// `2^64`, the weight of one limb.
const LIMB_BASE: u128 = 0x1_0000_0000_0000_0000;

/// An unsigned 256-bit integer, four 64-bit limbs, least significant first.
#[derive(Clone, Copy, PartialEq, Eq, Debug)]
pub struct Uint256 {
    pub limbs: [u64; 4],
}

/// The value of four limbs, least significant first.
pub open spec fn limbs_value(l0: u64, l1: u64, l2: u64, l3: u64) -> int {
    l0 as int + l1 as int * 0x1_0000_0000_0000_0000 + l2 as int
        * 0x1_0000_0000_0000_0000_0000_0000_0000_0000 + l3 as int
        * 0x1_0000_0000_0000_0000_0000_0000_0000_0000_0000_0000_0000_0000
}

impl View for Uint256 {
    type V = nat;

    open spec fn view(&self) -> nat {
        limbs_value(self.limbs[0], self.limbs[1], self.limbs[2], self.limbs[3]) as nat
    }
}

impl Uint256 {
    /// The value of a single 64-bit word.
    pub fn from_u64(v: u64) -> (r: Uint256)
        ensures
            r@ == v as nat,
    {
        Uint256 { limbs: [v, 0, 0, 0] }
    }
}

/// Is `c` a base-10 digit?
pub open spec fn is_dec_digit(c: char) -> bool {
    '0' <= c && c <= '9'
}

/// Every character of `s` is a base-10 digit.
pub open spec fn all_dec_digits(s: Seq<char>) -> bool {
    forall|i: int| 0 <= i < s.len() ==> is_dec_digit(#[trigger] s[i])
}

/// The value denoted by a base-10 digit string.
pub open spec fn dec_value(s: Seq<char>) -> nat
    decreases s.len(),
{
    if s.len() == 0 {
        0
    } else {
        (dec_value(s.drop_last()) * 10 + ((s.last() as u32) - ('0' as u32))) as nat
    }
}

/// Acceptance: non-empty, solely base-10 digits, value below `2^256`.
pub open spec fn is_valid_uint256(s: Seq<char>) -> bool {
    s.len() > 0 && all_dec_digits(s) && dec_value(s)
        < 0x1_0000_0000_0000_0000_0000_0000_0000_0000_0000_0000_0000_0000_0000_0000_0000_0000
}

/// A longer digit prefix never denotes a smaller value.
proof fn lemma_dec_value_monotone(s: Seq<char>, i: int, j: int)
    requires
        0 <= i <= j <= s.len(),
        all_dec_digits(s),
    ensures
        dec_value(s.take(i)) <= dec_value(s.take(j)),
    decreases j - i,
{
    if i < j {
        lemma_dec_value_monotone(s, i, j - 1);
        assert(s.take(j).drop_last() =~= s.take(j - 1));
        assert(s.take(j).last() == s[j - 1]);
        assert(is_dec_digit(s[j - 1]));
        assert(dec_value(s.take(j)) == dec_value(s.take(j - 1)) * 10 + ((s.take(j).last()
            as u32) - ('0' as u32)));
    }
}

/// One step of decimal accumulation over four limbs: multiplies by ten and
/// adds one digit, reporting the carry out of the top limb.
fn mul10_add(l0: u64, l1: u64, l2: u64, l3: u64, d: u64) -> (r: (u64, u64, u64, u64, u64))
    requires
        d <= 9,
    ensures
        limbs_value(r.0, r.1, r.2, r.3) + r.4 as int
            * 0x1_0000_0000_0000_0000_0000_0000_0000_0000_0000_0000_0000_0000_0000_0000_0000_0000
            == limbs_value(l0, l1, l2, l3) * 10 + d,
        r.4 <= 9,
{
    let p0: u128 = (l0 as u128) * 10 + (d as u128);
    let n0: u64 = (p0 % LIMB_BASE) as u64;
    let c0: u64 = (p0 / LIMB_BASE) as u64;
    let p1: u128 = (l1 as u128) * 10 + (c0 as u128);
    let n1: u64 = (p1 % LIMB_BASE) as u64;
    let c1: u64 = (p1 / LIMB_BASE) as u64;
    let p2: u128 = (l2 as u128) * 10 + (c1 as u128);
    let n2: u64 = (p2 % LIMB_BASE) as u64;
    let c2: u64 = (p2 / LIMB_BASE) as u64;
    let p3: u128 = (l3 as u128) * 10 + (c2 as u128);
    let n3: u64 = (p3 % LIMB_BASE) as u64;
    let c3: u64 = (p3 / LIMB_BASE) as u64;
    proof {
        lemma_mul10_split(p0);
        lemma_mul10_split(p1);
        lemma_mul10_split(p2);
        lemma_mul10_split(p3);
    }
    (n0, n1, n2, n3, c3)
}

/// Division and remainder by the limb base recompose the dividend, and the
/// quotient of a ten-limb-sized product stays a single digit.
proof fn lemma_mul10_split(p: u128)
    requires
        p < 10 * 0x1_0000_0000_0000_0000,
    ensures
        p == (p % 0x1_0000_0000_0000_0000) + (p / 0x1_0000_0000_0000_0000)
            * 0x1_0000_0000_0000_0000,
        p / 0x1_0000_0000_0000_0000 <= 9,
        p % 0x1_0000_0000_0000_0000 < 0x1_0000_0000_0000_0000,
{
    assert(p == (p % 0x1_0000_0000_0000_0000) + (p / 0x1_0000_0000_0000_0000)
        * 0x1_0000_0000_0000_0000 && p / 0x1_0000_0000_0000_0000 <= 9 && p
        % 0x1_0000_0000_0000_0000 < 0x1_0000_0000_0000_0000) by (nonlinear_arith)
        requires
            p < 10 * 0x1_0000_0000_0000_0000,
    ;
}

/// Parses an unsigned 256-bit integer from a base-10 string: accepted iff
/// the string is non-empty, solely digits, and its value fits in 256 bits.
pub fn parse_u256(s: &str) -> (r: Result<Uint256, ConfigError>)
    ensures
        r is Ok <==> is_valid_uint256(s@),
        r matches Ok(v) ==> v@ == dec_value(s@),
        r is Err ==> r == Result::<Uint256, ConfigError>::Err(ConfigError::InvalidValue(
            Field::Chain,
        )),
{
    let len = s.unicode_len();
    if len == 0 {
        return Err(ConfigError::InvalidValue(Field::Chain));
    }
    let mut l0: u64 = 0;
    let mut l1: u64 = 0;
    let mut l2: u64 = 0;
    let mut l3: u64 = 0;
    let mut i: usize = 0;
    while i < len
        invariant
            i <= len,
            len == s@.len(),
            forall|j: int| 0 <= j < i ==> is_dec_digit(#[trigger] s@[j]),
            limbs_value(l0, l1, l2, l3) == dec_value(s@.take(i as int)),
        decreases len - i,
    {
        let c = s.get_char(i);
        if !('0' <= c && c <= '9') {
            return Err(ConfigError::InvalidValue(Field::Chain));
        }
        let d: u64 = (((c as u32) - ('0' as u32)) as u64);
        let (n0, n1, n2, n3, carry) = mul10_add(l0, l1, l2, l3, d);
        proof {
            assert(s@.take(i + 1).drop_last() =~= s@.take(i as int));
            assert(s@.take(i + 1).last() == s@[i as int]);
        }
        if carry != 0 {
            proof {
                if all_dec_digits(s@) {
                    lemma_dec_value_monotone(s@, i + 1, len as int);
                    assert(s@.take(len as int) =~= s@);
                }
            }
            return Err(ConfigError::InvalidValue(Field::Chain));
        }
        l0 = n0;
        l1 = n1;
        l2 = n2;
        l3 = n3;
        i += 1;
    }
    proof {
        assert(s@.take(len as int) =~= s@);
    }
    Ok(Uint256 { limbs: [l0, l1, l2, l3] })
}

} // verus!
