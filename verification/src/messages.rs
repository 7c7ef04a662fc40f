//! The payload of an event, and its two conversions at the protocol boundary:
//! to a display string and to a 32-bit integer.
//!
//! A float payload is carried as the bit pattern of an IEEE-754 single, so
//! that everything decided about it here is integer arithmetic.

use crate::text::{
    append_nat, i32_to_string, int_text, integer_part, lemma_integer_part_int_text, nat_text,
};
use vstd::arithmetic::power2::{lemma2_to64, lemma_pow2_strictly_increases, lemma_pow2_unfold, pow2};
use vstd::prelude::*;
use vstd::std_specs::convert::FromSpecImpl;
use vstd::string::*;

verus! {

/// Position of a parameter, a controller or a device in an event.
pub type Index = u32;

/// The tagged payload of an event.
#[derive(Debug, PartialEq)]
pub enum Value {
    /// A signed integer.
    VInt(i32),
    /// A single-precision float, as its IEEE-754 bit pattern.
    VFloat(u32),
    /// A string.
    VString(String),
    /// A pair of bytes.
    VPair((u8, u8)),
    /// A sequence of bytes.
    VVU8(Vec<u8>),
}

/// What a payload holds, as mathematical values.
pub enum ValueView {
    VInt(i32),
    VFloat(u32),
    VString(Seq<char>),
    VPair(u8, u8),
    VVU8(Seq<u8>),
}

impl View for Value {
    type V = ValueView;

    open spec fn view(&self) -> ValueView {
        match self {
            Value::VInt(i) => ValueView::VInt(*i),
            Value::VFloat(bits) => ValueView::VFloat(*bits),
            Value::VString(s) => ValueView::VString(s@),
            Value::VPair(p) => ValueView::VPair(p.0, p.1),
            Value::VVU8(v) => ValueView::VVU8(v@),
        }
    }
}

/// The sign bit of a single: set for a negative number.
pub open spec fn float_negative(bits: u32) -> bool {
    bits >= 0x8000_0000
}

/// The biased exponent of a single, 0 to 255.
pub open spec fn float_exponent(bits: u32) -> int {
    (bits as int / 0x80_0000) % 256
}

/// The 23 fraction bits of a single.
pub open spec fn float_fraction(bits: u32) -> int {
    bits as int % 0x80_0000
}

/// Whether the bit pattern is a NaN.
pub open spec fn float_is_nan(bits: u32) -> bool {
    float_exponent(bits) == 255 && float_fraction(bits) != 0
}

/// The absolute value of a single that is no NaN, rounded down to a whole
/// number. A normal number is (2^23 + fraction) * 2^(exponent - 150); zero
/// and the subnormal numbers are below one. Infinity stands as 2^128.
pub open spec fn float_magnitude(bits: u32) -> nat {
    let e = float_exponent(bits);
    let m = (0x80_0000 + float_fraction(bits)) as nat;
    if e == 0 {
        0
    } else if e == 255 {
        pow2(128)
    } else if e >= 150 {
        m * pow2((e - 150) as nat)
    } else {
        m / pow2((150 - e) as nat)
    }
}

/// The 32-bit integer of a single: the number with its fraction cut off,
/// held to the range of `i32`; zero for a NaN.
pub open spec fn float_to_i32(bits: u32) -> int {
    if float_is_nan(bits) {
        0
    } else if float_negative(bits) {
        if float_magnitude(bits) >= 0x8000_0000 {
            i32::MIN as int
        } else {
            -(float_magnitude(bits) as int)
        }
    } else {
        if float_magnitude(bits) > i32::MAX {
            i32::MAX as int
        } else {
            float_magnitude(bits) as int
        }
    }
}

/// The bytes of a sequence as decimal numerals with a comma between them.
pub open spec fn bytes_text(v: Seq<u8>) -> Seq<char>
    decreases v.len(),
{
    if v.len() == 0 {
        Seq::<char>::empty()
    } else if v.len() == 1 {
        nat_text(v[0] as nat)
    } else {
        bytes_text(v.drop_last()) + seq![','] + nat_text(v.last() as nat)
    }
}

impl ValueView {
    /// The display string of a payload. The decimal form of a float is
    /// floating-point arithmetic and is not computed here: a float displays
    /// as `float_text`, which whoever holds the float supplies.
    pub open spec fn display(self, float_text: Seq<char>) -> Seq<char> {
        match self {
            ValueView::VInt(i) => int_text(i as int),
            ValueView::VFloat(_) => float_text,
            ValueView::VString(s) => s,
            ValueView::VPair(x, y) => seq!['['] + nat_text(x as nat) + seq![','] + nat_text(
                y as nat,
            ) + seq![']'],
            ValueView::VVU8(v) => seq!['['] + bytes_text(v) + seq![']'],
        }
    }

    /// The 32-bit integer of a payload: an integer as it is, a float with
    /// its fraction cut off, zero for everything else.
    pub open spec fn to_int(self) -> int {
        match self {
            ValueView::VInt(i) => i as int,
            ValueView::VFloat(bits) => float_to_i32(bits),
            _ => 0,
        }
    }
}

/// Two to the power `k`, for a shift inside a single's significand.
fn small_pow2(k: u32) -> (p: u32)
    requires
        k <= 23,
    ensures
        p == pow2(k as nat),
        1 <= p <= 0x80_0000,
{
    let mut p: u32 = 1;
    let mut i: u32 = 0;
    proof {
        lemma2_to64();
    }
    while i < k
        invariant
            i <= k <= 23,
            p == pow2(i as nat),
            pow2(23) == 0x80_0000,
            1 <= p,
            i < 23 ==> p <= 0x40_0000,
            p <= 0x80_0000,
        decreases k - i,
    {
        proof {
            lemma_pow2_unfold((i + 1) as nat);
            if i + 1 < 22 {
                lemma_pow2_strictly_increases((i + 1) as nat, 22);
            }
            lemma2_to64();
        }
        p = p * 2;
        i = i + 1;
    }
    p
}

/// The 32-bit integer of a single given by its bit pattern: the fraction is
/// cut off, a number outside the range of `i32` becomes the nearest bound,
/// and a NaN becomes zero.
pub fn float_bits_to_i32(bits: u32) -> (r: i32)
    ensures
        r == float_to_i32(bits),
{
    let negative = bits >= 0x8000_0000;
    let e: u32 = (bits / 0x80_0000) % 256;
    let f: u32 = bits % 0x80_0000;
    proof {
        lemma2_to64();
    }
    if e == 255 {
        if f != 0 {
            return 0;
        }
        proof {
            lemma_pow2_strictly_increases(32, 128);
        }
        return if negative {
            i32::MIN
        } else {
            i32::MAX
        };
    }
    let m: u32 = 0x80_0000 + f;
    if e < 127 {
        proof {
            if e != 0 {
                let k = (150 - e) as nat;
                if k > 24 {
                    lemma_pow2_strictly_increases(24, k);
                }
                assert(pow2(k) >= 0x100_0000);
                assert(m as nat / pow2(k) == 0) by (nonlinear_arith)
                    requires
                        m < 0x100_0000,
                        pow2(k) >= 0x100_0000,
                ;
            }
        }
        return 0;
    }
    if e >= 158 {
        proof {
            let k = (e - 150) as nat;
            if k > 8 {
                lemma_pow2_strictly_increases(8, k);
            }
            assert(pow2(k) >= 256);
            assert(m as nat * pow2(k) >= 0x8000_0000) by (nonlinear_arith)
                requires
                    m >= 0x80_0000,
                    pow2(k) >= 256,
            ;
        }
        return if negative {
            i32::MIN
        } else {
            i32::MAX
        };
    }
    let mag: u32 = if e >= 150 {
        let p = small_pow2(e - 150);
        proof {
            let k = (e - 150) as nat;
            if k < 7 {
                lemma_pow2_strictly_increases(k, 7);
            }
            assert(p <= 128);
            assert(m * p < 0x8000_0000) by (nonlinear_arith)
                requires
                    m < 0x100_0000,
                    p <= 128,
            ;
        }
        m * p
    } else {
        let p = small_pow2(150 - e);
        assert(m / p <= m) by (nonlinear_arith)
            requires
                p >= 1,
        ;
        m / p
    };
    assert(mag == float_magnitude(bits));
    if negative {
        -(mag as i32)
    } else {
        mag as i32
    }
}

impl Clone for Value {
    fn clone(&self) -> (r: Self)
        ensures
            r@ == self@,
    {
        match self {
            Value::VInt(i) => Value::VInt(*i),
            Value::VFloat(bits) => Value::VFloat(*bits),
            Value::VString(s) => Value::VString(s.clone()),
            Value::VPair(p) => Value::VPair((p.0, p.1)),
            Value::VVU8(v) => Value::VVU8(v.clone()),
        }
    }
}

impl Value {
    /// The display string of the payload. For a float it is `float_text`,
    /// the decimal form that the caller rendered the float with; every other
    /// payload is written here and `float_text` is not read.
    pub fn to_string(&self, float_text: &str) -> (s: String)
        ensures
            s@ == self@.display(float_text@),
    {
        match self {
            Value::VInt(i) => i32_to_string(*i),
            Value::VFloat(_) => String::from_str(float_text),
            Value::VString(s) => s.clone(),
            Value::VPair(p) => {
                proof {
                    reveal_strlit("[");
                    reveal_strlit(",");
                    reveal_strlit("]");
                }
                let mut s = String::new();
                s.append("[");
                append_nat(&mut s, p.0 as u64);
                s.append(",");
                append_nat(&mut s, p.1 as u64);
                s.append("]");
                assert(s@ =~= seq!['['] + nat_text(p.0 as nat) + seq![','] + nat_text(p.1 as nat)
                    + seq![']']);
                s
            },
            Value::VVU8(v) => {
                proof {
                    reveal_strlit("[");
                    reveal_strlit(",");
                    reveal_strlit("]");
                }
                let mut s = String::new();
                s.append("[");
                let mut i: usize = 0;
                while i < v.len()
                    invariant
                        i <= v.len(),
                        s@ == seq!['['] + bytes_text(v@.take(i as int)),
                        ","@ == seq![','],
                    decreases v.len() - i,
                {
                    let ghost before = s@;
                    if i > 0 {
                        s.append(",");
                    }
                    append_nat(&mut s, v[i] as u64);
                    proof {
                        let next = v@.take(i + 1);
                        assert(next.drop_last() =~= v@.take(i as int));
                        assert(next.last() == v@[i as int]);
                        if i == 0 {
                            assert(bytes_text(v@.take(0)) =~= Seq::<char>::empty());
                        }
                        assert(s@ =~= seq!['['] + bytes_text(next));
                    }
                    i = i + 1;
                }
                assert(v@.take(v.len() as int) =~= v@);
                s.append("]");
                s
            },
        }
    }

    /// The 32-bit integer of the payload: an integer as it is, a float with
    /// its fraction cut off, zero for a string, a pair or a byte sequence.
    pub fn to_i32(&self) -> (r: i32)
        ensures
            r == self@.to_int(),
    {
        match self {
            Value::VInt(i) => *i,
            Value::VFloat(bits) => float_bits_to_i32(*bits),
            _ => 0,
        }
    }
}

impl From<Value> for i32 {
    fn from(v: Value) -> (r: i32) {
        v.to_i32()
    }
}

impl FromSpecImpl<Value> for i32 {
    open spec fn obeys_from_spec() -> bool {
        true
    }

    open spec fn from_spec(v: Value) -> i32 {
        v@.to_int() as i32
    }
}

/// An integer payload goes through its display string without loss: the
/// integer that the string denotes is the payload's integer, which is the
/// integer that the payload converts to.
pub proof fn law_integer_display_round_trip(i: i32, float_text: Seq<char>)
    ensures
        integer_part(ValueView::VInt(i).display(float_text)) == i,
        integer_part(ValueView::VInt(i).display(float_text)) == ValueView::VInt(i).to_int(),
{
    lemma_integer_part_int_text(i as int);
}

/// The integer of a float payload lies in the range of `i32`, has the sign
/// of the float or is zero, and is never further from zero than the float.
pub proof fn law_float_truncates_toward_zero(bits: u32)
    ensures
        i32::MIN <= float_to_i32(bits) <= i32::MAX,
        float_negative(bits) ==> float_to_i32(bits) <= 0,
        !float_negative(bits) ==> float_to_i32(bits) >= 0,
        !float_is_nan(bits) ==> (float_to_i32(bits) <= float_magnitude(bits) && -float_to_i32(bits)
            <= float_magnitude(bits)) || float_to_i32(bits) == i32::MIN,
{
}

} // verus!
