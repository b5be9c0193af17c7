//! Binary-coded decimal bytes: one decimal value in 0..=99 stored as two
//! decimal digits, one per nibble.

use vstd::prelude::*;

verus! {

/// A byte is a valid BCD encoding when both of its nibbles are decimal digits.
pub open spec fn bcd_valid(b: u8) -> bool {
    b / 16 <= 9 && b % 16 <= 9
}

/// The decimal value held by a BCD byte.
pub open spec fn bcd_decode(b: u8) -> nat {
    ((b / 16) * 10 + b % 16) as nat
}

/// The BCD byte holding the decimal value `v` (meaningful for `v <= 99`).
pub open spec fn bcd_encode(v: nat) -> u8 {
    ((v / 10) * 16 + v % 10) as u8
}

/// Decoding the encoding of a value in 0..=99 gives the value back, and the
/// encoding is always a valid BCD byte.
pub proof fn lemma_bcd_round_trip(v: nat)
    requires
        v <= 99,
    ensures
        bcd_valid(bcd_encode(v)),
        bcd_decode(bcd_encode(v)) == v,
{
    let q = v / 10;
    let r = v % 10;
    let e = q * 16 + r;
    assert(q <= 9);
    assert(e <= 153) by (nonlinear_arith)
        requires
            q <= 9,
            r < 10,
            e == q * 16 + r,
    ;
    assert(bcd_encode(v) as int == e);
    vstd::arithmetic::div_mod::lemma_fundamental_div_mod_converse(e as int, 16, q as int, r as int);
    assert(v == q * 10 + r);
}

/// Error for a byte that is not a valid BCD encoding; holds the byte.
#[derive(Clone, Copy, Debug, PartialEq, Eq, Structural)]
pub struct InvalidBcd(pub u8);

/// A decimal value in 0..=99 in BCD form. Its view is the BCD byte.
#[derive(Clone, Copy, Debug, PartialEq, Eq, Structural, Ord, Hash)]
pub struct Bcd(u8);

impl View for Bcd {
    type V = u8;

    closed spec fn view(&self) -> u8 {
        self.0
    }
}

impl Bcd {
    #[verifier::type_invariant]
    pub open spec fn inv(self) -> bool {
        bcd_valid(self@)
    }

    /// The decimal value of this BCD number.
    pub open spec fn value(self) -> nat {
        bcd_decode(self@)
    }

    /// Builds a `Bcd` from its raw byte, which must hold a decimal digit in
    /// each nibble.
    pub fn from_bcd(b: u8) -> (r: Result<Bcd, InvalidBcd>)
        ensures
            r is Ok <==> bcd_valid(b),
            r matches Ok(x) ==> x@ == b,
            r matches Err(e) ==> e.0 == b,
    {
        if b / 16 <= 9 && b % 16 <= 9 {
            Ok(Bcd(b))
        } else {
            Err(InvalidBcd(b))
        }
    }

    /// Builds the `Bcd` holding the decimal value `v`.
    pub fn from_binary(v: u8) -> (r: Bcd)
        requires
            v <= 99,
        ensures
            r@ == bcd_encode(v as nat),
            r.value() == v,
    {
        proof {
            lemma_bcd_round_trip(v as nat);
        }
        Bcd((v / 10) * 16 + v % 10)
    }

    /// The decimal value, in 0..=99.
    pub fn to_binary(&self) -> (r: u8)
        ensures
            r as nat == bcd_decode(self@),
            r <= 99,
    {
        proof {
            use_type_invariant(self);
        }
        (self.0 / 16) * 10 + self.0 % 16
    }

    /// The raw BCD byte.
    pub fn bcd(&self) -> (r: u8)
        ensures
            r == self@,
    {
        self.0
    }

    /// The BCD number zero.
    pub fn zero() -> (r: Bcd)
        ensures
            r@ == 0,
            r.value() == 0,
    {
        Bcd(0)
    }
}

/// BCD numbers are ordered by their decimal values.
impl PartialOrd for Bcd {
    fn partial_cmp(&self, other: &Bcd) -> (r: Option<core::cmp::Ordering>) {
        let a = self.to_binary();
        let b = other.to_binary();
        if a < b {
            Some(core::cmp::Ordering::Less)
        } else if a == b {
            Some(core::cmp::Ordering::Equal)
        } else {
            Some(core::cmp::Ordering::Greater)
        }
    }
}

impl vstd::std_specs::cmp::PartialOrdSpecImpl for Bcd {
    open spec fn obeys_partial_cmp_spec() -> bool {
        true
    }

    open spec fn partial_cmp_spec(&self, other: &Bcd) -> Option<core::cmp::Ordering> {
        if self.value() < other.value() {
            Some(core::cmp::Ordering::Less)
        } else if self.value() == other.value() {
            Some(core::cmp::Ordering::Equal)
        } else {
            Some(core::cmp::Ordering::Greater)
        }
    }
}

} // verus!
