//! Disc timecodes: minute, second and frame, 75 frames per second, from
//! 00:00:00 to 99:59:74, and their linear sector index.

use vstd::prelude::*;
use crate::bcd::{Bcd, bcd_decode, lemma_bcd_round_trip};
use crate::error::CdError;

verus! {

/// Linear index of the last address a disc can have, 99:59:74.
pub const MAX_LBA: u32 = 449999;

/// The linear index of the position (minute, second, frame).
pub open spec fn msf_to_lba(p: (nat, nat, nat)) -> int {
    (p.0 * 4500 + p.1 * 75 + p.2) as int
}

/// The (minute, second, frame) position of a linear index.
pub open spec fn lba_to_msf(i: int) -> (nat, nat, nat) {
    ((i / 4500) as nat, ((i % 4500) / 75) as nat, (i % 75) as nat)
}

/// A (minute, second, frame) triple that a timecode can hold.
pub open spec fn msf_parts_valid(p: (nat, nat, nat)) -> bool {
    p.0 <= 99 && p.1 <= 59 && p.2 <= 74
}

/// Every index of a disc, from 0 to 99:59:74, has a valid position, and
/// converting that position back gives the index again. Index 0 is 00:00:00.
pub proof fn lemma_lba_round_trip(i: int)
    requires
        0 <= i <= MAX_LBA,
    ensures
        msf_parts_valid(lba_to_msf(i)),
        msf_to_lba(lba_to_msf(i)) == i,
        lba_to_msf(0) == (0nat, 0nat, 0nat),
{
    let m = i / 4500;
    let rest = i % 4500;
    let s = rest / 75;
    let f = i % 75;
    vstd::arithmetic::div_mod::lemma_fundamental_div_mod(i, 4500);
    vstd::arithmetic::div_mod::lemma_fundamental_div_mod(rest, 75);
    assert(rest % 75 == f) by {
        vstd::arithmetic::div_mod::lemma_mod_mod(i, 75, 60);
    }
    assert(m <= 99);
    assert(s <= 59);
}

/// Converting a valid position to its index and back gives the position.
pub proof fn lemma_msf_round_trip(p: (nat, nat, nat))
    requires
        msf_parts_valid(p),
    ensures
        0 <= msf_to_lba(p) <= MAX_LBA,
        lba_to_msf(msf_to_lba(p)) == p,
{
    let i = msf_to_lba(p);
    let rest = (p.1 * 75 + p.2) as int;
    vstd::arithmetic::div_mod::lemma_fundamental_div_mod_converse(i, 4500, p.0 as int, rest);
    vstd::arithmetic::div_mod::lemma_fundamental_div_mod_converse(rest, 75, p.1 as int, p.2 as int);
    assert(i % 75 == p.2) by {
        vstd::arithmetic::div_mod::lemma_mod_mod(i, 75, 60);
    }
}

/// A disc timecode. Its view is its (minute, second, frame) value.
#[derive(Clone, Copy, Debug, PartialEq, Eq, Structural, Ord, Hash)]
pub struct Msf {
    m: Bcd,
    s: Bcd,
    f: Bcd,
}

impl View for Msf {
    type V = (nat, nat, nat);

    closed spec fn view(&self) -> (nat, nat, nat) {
        (bcd_decode(self.m@), bcd_decode(self.s@), bcd_decode(self.f@))
    }
}

impl Msf {
    #[verifier::type_invariant]
    pub open spec fn inv(self) -> bool {
        msf_parts_valid(self@)
    }

    /// The linear index of this timecode.
    pub open spec fn lba(self) -> int {
        msf_to_lba(self@)
    }

    /// Builds the timecode whose components are the given BCD numbers.
    /// Fails with `BadFormat` when the second is over 59 or the frame over 74.
    pub fn from_bcd(m: Bcd, s: Bcd, f: Bcd) -> (r: Result<Msf, CdError>)
        ensures
            r is Ok <==> (s.value() <= 59 && f.value() <= 74),
            r matches Ok(x) ==> x@ == (m.value(), s.value(), f.value()),
            r matches Err(e) ==> e is BadFormat,
    {
        let sv = s.to_binary();
        let fv = f.to_binary();
        proof {
            use_type_invariant(m);
            use_type_invariant(s);
            use_type_invariant(f);
        }
        if sv <= 59 && fv <= 74 {
            Ok(Msf { m, s, f })
        } else {
            Err(CdError::BadFormat)
        }
    }

    /// The timecode 00:00:00, the start of the disc.
    pub fn zero() -> (r: Msf)
        ensures
            r@ == (0nat, 0nat, 0nat),
    {
        let z = Bcd::zero();
        Msf { m: z, s: z, f: z }
    }

    /// The minute, in BCD.
    pub fn minute(&self) -> (r: Bcd)
        ensures
            r.value() == self@.0,
    {
        self.m
    }

    /// The second, in BCD.
    pub fn second(&self) -> (r: Bcd)
        ensures
            r.value() == self@.1,
    {
        self.s
    }

    /// The frame, in BCD.
    pub fn frame(&self) -> (r: Bcd)
        ensures
            r.value() == self@.2,
    {
        self.f
    }

    /// The three components, in BCD.
    pub fn into_bcd(&self) -> (r: (Bcd, Bcd, Bcd))
        ensures
            (r.0.value(), r.1.value(), r.2.value()) == self@,
    {
        (self.m, self.s, self.f)
    }

    /// The timecode of the zero-based linear sector index `i`. Fails with
    /// `LeadOut` when `i` is negative or past 99:59:74.
    pub fn from_lba(i: i64) -> (r: Result<Msf, CdError>)
        ensures
            r is Ok <==> 0 <= i <= MAX_LBA,
            r matches Ok(x) ==> x@ == lba_to_msf(i as int) && x.lba() == i,
            r matches Err(e) ==> e is LeadOut,
    {
        if i < 0 || i > MAX_LBA as i64 {
            return Err(CdError::LeadOut);
        }
        proof {
            lemma_lba_round_trip(i as int);
        }
        let m = (i / 4500) as u8;
        let s = ((i % 4500) / 75) as u8;
        let f = (i % 75) as u8;
        let mb = Bcd::from_binary(m);
        let sb = Bcd::from_binary(s);
        let fb = Bcd::from_binary(f);
        proof {
            lemma_bcd_round_trip(m as nat);
            lemma_bcd_round_trip(s as nat);
            lemma_bcd_round_trip(f as nat);
        }
        Ok(Msf { m: mb, s: sb, f: fb })
    }

    /// The zero-based linear sector index of this timecode.
    pub fn to_lba(&self) -> (r: i64)
        ensures
            r == self.lba(),
            0 <= r <= MAX_LBA,
    {
        proof {
            use_type_invariant(self);
        }
        let m = self.m.to_binary() as i64;
        let s = self.s.to_binary() as i64;
        let f = self.f.to_binary() as i64;
        m * 4500 + s * 75 + f
    }

    /// The timecode `frames` sectors later. Fails with `LeadOut` past 99:59:74.
    pub fn checked_add(&self, frames: u32) -> (r: Result<Msf, CdError>)
        ensures
            r is Ok <==> self.lba() + frames <= MAX_LBA,
            r matches Ok(x) ==> x.lba() == self.lba() + frames,
            r matches Err(e) ==> e is LeadOut,
    {
        let i = self.to_lba();
        Msf::from_lba(i + frames as i64)
    }

    /// The timecode `frames` sectors earlier. Fails with `LeadOut` before
    /// 00:00:00.
    pub fn checked_sub(&self, frames: u32) -> (r: Result<Msf, CdError>)
        ensures
            r is Ok <==> self.lba() >= frames,
            r matches Ok(x) ==> x.lba() == self.lba() - frames,
            r matches Err(e) ==> e is LeadOut,
    {
        let i = self.to_lba();
        Msf::from_lba(i - frames as i64)
    }
}

/// Timecodes are ordered as their linear indices are.
impl PartialOrd for Msf {
    fn partial_cmp(&self, other: &Msf) -> (r: Option<core::cmp::Ordering>) {
        let a = self.to_lba();
        let b = other.to_lba();
        if a < b {
            Some(core::cmp::Ordering::Less)
        } else if a == b {
            Some(core::cmp::Ordering::Equal)
        } else {
            Some(core::cmp::Ordering::Greater)
        }
    }
}

impl vstd::std_specs::cmp::PartialOrdSpecImpl for Msf {
    open spec fn obeys_partial_cmp_spec() -> bool {
        true
    }

    open spec fn partial_cmp_spec(&self, other: &Msf) -> Option<core::cmp::Ordering> {
        if self.lba() < other.lba() {
            Some(core::cmp::Ordering::Less)
        } else if self.lba() == other.lba() {
            Some(core::cmp::Ordering::Equal)
        } else {
            Some(core::cmp::Ordering::Greater)
        }
    }
}

} // verus!
