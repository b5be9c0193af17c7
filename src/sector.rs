//! Raw sector buffers and the format-dependent views of their payload.

use vstd::prelude::*;
use vstd::slice::slice_subrange;
use crate::bcd::{Bcd, bcd_valid, bcd_decode};
use crate::error::CdError;
use crate::msf::Msf;

verus! {

/// Size of a raw CD sector in bytes.
pub const SECTOR_SIZE: usize = 2352;

/// Number of stereo audio samples in a CD-DA sector.
pub const AUDIO_SAMPLES: usize = 588;

/// The signed 16-bit value stored little-endian in `lo`, `hi`.
pub open spec fn le_i16(lo: u8, hi: u8) -> int {
    let u = hi as int * 256 + lo as int;
    if u >= 32768 {
        u - 65536
    } else {
        u
    }
}

/// The header position held by three BCD bytes: `None` when one of them is
/// not valid BCD or the second or frame is out of range.
pub open spec fn header_position(m: u8, s: u8, f: u8) -> Option<(nat, nat, nat)> {
    if bcd_valid(m) && bcd_valid(s) && bcd_valid(f) && bcd_decode(s) <= 59 && bcd_decode(f)
        <= 74 {
        Some((bcd_decode(m), bcd_decode(s), bcd_decode(f)))
    } else {
        None
    }
}

/// A raw sector buffer, owned by the caller and filled by an image's
/// `read_sector`. Its view is its bytes.
pub struct Sector {
    data: [u8; 2352],
}

impl View for Sector {
    type V = Seq<u8>;

    closed spec fn view(&self) -> Seq<u8> {
        self.data@
    }
}

impl Sector {
    /// Every sector holds exactly `SECTOR_SIZE` bytes.
    pub proof fn lemma_len(&self)
        ensures
            self@.len() == SECTOR_SIZE,
    {
    }

    /// A zero-filled sector buffer.
    pub fn new() -> (r: Sector)
        ensures
            r@ == Seq::new(SECTOR_SIZE as nat, |i: int| 0u8),
    {
        let r = Sector { data: [0u8; 2352] };
        assert(r@ =~= Seq::new(SECTOR_SIZE as nat, |i: int| 0u8));
        r
    }

    /// The whole raw sector.
    pub fn as_bytes(&self) -> (r: &[u8; 2352])
        ensures
            r@ == self@,
    {
        &self.data
    }

    /// The whole raw sector, to be filled by a backend.
    pub fn as_mut_bytes(&mut self) -> (r: &mut [u8; 2352])
        ensures
            (*r)@ == old(self)@,
            final(self)@ == (*final(r))@,
    {
        &mut self.data
    }

    /// Overwrites the whole sector with `SECTOR_SIZE` bytes of `src`
    /// starting at `start`.
    pub fn copy_from(&mut self, src: &[u8], start: usize)
        requires
            start + SECTOR_SIZE <= src@.len(),
        ensures
            final(self)@ == src@.subrange(start as int, start + SECTOR_SIZE),
    {
        let n = src.len();
        let mut i: usize = 0;
        while i < SECTOR_SIZE
            invariant
                n == src@.len(),
                start + SECTOR_SIZE <= src@.len(),
                self.data@.len() == SECTOR_SIZE,
                i <= SECTOR_SIZE,
                forall|j: int| 0 <= j < i ==> self.data@[j] == src@[start + j],
            decreases SECTOR_SIZE - i,
        {
            self.data[i] = src[start + i];
            i = i + 1;
        }
        assert(self@ =~= src@.subrange(start as int, start + SECTOR_SIZE));
    }

    /// The 12 sync bytes of a data sector.
    pub fn sync(&self) -> (r: &[u8])
        ensures
            r@ == self@.subrange(0, 12),
    {
        slice_subrange(self.data.as_slice(), 0, 12)
    }

    /// The mode byte of a data sector's header.
    pub fn mode(&self) -> (r: u8)
        ensures
            r == self@[15],
    {
        self.data[15]
    }

    /// The position recorded in a data sector's header. Fails with
    /// `BadFormat` when its bytes are not a valid timecode.
    pub fn header_msf(&self) -> (r: Result<Msf, CdError>)
        ensures
            r is Ok <==> header_position(self@[12], self@[13], self@[14]) is Some,
            r matches Ok(x) ==> header_position(self@[12], self@[13], self@[14]) == Some(x@),
            r matches Err(e) ==> e is BadFormat,
    {
        let m = Bcd::from_bcd(self.data[12]);
        let s = Bcd::from_bcd(self.data[13]);
        let f = Bcd::from_bcd(self.data[14]);
        match (m, s, f) {
            (Ok(m), Ok(s), Ok(f)) => Msf::from_bcd(m, s, f),
            _ => Err(CdError::BadFormat),
        }
    }

    /// The 2048 bytes of user data of a Mode 1 sector.
    pub fn mode1_data(&self) -> (r: &[u8])
        ensures
            r@ == self@.subrange(16, 2064),
    {
        slice_subrange(self.data.as_slice(), 16, 2064)
    }

    /// The 8-byte subheader of a Mode 2 (CD-ROM XA or CD-i) sector.
    pub fn mode2_subheader(&self) -> (r: &[u8])
        ensures
            r@ == self@.subrange(16, 24),
    {
        slice_subrange(self.data.as_slice(), 16, 24)
    }

    /// The 2048 bytes of user data of a Mode 2 Form 1 sector.
    pub fn mode2_form1_data(&self) -> (r: &[u8])
        ensures
            r@ == self@.subrange(24, 2072),
    {
        slice_subrange(self.data.as_slice(), 24, 2072)
    }

    /// The 2324 bytes of user data of a Mode 2 Form 2 sector.
    pub fn mode2_form2_data(&self) -> (r: &[u8])
        ensures
            r@ == self@.subrange(24, 2348),
    {
        slice_subrange(self.data.as_slice(), 24, 2348)
    }

    /// The stereo audio sample `index` of a CD-DA sector, as
    /// (left, right) signed 16-bit little-endian values.
    pub fn audio_sample(&self, index: usize) -> (r: (i16, i16))
        requires
            index < AUDIO_SAMPLES,
        ensures
            r.0 as int == le_i16(self@[4 * index as int], self@[4 * index as int + 1]),
            r.1 as int == le_i16(self@[4 * index as int + 2], self@[4 * index as int + 3]),
    {
        let b = 4 * index;
        let left = le_i16_of(self.data[b], self.data[b + 1]);
        let right = le_i16_of(self.data[b + 2], self.data[b + 3]);
        (left, right)
    }
}

fn le_i16_of(lo: u8, hi: u8) -> (r: i16)
    ensures
        r as int == le_i16(lo, hi),
{
    let u: i32 = hi as i32 * 256 + lo as i32;
    if u >= 32768 {
        (u - 65536) as i16
    } else {
        u as i16
    }
}

} // verus!
