//! Track layouts of a disc, as a cue sheet describes them, the address
//! checks a backend makes against them, and an in-memory image backend.

use vstd::prelude::*;
use crate::bcd::Bcd;
use crate::error::CdError;
use crate::msf::{Msf, MAX_LBA};
use crate::sector::{Sector, SECTOR_SIZE};
use crate::{Image, SessionFormat, TrackFormat};

verus! {

/// One track of a disc: its number, payload format, first absolute
/// address and length in sectors.
#[derive(Clone, Copy, Debug, PartialEq, Eq, Structural)]
pub struct Track {
    pub number: Bcd,
    pub format: TrackFormat,
    pub start: Msf,
    pub length: u32,
}

/// The layout of a disc: its session format, its tracks and its lead-out,
/// the first address past the last sector.
#[derive(Clone, Debug)]
pub struct Layout {
    pub session: SessionFormat,
    pub tracks: Vec<Track>,
    pub lead_out: Msf,
}

/// `i` is the first track of `tracks` whose number is `n`.
pub open spec fn is_first_track(tracks: Seq<Track>, n: Bcd, i: int) -> bool {
    &&& 0 <= i < tracks.len()
    &&& tracks[i].number == n
    &&& forall|j: int| 0 <= j < i ==> tracks[j].number != n
}

/// What resolving the in-track position `offset` in track `t` gives:
/// `EndOfTrack` at or past the track's length, `LeadOut` when the absolute
/// address would pass 99:59:74, else the absolute address `start + offset`.
pub open spec fn resolves_to(t: Track, offset: Msf, r: Result<Msf, CdError>) -> bool {
    if offset.lba() >= t.length {
        r matches Err(e) && e is EndOfTrack
    } else if t.start.lba() + offset.lba() > MAX_LBA {
        r matches Err(e) && e is LeadOut
    } else {
        r matches Ok(x) && x.lba() == t.start.lba() + offset.lba()
    }
}

/// Some track of `tracks` numbered `n` comes first among those so numbered.
pub proof fn lemma_first_track_exists(tracks: Seq<Track>, n: Bcd, i: int)
    requires
        0 <= i < tracks.len(),
        tracks[i].number == n,
    ensures
        exists|k: int| is_first_track(tracks, n, k),
    decreases i,
{
    if exists|j: int| 0 <= j < i && tracks[j].number == n {
        let j = choose|j: int| 0 <= j < i && tracks[j].number == n;
        lemma_first_track_exists(tracks, n, j);
    } else {
        assert(is_first_track(tracks, n, i));
    }
}

/// The length of the first track of `tracks` numbered `n`, or `None` when
/// no track has that number.
pub open spec fn first_track_length(tracks: Seq<Track>, n: Bcd) -> Option<nat> {
    if exists|k: int| is_first_track(tracks, n, k) {
        let k = choose|k: int| is_first_track(tracks, n, k);
        Some(tracks[k].length as nat)
    } else {
        None
    }
}

impl Layout {
    /// The absolute address of the position `track_msf` relative to the
    /// start of `track`. Fails with `BadTrack` when no track has that
    /// number, with `EndOfTrack` when the position is past the track's end.
    pub fn track_msf(&self, track: Bcd, track_msf: Msf) -> (r: Result<Msf, CdError>)
        ensures
            (r matches Err(e) && e is BadTrack) <==> (forall|i: int|
                0 <= i < self.tracks@.len() ==> self.tracks@[i].number != track),
            forall|i: int| #[trigger]
                is_first_track(self.tracks@, track, i) ==> resolves_to(
                    self.tracks@[i],
                    track_msf,
                    r,
                ),
    {
        let mut i: usize = 0;
        while i < self.tracks.len()
            invariant
                i <= self.tracks@.len(),
                forall|j: int| 0 <= j < i ==> self.tracks@[j].number != track,
            decreases self.tracks@.len() - i,
        {
            let t = self.tracks[i];
            if t.number == track {
                let offset = track_msf.to_lba();
                if offset >= t.length as i64 {
                    return Err(CdError::EndOfTrack);
                }
                let r = t.start.checked_add(offset as u32);
                assert(is_first_track(self.tracks@, track, i as int));
                return r;
            }
            i = i + 1;
        }
        Err(CdError::BadTrack)
    }

    /// Checks that a sector can be read at `at`: fails with `LeadOut` at or
    /// past the lead-out.
    pub fn check_address(&self, at: Msf) -> (r: Result<(), CdError>)
        ensures
            r is Err <==> at.lba() >= self.lead_out.lba(),
            r matches Err(e) ==> e is LeadOut,
    {
        if at.to_lba() >= self.lead_out.to_lba() {
            Err(CdError::LeadOut)
        } else {
            Ok(())
        }
    }
}

/// An image held in memory: a layout and the raw bytes of every sector
/// before its lead-out, in address order.
pub struct MemoryImage {
    layout: Layout,
    data: Vec<u8>,
}

impl MemoryImage {
    /// The layout of this image.
    pub closed spec fn spec_layout(&self) -> Layout {
        self.layout
    }

    /// The raw bytes of this image.
    pub closed spec fn spec_data(&self) -> Seq<u8> {
        self.data@
    }

    #[verifier::type_invariant]
    pub open spec fn inv(&self) -> bool {
        self.spec_data().len() == self.spec_layout().lead_out.lba() * SECTOR_SIZE
    }

    /// Builds an image from a layout and the bytes of its sectors. Returns
    /// `None` unless `data` holds exactly one raw sector for every address
    /// before the lead-out.
    pub fn new(layout: Layout, data: Vec<u8>) -> (r: Option<MemoryImage>)
        ensures
            r is Some <==> data@.len() == layout.lead_out.lba() * SECTOR_SIZE,
            r matches Some(img) ==> img.spec_layout() == layout && img.spec_data() == data@,
    {
        let n = layout.lead_out.to_lba() as usize;
        if data.len() / SECTOR_SIZE == n && data.len() % SECTOR_SIZE == 0 {
            Some(MemoryImage { layout, data })
        } else {
            None
        }
    }

    /// The layout of this image.
    pub fn layout(&self) -> (r: &Layout)
        ensures
            *r == self.spec_layout(),
    {
        &self.layout
    }

    /// Reads the sector at `at` into `out`. Fails with `LeadOut` at or past
    /// the lead-out, leaving `out` unchanged.
    pub fn read_sector(&mut self, out: &mut Sector, at: Msf) -> (r: Result<(), CdError>)
        ensures
            *final(self) == *old(self),
            r is Err <==> at.lba() >= old(self).spec_layout().lead_out.lba(),
            r matches Err(e) ==> e is LeadOut,
            r is Ok ==> final(out)@ == old(self).spec_data().subrange(
                at.lba() * SECTOR_SIZE,
                at.lba() * SECTOR_SIZE + SECTOR_SIZE,
            ),
    {
        proof {
            use_type_invariant(&*self);
        }
        match self.layout.check_address(at) {
            Err(e) => Err(e),
            Ok(()) => {
                let start = at.to_lba() as usize * SECTOR_SIZE;
                out.copy_from(self.data.as_slice(), start);
                Ok(())
            },
        }
    }

    /// The absolute address of the position `track_msf` in `track`, as the
    /// layout resolves it.
    pub fn track_msf(&self, track: Bcd, track_msf: Msf) -> (r: Result<Msf, CdError>)
        ensures
            (r matches Err(e) && e is BadTrack) <==> (forall|i: int|
                0 <= i < self.spec_layout().tracks@.len() ==> self.spec_layout().tracks@[i].number
                    != track),
            forall|i: int| #[trigger]
                is_first_track(self.spec_layout().tracks@, track, i) ==> resolves_to(
                    self.spec_layout().tracks@[i],
                    track_msf,
                    r,
                ),
    {
        self.layout.track_msf(track, track_msf)
    }
}

impl Image for MemoryImage {
    open spec fn spec_lead_out(&self) -> int {
        self.spec_layout().lead_out.lba()
    }

    open spec fn spec_track_length(&self, track: Bcd) -> Option<nat> {
        first_track_length(self.spec_layout().tracks@, track)
    }

    fn image_format(&self) -> String {
        String::from_str("Memory")
    }

    fn read_sector(&mut self, out: &mut Sector, at: Msf) -> (r: Result<(), CdError>) {
        MemoryImage::read_sector(self, out, at)
    }

    fn track_msf(&self, track: Bcd, track_msf: Msf) -> (r: Result<Msf, CdError>) {
        let r = MemoryImage::track_msf(self, track, track_msf);
        proof {
            let tracks = self.spec_layout().tracks@;
            if first_track_length(tracks, track) is None {
                assert forall|i: int| 0 <= i < tracks.len() implies tracks[i].number != track by {
                    if tracks[i].number == track {
                        lemma_first_track_exists(tracks, track, i);
                    }
                }
            } else {
                let k = choose|k: int| is_first_track(tracks, track, k);
                assert(resolves_to(tracks[k], track_msf, r));
            }
        }
        r
    }
}

} // verus!
