//! Generic interface to Compact Disc (CD) image formats: disc
//! addressing, raw sectors, the error taxonomy and the backend contract.

use vstd::prelude::*;

pub mod bcd;
pub mod error;
pub mod layout;
pub mod msf;
pub mod sector;

pub use bcd::Bcd;
pub use error::CdError;
pub use msf::Msf;
pub use sector::Sector;

verus! {

/// Abstract read-only interface to an image format.
///
/// A backend describes its disc through two spec functions, the linear
/// index of its lead-out and the length of each of its tracks, and its
/// reads and track lookups fail as those describe.
pub trait Image {
    /// The linear index of the image's lead-out, the first address past
    /// its last sector.
    spec fn spec_lead_out(&self) -> int;

    /// The length in sectors of track `track`, or `None` when the image
    /// has no such track.
    spec fn spec_track_length(&self, track: Bcd) -> Option<nat>;

    /// Return a string identifying the image format in a
    /// human-readable way. If the backend is daisy-chained it should
    /// mention the underlying image format as well.
    fn image_format(&self) -> String;

    /// Read a single sector at the given absolute MSF into `out`. Fails
    /// with `LeadOut` at or past the lead-out. On failure the contents of
    /// `out` are unspecified.
    fn read_sector(&mut self, out: &mut Sector, at: Msf) -> (r: Result<(), CdError>)
        ensures
            final(self).spec_lead_out() == old(self).spec_lead_out(),
            forall|t: Bcd| final(self).spec_track_length(t) == old(self).spec_track_length(t),
            at.lba() >= old(self).spec_lead_out() ==> (r matches Err(e) && e is LeadOut),
    ;

    /// Return the absolute Msf for the position `track_msf` in
    /// `track`. Fails with `BadTrack` if `track` doesn't exist and with
    /// `EndOfTrack` if `track_msf` is outside of the track.
    fn track_msf(&self, track: Bcd, track_msf: Msf) -> (r: Result<Msf, CdError>)
        ensures
            self.spec_track_length(track) is None ==> (r matches Err(e) && e is BadTrack),
            self.spec_track_length(track) matches Some(n) && track_msf.lba() >= n ==> (
            r matches Err(e) && e is EndOfTrack),
    ;
}

/// Reads the sector at the position `track_msf` relative to the start of
/// `track`: resolves the position to an absolute address, then reads it.
/// Fails with `BadTrack` when the image has no such track, with
/// `EndOfTrack` when the position is past the track's end.
pub fn read_track_sector<I: Image>(
    image: &mut I,
    out: &mut Sector,
    track: Bcd,
    track_msf: Msf,
) -> (r: Result<Msf, CdError>)
    ensures
        old(image).spec_track_length(track) is None ==> (r matches Err(e) && e is BadTrack),
        old(image).spec_track_length(track) matches Some(n) && track_msf.lba() >= n ==> (
        r matches Err(e) && e is EndOfTrack),
        final(image).spec_lead_out() == old(image).spec_lead_out(),
{
    let at = match image.track_msf(track, track_msf) {
        Ok(at) => at,
        Err(e) => return Err(e),
    };
    match image.read_sector(out, at) {
        Ok(()) => Ok(at),
        Err(e) => Err(e),
    }
}

/// Possible session formats.
#[derive(PartialEq, Eq, Structural, Clone, Copy, Debug)]
pub enum SessionFormat {
    /// CD-DA (audio CD, "red book" specification) or CD-ROM ("yellow
    /// book" specification) session
    CddaCdRom,
    /// CD-i (compact disc interactive, "green book"
    /// specification). Used on Philips' CD-i console.
    Cdi,
    /// CD-ROM XA (extended architecture). Used on Sony's PlayStation
    /// console.
    Cdxa,
}

/// Possible track types
#[derive(PartialEq, Eq, Structural, Clone, Copy, Debug)]
pub enum TrackFormat {
    /// CD-DA audio track (red book audio)
    Audio,
    /// CD-G track (CD-Graphics)
    CdG,
    /// CD-ROM Mode1 data
    Mode1,
    /// CD-ROM XA Mode 2 data
    Mode2Xa,
    /// CD-i Mode 2 data
    Mode2CdI,
}

} // verus!
