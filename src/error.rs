//! The error taxonomy shared by every disc operation, and its textual form.

use vstd::prelude::*;

verus! {

#[verifier::external_type_specification]
#[verifier::external_body]
pub struct ExIoError(std::io::Error);

/// Error type for disc operations.
#[derive(Debug)]
pub enum CdError {
    /// Generic I/O error
    IoError(std::io::Error),
    /// Format mismatch, for instance when one attempts to retrieve
    /// CD-ROM payloads on an audio track.
    BadFormat,
    /// Attempted to access a sector past the end of the CD
    LeadOut,
    /// Unexpected or corrupted image format. Contains the path of the
    /// file, the line where the error occurred and a human-readable
    /// description of the problem.
    ParseError(String, u32, String),
    /// Disc format error (two tracks with the same number, missing
    /// track, absurd index...). Contains the path of the file and a
    /// description of the problem.
    BadImage(String, String),
    /// Attempted to access an invalid track number
    BadTrack,
    /// Attempted to access a track past its end
    EndOfTrack,
}

/// The one-character text of a decimal digit.
pub open spec fn digit_text(d: nat) -> Seq<char> {
    if d == 0 {
        "0"@
    } else if d == 1 {
        "1"@
    } else if d == 2 {
        "2"@
    } else if d == 3 {
        "3"@
    } else if d == 4 {
        "4"@
    } else if d == 5 {
        "5"@
    } else if d == 6 {
        "6"@
    } else if d == 7 {
        "7"@
    } else if d == 8 {
        "8"@
    } else {
        "9"@
    }
}

/// The decimal text of `n`, without leading zeros.
pub open spec fn decimal_text(n: nat) -> Seq<char>
    decreases n,
{
    if n < 10 {
        digit_text(n)
    } else {
        decimal_text(n / 10) + digit_text(n % 10)
    }
}

/// The text of a string as Rust's `Debug` formatting writes it (quoted and
/// escaped).
pub uninterp spec fn str_debug_of(s: Seq<char>) -> Seq<char>;

/// The text of an error whose form is fixed by its kind alone; `None` for
/// the kinds that carry data.
pub open spec fn fixed_text(e: CdError) -> Option<Seq<char>> {
    match e {
        CdError::BadFormat => Some("BadFormat"@),
        CdError::LeadOut => Some("LeadOut"@),
        CdError::BadTrack => Some("BadTrack"@),
        CdError::EndOfTrack => Some("EndOfTrack"@),
        _ => None,
    }
}

/// `"<path>:<line>: <message>"`, the text of a parse error.
pub open spec fn parse_error_text(path: Seq<char>, line: u32, msg: Seq<char>) -> Seq<char> {
    path + ":"@ + decimal_text(line as nat) + ": "@ + msg
}

/// The debug form of a `BadImage` error.
pub open spec fn bad_image_text(path: Seq<char>, msg: Seq<char>) -> Seq<char> {
    "BadImage("@ + str_debug_of(path) + ", "@ + str_debug_of(msg) + ")"@
}

/// Relies on `<str as Debug>::fmt` (through `format!`): the quoted, escaped
/// form of a string, which depends on its characters alone.
#[verifier::external_body]
fn str_debug(s: &str) -> (r: String)
    ensures
        r@ == str_debug_of(s@),
{
    format!("{:?}", s)
}

/// Relies on `<std::io::Error as Debug>::fmt` (through `format!`) for the
/// text inside `IoError(...)`; nothing is stated of that text.
#[verifier::external_body]
fn io_error_debug(e: &std::io::Error) -> (r: String) {
    format!("{:?}", e)
}

fn digit_str(d: u32) -> (r: &'static str)
    requires
        d < 10,
    ensures
        r@ == digit_text(d as nat),
{
    if d == 0 {
        "0"
    } else if d == 1 {
        "1"
    } else if d == 2 {
        "2"
    } else if d == 3 {
        "3"
    } else if d == 4 {
        "4"
    } else if d == 5 {
        "5"
    } else if d == 6 {
        "6"
    } else if d == 7 {
        "7"
    } else if d == 8 {
        "8"
    } else {
        "9"
    }
}

/// Appends the decimal text of `n` to `out`.
pub fn push_decimal(out: &mut String, n: u32)
    ensures
        final(out)@ == old(out)@ + decimal_text(n as nat),
    decreases n,
{
    if n >= 10 {
        push_decimal(out, n / 10);
    }
    out.append(digit_str(n % 10));
    proof {
        assert(final(out)@ =~= old(out)@ + decimal_text(n as nat));
    }
}

impl CdError {
    /// The text of this error: `"<path>:<line>: <message>"` for a parse
    /// error, the debug form of the error for every other kind.
    pub fn to_string(&self) -> (r: String)
        ensures
            fixed_text(*self) matches Some(t) ==> r@ == t,
            *self matches CdError::ParseError(p, l, m) ==> r@ == parse_error_text(p@, l, m@),
            *self matches CdError::BadImage(p, m) ==> r@ == bad_image_text(p@, m@),
            *self is IoError ==> exists|d: Seq<char>| r@ == "IoError("@ + d + ")"@,
    {
        match self {
            CdError::ParseError(path, line, msg) => {
                let mut s = path.clone();
                s.append(":");
                push_decimal(&mut s, *line);
                s.append(": ");
                s.append(msg.as_str());
                s
            },
            CdError::BadImage(path, msg) => {
                let mut s = String::from_str("BadImage(");
                let p = str_debug(path.as_str());
                s.append(p.as_str());
                s.append(", ");
                let m = str_debug(msg.as_str());
                s.append(m.as_str());
                s.append(")");
                s
            },
            CdError::IoError(e) => {
                let mut s = String::from_str("IoError(");
                let d = io_error_debug(e);
                s.append(d.as_str());
                s.append(")");
                s
            },
            CdError::BadFormat => String::from_str("BadFormat"),
            CdError::LeadOut => String::from_str("LeadOut"),
            CdError::BadTrack => String::from_str("BadTrack"),
            CdError::EndOfTrack => String::from_str("EndOfTrack"),
        }
    }
}

} // verus!
