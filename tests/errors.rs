use cdimage::CdError;

#[test]
fn parse_error_display() {
    let e = CdError::ParseError("disc.cue".to_string(), 42, "bad token".to_string());
    assert_eq!(e.to_string(), "disc.cue:42: bad token");
}

#[test]
fn parse_error_display_line_numbers() {
    let e = CdError::ParseError("a/b.cue".to_string(), 0, "x".to_string());
    assert_eq!(e.to_string(), "a/b.cue:0: x");
    let e = CdError::ParseError("p".to_string(), 4294967295, "m".to_string());
    assert_eq!(e.to_string(), "p:4294967295: m");
    let e = CdError::ParseError("p".to_string(), 1000, "".to_string());
    assert_eq!(e.to_string(), "p:1000: ");
}

#[test]
fn unit_errors_display_as_debug() {
    assert_eq!(CdError::BadFormat.to_string(), "BadFormat");
    assert_eq!(CdError::LeadOut.to_string(), "LeadOut");
    assert_eq!(CdError::BadTrack.to_string(), "BadTrack");
    assert_eq!(CdError::EndOfTrack.to_string(), "EndOfTrack");
}

#[test]
fn bad_image_display_as_debug() {
    let e = CdError::BadImage("disc.cue".to_string(), "duplicate track".to_string());
    assert_eq!(e.to_string(), "BadImage(\"disc.cue\", \"duplicate track\")");
    assert_eq!(e.to_string(), format!("{:?}", e));
    let e = CdError::BadImage("q\"x".to_string(), "a\nb".to_string());
    assert_eq!(e.to_string(), format!("{:?}", e));
}

#[test]
fn io_error_display_as_debug() {
    let e = CdError::IoError(std::io::Error::new(std::io::ErrorKind::Other, "boom"));
    let s = e.to_string();
    assert!(s.starts_with("IoError("));
    assert!(s.ends_with(")"));
    assert_eq!(s, format!("{:?}", e));
}
