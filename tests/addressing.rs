use cdimage::bcd::{Bcd, InvalidBcd};
use cdimage::msf::Msf;
use cdimage::CdError;

fn msf(m: u8, s: u8, f: u8) -> Msf {
    Msf::from_bcd(Bcd::from_binary(m), Bcd::from_binary(s), Bcd::from_binary(f)).unwrap()
}

#[test]
fn bcd_binary_round_trip() {
    for v in 0u8..=99 {
        assert_eq!(Bcd::from_binary(v).to_binary(), v);
    }
}

#[test]
fn bcd_encoding_of_binary() {
    assert_eq!(Bcd::from_binary(0).bcd(), 0x00);
    assert_eq!(Bcd::from_binary(9).bcd(), 0x09);
    assert_eq!(Bcd::from_binary(10).bcd(), 0x10);
    assert_eq!(Bcd::from_binary(59).bcd(), 0x59);
    assert_eq!(Bcd::from_binary(99).bcd(), 0x99);
}

#[test]
fn bcd_rejects_bad_nibbles() {
    assert_eq!(Bcd::from_bcd(0x1A), Err(InvalidBcd(0x1A)));
    assert_eq!(Bcd::from_bcd(0xA0), Err(InvalidBcd(0xA0)));
    assert_eq!(Bcd::from_bcd(0xFF), Err(InvalidBcd(0xFF)));
}

#[test]
fn bcd_accepts_valid_bytes() {
    let b = Bcd::from_bcd(0x59).unwrap();
    assert_eq!(b.to_binary(), 59);
    assert_eq!(b.bcd(), 0x59);
    assert_eq!(Bcd::from_bcd(0x99).unwrap().to_binary(), 99);
    assert_eq!(Bcd::from_bcd(0x00).unwrap(), Bcd::zero());
}

#[test]
fn bcd_every_byte() {
    for b in 0u16..=255 {
        let b = b as u8;
        let ok = (b >> 4) <= 9 && (b & 0xf) <= 9;
        let r = Bcd::from_bcd(b);
        assert_eq!(r.is_ok(), ok);
        if let Ok(x) = r {
            assert_eq!(x.to_binary(), (b >> 4) * 10 + (b & 0xf));
        }
    }
}

#[test]
fn msf_from_lba_zero() {
    assert_eq!(Msf::from_lba(0).unwrap(), msf(0, 0, 0));
    assert_eq!(Msf::zero(), msf(0, 0, 0));
}

#[test]
fn msf_lba_round_trip() {
    let mut i: i64 = 0;
    while i <= 449999 {
        assert_eq!(Msf::from_lba(i).unwrap().to_lba(), i);
        i += 7;
    }
    assert_eq!(Msf::from_lba(449999).unwrap().to_lba(), 449999);
}

#[test]
fn msf_from_lba_values() {
    assert_eq!(Msf::from_lba(75).unwrap(), msf(0, 1, 0));
    assert_eq!(Msf::from_lba(4500).unwrap(), msf(1, 0, 0));
    assert_eq!(Msf::from_lba(449999).unwrap(), msf(99, 59, 74));
    assert_eq!(msf(2, 3, 4).to_lba(), 2 * 4500 + 3 * 75 + 4);
}

#[test]
fn msf_from_lba_out_of_range() {
    assert!(matches!(Msf::from_lba(-1), Err(CdError::LeadOut)));
    assert!(matches!(Msf::from_lba(450000), Err(CdError::LeadOut)));
    assert!(matches!(Msf::from_lba(i64::MIN), Err(CdError::LeadOut)));
}

#[test]
fn msf_from_bcd_ranges() {
    let b = Bcd::from_binary;
    assert!(matches!(Msf::from_bcd(b(0), b(60), b(0)), Err(CdError::BadFormat)));
    assert!(matches!(Msf::from_bcd(b(0), b(0), b(75)), Err(CdError::BadFormat)));
    let m = Msf::from_bcd(b(99), b(59), b(74)).unwrap();
    assert_eq!(m.minute(), b(99));
    assert_eq!(m.second(), b(59));
    assert_eq!(m.frame(), b(74));
    assert_eq!(m.into_bcd(), (b(99), b(59), b(74)));
}

#[test]
fn msf_add_past_lead_out() {
    assert!(matches!(msf(99, 59, 74).checked_add(1), Err(CdError::LeadOut)));
    assert!(matches!(msf(0, 0, 0).checked_add(450000), Err(CdError::LeadOut)));
    assert!(matches!(msf(0, 0, 0).checked_add(u32::MAX), Err(CdError::LeadOut)));
}

#[test]
fn msf_sub_before_start() {
    assert!(matches!(msf(0, 0, 0).checked_sub(1), Err(CdError::LeadOut)));
    assert!(matches!(msf(0, 1, 0).checked_sub(76), Err(CdError::LeadOut)));
}

#[test]
fn msf_add_and_sub() {
    assert_eq!(msf(0, 0, 74).checked_add(1).unwrap(), msf(0, 1, 0));
    assert_eq!(msf(0, 59, 74).checked_add(1).unwrap(), msf(1, 0, 0));
    assert_eq!(msf(99, 59, 73).checked_add(1).unwrap(), msf(99, 59, 74));
    assert_eq!(msf(1, 0, 0).checked_sub(1).unwrap(), msf(0, 59, 74));
    assert_eq!(msf(0, 1, 0).checked_sub(75).unwrap(), msf(0, 0, 0));
    assert_eq!(msf(12, 34, 56).checked_add(0).unwrap(), msf(12, 34, 56));
}

#[test]
fn msf_order_follows_lba() {
    assert!(msf(0, 0, 74) < msf(0, 1, 0));
    assert!(msf(0, 59, 74) < msf(1, 0, 0));
    assert!(msf(10, 0, 0) > msf(9, 59, 74));
}

#[test]
fn bcd_order_follows_value() {
    assert!(Bcd::from_binary(9) < Bcd::from_binary(10));
    assert!(Bcd::from_binary(59) > Bcd::from_binary(19));
    assert_eq!(Bcd::from_binary(42).partial_cmp(&Bcd::from_binary(42)), Some(std::cmp::Ordering::Equal));
    assert_eq!(Bcd::from_binary(9).cmp(&Bcd::from_binary(10)), std::cmp::Ordering::Less);
}

#[test]
fn msf_partial_cmp() {
    assert_eq!(msf(1, 2, 3).partial_cmp(&msf(1, 2, 3)), Some(std::cmp::Ordering::Equal));
    assert_eq!(msf(1, 2, 3).cmp(&msf(1, 2, 4)), std::cmp::Ordering::Less);
}
