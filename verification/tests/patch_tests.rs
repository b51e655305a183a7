use jplaw_types::codec::decode;
use jplaw_types::era::{Date, Era};
use jplaw_types::law_id::DecodeError;
use jplaw_types::patch::{decode_patch, encode_patch, LawPatchInfo};

#[test]
fn patch_sentinel_means_original_enactment() {
    let p = decode_patch("345AC0000000089_19700401_000000000000000").unwrap();
    assert_eq!(p.id, decode("345AC0000000089").unwrap());
    assert_eq!(p.patch_date, Date { era: Era::Showa, year: 45, month: Some(4), day: Some(1) });
    assert_eq!(p.patch_id, None);
}

#[test]
fn patch_with_amending_instrument() {
    let p = decode_patch("345AC0000000089_20190501_501AC0000000001").unwrap();
    assert_eq!(p.id, decode("345AC0000000089").unwrap());
    assert_eq!(p.patch_date, Date { era: Era::Reiwa, year: 1, month: Some(5), day: Some(1) });
    assert_eq!(p.patch_id, Some(decode("501AC0000000001").unwrap()));
}

#[test]
fn patch_round_trips() {
    for s in [
        "345AC0000000089_19700401_000000000000000",
        "345AC0000000089_20190501_501AC0000000001",
        "121CONSTITUTION_18890211_000000000000000",
    ] {
        let p = decode_patch(s).unwrap();
        assert_eq!(encode_patch(&p), s, "round trip of {s}");
    }
}

#[test]
fn encode_patch_renders_the_record() {
    let p = LawPatchInfo {
        id: decode("345AC0000000089").unwrap(),
        patch_date: Date { era: Era::Showa, year: 45, month: Some(4), day: Some(1) },
        patch_id: None,
    };
    assert_eq!(encode_patch(&p), "345AC0000000089_19700401_000000000000000");
}

#[test]
fn patch_rejects_bad_structure() {
    // Wrong total length.
    assert_eq!(
        decode_patch("345AC0000000089_19700401_00000000000000"),
        Err(DecodeError::MalformedIdentifier)
    );
    // Missing delimiters.
    assert_eq!(
        decode_patch("345AC0000000089X19700401X000000000000000"),
        Err(DecodeError::MalformedIdentifier)
    );
    // A bad amended identifier reports its own error.
    assert_eq!(
        decode_patch("345AB0000000089_19700401_000000000000000"),
        Err(DecodeError::MalformedIdentifier)
    );
    // Non-digits in the date.
    assert_eq!(
        decode_patch("345AC0000000089_1970X401_000000000000000"),
        Err(DecodeError::MalformedIdentifier)
    );
    // A bad amending identifier reports its own error.
    assert_eq!(
        decode_patch("345AC0000000089_19700401_645AC0000000001"),
        Err(DecodeError::UnknownEnumerant)
    );
}

#[test]
fn patch_rejects_out_of_range_dates() {
    // Month 13 is not a date.
    assert_eq!(
        decode_patch("345AC0000000089_19701301_000000000000000"),
        Err(DecodeError::UnknownEnumerant)
    );
    // Day 0 is not a date.
    assert_eq!(
        decode_patch("345AC0000000089_19700400_000000000000000"),
        Err(DecodeError::UnknownEnumerant)
    );
    // A day before the first era is outside the calendar.
    assert_eq!(
        decode_patch("345AC0000000089_18000101_000000000000000"),
        Err(DecodeError::UnknownEnumerant)
    );
}
