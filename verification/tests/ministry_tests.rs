use jplaw_types::institution::Institution;
use jplaw_types::ministry::{
    list_from_str, ministry_list_to_usize, M1Ministry, M5Ministry, MinistryContents,
};

#[test]
fn mask_of_code_13_sets_bit_12() {
    // Encoding the code set {13} of the fifth generation sets bit 12 of the
    // 28-bit mask.
    let mask =
        ministry_list_to_usize(&[M5Ministry::MinistryOfPostsAndTelecommunicationsOrdinance]);
    assert_eq!(mask, 1 << 12);
    assert_eq!(mask, 4096);
}

#[test]
fn binary_string_position_15_is_code_13() {
    // The 28-character binary string has '1' at position 28 - 13 = 15 from
    // the left; decoding it yields {13} again.
    let s = "0000000000000001000000000000";
    assert_eq!(s.len(), 28);
    assert_eq!(s.as_bytes()[15], b'1');
    let l = list_from_str::<M5Ministry>(s).unwrap();
    assert_eq!(l, vec![M5Ministry::MinistryOfPostsAndTelecommunicationsOrdinance]);
}

#[test]
fn list_from_str_rejects_bad_input() {
    // A character that is neither 0 nor 1.
    assert_eq!(
        list_from_str::<M5Ministry>("0000000000000002000000000000"),
        Err(())
    );
    // Code 22 is not defined in the first generation.
    assert_eq!(
        list_from_str::<M1Ministry>("0000001000000000000000000000"),
        Err(())
    );
    // The same position names a defined code of the fifth generation.
    assert_eq!(
        list_from_str::<M5Ministry>("0000001000000000000000000000"),
        Ok(vec![M5Ministry::FairTradeCommissionRules])
    );
}

#[test]
fn ministry_codes_round_trip() {
    for n in 1..=21 {
        let m = M1Ministry::from_int(n).unwrap();
        assert_eq!(m.to_int(), n);
    }
    assert_eq!(M1Ministry::from_int(22), None);
    assert_eq!(M5Ministry::from_int(25).map(|m| m.to_int()), Some(25));
    assert_eq!(M5Ministry::from_int(26), None);
}

#[test]
fn institution_codes_round_trip() {
    for n in (1..=16).chain([18, 19]) {
        let i = Institution::from_int(n).unwrap();
        assert_eq!(i.to_int(), n);
    }
    // The alias code 17 decodes to the institution of code 8.
    assert_eq!(
        Institution::from_int(17),
        Some(Institution::BarExaminationManagementCommittee)
    );
    assert_eq!(Institution::from_int(17).unwrap().to_int(), 8);
    assert_eq!(Institution::from_int(0), None);
    assert_eq!(Institution::from_int(20), None);
}
