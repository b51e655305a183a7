use jplaw_types::codec::{decode, encode};
use jplaw_types::era::Era;
use jplaw_types::law_id::{DecodeError, LawEfficacy, LawId, LawIdType, RippouType};
use jplaw_types::ministry::{M2Ministry, M5Ministry, Ministry};
use jplaw_types::institution::Institution;

#[test]
fn check_from_str_law_id() {
    let s = "325M50001000004";
    let law_id = decode(s).unwrap();
    assert_eq!(
        law_id,
        LawId {
            era: Era::Showa,
            year: 25,
            law_id_type: LawIdType::MinistryOrder {
                ministry: Ministry::M5(vec![
                    M5Ministry::MinistryOfPostsAndTelecommunicationsOrdinance
                ]),
                num: 4
            }
        }
    );
    assert_eq!(encode(&law_id), s);
}

#[test]
fn check_from_str_law_id_2() {
    let s = "345AC0000000089";
    let law_id = decode(s).unwrap();
    assert_eq!(
        law_id,
        LawId {
            era: Era::Showa,
            year: 45,
            law_id_type: LawIdType::Act {
                rippou_type: RippouType::Kakuhou,
                num: 89
            }
        }
    );
    assert_eq!(encode(&law_id), s);
}

#[test]
fn round_trip_each_variant() {
    let ids = [
        "121CONSTITUTION",
        "345AC0000000089",
        "402AC1000000012",
        "413AC0100000003",
        "345CO0000000158",
        "219CO1000000024",
        "312IO0000000073",
        "105IO1000000041",
        "108DF1000000103",
        "109DF0000000001",
        "110DT0000000036",
        "111DH1000000002",
        "325M50001000004",
        "501M600000AF001",
        "118M10000000301",
        "325RJNJ01002003",
        "430RPMD12150001",
        "325R00000008001",
        "501R00000019003",
    ];
    for s in ids {
        let v = decode(s).unwrap_or_else(|e| panic!("{s} rejected: {e:?}"));
        assert_eq!(encode(&v), s, "round trip of {s}");
    }
}

#[test]
fn round_trip_decode_of_encode() {
    let values = [
        LawId { era: Era::Meiji, year: 0, law_id_type: LawIdType::Constitution },
        LawId {
            era: Era::Reiwa,
            year: 3,
            law_id_type: LawIdType::Act { rippou_type: RippouType::Sanin, num: 999 },
        },
        LawId {
            era: Era::Taisho,
            year: 14,
            law_id_type: LawIdType::ImperialOrder { efficacy: LawEfficacy::Law, num: 403 },
        },
        LawId {
            era: Era::Heisei,
            year: 10,
            law_id_type: LawIdType::MinistryOrder {
                ministry: Ministry::M5(vec![
                    M5Ministry::MinistryOfPostsAndTelecommunicationsOrdinance,
                    M5Ministry::MinistryOfFinanceOrdinance,
                ]),
                num: 7,
            },
        },
        LawId {
            era: Era::Showa,
            year: 25,
            law_id_type: LawIdType::Jinji { kind: 1, kind_serial: 2, amendment_serial: 3 },
        },
        LawId {
            era: Era::Showa,
            year: 27,
            law_id_type: LawIdType::Regulation {
                institution: Institution::SupremeCourt,
                num: 12,
            },
        },
        LawId {
            era: Era::Reiwa,
            year: 1,
            law_id_type: LawIdType::PrimeMinisterDecision { month: 6, day: 28, num: 1 },
        },
    ];
    for v in values {
        let s = encode(&v);
        assert_eq!(decode(&s).unwrap(), v, "decode of encode of {s}");
    }
}

#[test]
fn rejects_wrong_length() {
    assert_eq!(decode("45AC0000000089"), Err(DecodeError::MalformedIdentifier));
    assert_eq!(decode("345AC00000000891"), Err(DecodeError::MalformedIdentifier));
    assert_eq!(decode(""), Err(DecodeError::MalformedIdentifier));
}

#[test]
fn rejects_unknown_era_digit() {
    assert_eq!(decode("045AC0000000089"), Err(DecodeError::UnknownEnumerant));
    assert_eq!(decode("645AC0000000089"), Err(DecodeError::UnknownEnumerant));
    assert_eq!(decode("X45AC0000000089"), Err(DecodeError::UnknownEnumerant));
}

#[test]
fn rejects_bad_year_and_tag() {
    assert_eq!(decode("3X5AC0000000089"), Err(DecodeError::MalformedIdentifier));
    assert_eq!(decode("345XC0000000089"), Err(DecodeError::MalformedIdentifier));
    assert_eq!(decode("345AB0000000089"), Err(DecodeError::MalformedIdentifier));
    assert_eq!(decode("325RJNJ0100200X"), Err(DecodeError::MalformedIdentifier));
    assert_eq!(decode("325RPMDXX150001"), Err(DecodeError::MalformedIdentifier));
    assert_eq!(decode("325R0000001700X"), Err(DecodeError::MalformedIdentifier));
}

#[test]
fn rejects_unknown_flag() {
    assert_eq!(decode("345AC5000000089"), Err(DecodeError::UnknownEnumerant));
    assert_eq!(decode("345CO0100000089"), Err(DecodeError::UnknownEnumerant));
    assert_eq!(decode("345ACX000000089"), Err(DecodeError::MalformedIdentifier));
}

#[test]
fn rejects_undefined_ministry_code() {
    // Bit 17 names code 18, which the second registry generation does not
    // define: the mask field 0020000 in hexadecimal.
    assert_eq!(decode("325M20020000004"), Err(DecodeError::UnknownEnumerant));
    // The same mask is fine in the fifth generation, where code 18 exists.
    assert!(decode("325M50020000004").is_ok());
    // A lower-case mask digit is not canonical.
    assert_eq!(decode("325M5000a000004"), Err(DecodeError::MalformedIdentifier));
    // An unknown generation digit.
    assert_eq!(decode("325M70001000004"), Err(DecodeError::MalformedIdentifier));
}

#[test]
fn rejects_unknown_institution() {
    assert_eq!(decode("325R00000020001"), Err(DecodeError::UnknownEnumerant));
    assert_eq!(decode("325R00000000001"), Err(DecodeError::UnknownEnumerant));
}

#[test]
fn institution_alias_17_decodes_as_8() {
    let aliased = decode("325R00000017001").unwrap();
    let canonical = decode("325R00000008001").unwrap();
    assert_eq!(aliased, canonical);
    assert_eq!(
        aliased.law_id_type,
        LawIdType::Regulation {
            institution: Institution::BarExaminationManagementCommittee,
            num: 1
        }
    );
    // The alias is never emitted back.
    assert_eq!(encode(&aliased), "325R00000008001");
}

#[test]
fn ministry_codes_come_largest_first() {
    // Mask 0001081 sets bits 0, 7 and 12: codes 1, 8 and 13.
    let v = decode("325M50001081004").unwrap();
    assert_eq!(
        v.law_id_type,
        LawIdType::MinistryOrder {
            ministry: Ministry::M5(vec![
                M5Ministry::MinistryOfPostsAndTelecommunicationsOrdinance,
                M5Ministry::MinistryOfEducationOrdinance,
                M5Ministry::LegalAffairsAgencyOrdinance,
            ]),
            num: 4
        }
    );
    assert_eq!(encode(&v), "325M50001081004");
}

#[test]
fn constructor_rejects_overflowing_fields() {
    assert_eq!(
        LawId::new(Era::Showa, 100, LawIdType::Constitution),
        Err(DecodeError::FieldOverflow)
    );
    assert_eq!(
        LawId::new(
            Era::Showa,
            45,
            LawIdType::Act { rippou_type: RippouType::Kakuhou, num: 1000 }
        ),
        Err(DecodeError::FieldOverflow)
    );
    assert_eq!(
        LawId::new(
            Era::Showa,
            45,
            LawIdType::MinistryOrder {
                // Codes out of canonical order are rejected at construction.
                ministry: Ministry::M2(vec![
                    M2Ministry::CabinetOrder,
                    M2Ministry::MinistryOfEducationOrdinance
                ]),
                num: 1
            }
        ),
        Err(DecodeError::FieldOverflow)
    );
    let ok = LawId::new(
        Era::Showa,
        45,
        LawIdType::Act { rippou_type: RippouType::Kakuhou, num: 89 },
    )
    .unwrap();
    assert_eq!(encode(&ok), "345AC0000000089");
}
