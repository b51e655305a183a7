//! Law identifiers and their grammar.
//!
//! A law identifier is a fifteen-character string: one era digit, a
//! two-digit era-relative year, and a twelve-character instrument-type
//! payload whose shape depends on a leading tag. This module holds the
//! identifier values themselves, [`spec_encode_id`] — the mathematical
//! rendering of a well-formed value — and [`id_err`], the classification
//! of every string into parsed or rejected with a named error. The
//! executable encoder and decoder, specified against these functions,
//! live in the codec module.

use vstd::prelude::*;

use crate::digits::{all_dec_digits, all_hex_digits, dec_seq, dec_seq_val, hex_seq, hex_seq_val};
use crate::era::Era;
use crate::institution::{inst_field_ok, Institution};
use crate::ministry::{gen_mask_ok, Ministry};

verus! {

/// Why a string is not a law identifier, or a field value does not fit its
/// fixed width.
#[derive(Debug, Clone, Copy, PartialEq, Eq, Hash, Structural)]
pub enum DecodeError {
    /// Wrong total length, an unrecognized tag, a non-digit character in a
    /// numeric field, or a malformed patch-record structure.
    MalformedIdentifier,
    /// A parsed flag or code has no defined value: an unknown era digit,
    /// legislative-origin or efficacy flag, ministry code or institution
    /// code.
    UnknownEnumerant,
    /// A numeric field value handed to a constructor does not fit the
    /// field's fixed width.
    FieldOverflow,
}

/// The legislative origin of an Act.
#[derive(Debug, Clone, Copy, PartialEq, Eq, Hash, Structural)]
pub enum RippouType {
    /// A cabinet bill.
    Kakuhou,
    /// A House of Representatives member bill.
    Syuin,
    /// A House of Councillors member bill.
    Sanin,
}

/// Whether a historical decree carries the force of a statute or of a
/// cabinet order.
#[derive(Debug, Clone, Copy, PartialEq, Eq, Hash, Structural)]
pub enum LawEfficacy {
    CabinetOrder,
    Law,
}

/// The instrument-type payload of a law identifier.
#[derive(Debug, Clone, PartialEq, Eq, Hash)]
pub enum LawIdType {
    /// The Constitution; the payload is the literal word.
    Constitution,
    /// A statute passed by the Diet.
    Act { rippou_type: RippouType, num: usize },
    /// A cabinet order.
    CabinetOrder { efficacy: LawEfficacy, num: usize },
    /// An imperial order.
    ImperialOrder { efficacy: LawEfficacy, num: usize },
    /// A proclamation of the Dajokan, the early-Meiji council of state.
    DajokanFukoku { efficacy: LawEfficacy, num: usize },
    /// A directive of the Dajokan.
    DajokanTasshi { efficacy: LawEfficacy, num: usize },
    /// A circular of the Dajokan.
    DajokanHutatsu { efficacy: LawEfficacy, num: usize },
    /// An order of one or more ministries of one registry generation.
    MinistryOrder { ministry: Ministry, num: usize },
    /// A National Personnel Authority rule.
    Jinji { kind: usize, kind_serial: usize, amendment_serial: usize },
    /// A rule of a non-ministerial institution.
    Regulation { institution: Institution, num: usize },
    /// An administrative rule fixed by prime-ministerial decision.
    PrimeMinisterDecision { month: usize, day: usize, num: usize },
}

/// A law identifier: era, two-digit era-relative year, and the
/// instrument-type payload. Its rendering is always exactly fifteen
/// characters.
#[derive(Debug, Clone, PartialEq, Eq, Hash)]
pub struct LawId {
    pub era: Era,
    pub year: usize,
    pub law_id_type: LawIdType,
}

/// The era digit of the identifier's first position.
pub open spec fn era_char(e: Era) -> char {
    match e {
        Era::Meiji => '1',
        Era::Taisho => '2',
        Era::Showa => '3',
        Era::Heisei => '4',
        Era::Reiwa => '5',
    }
}

/// Whether `c` is a defined era digit.
pub open spec fn era_char_ok(c: char) -> bool {
    c == '1' || c == '2' || c == '3' || c == '4' || c == '5'
}

/// The seven-digit flag value of a legislative origin.
pub open spec fn rippou_flag(r: RippouType) -> int {
    match r {
        RippouType::Kakuhou => 0,
        RippouType::Syuin => 1000000,
        RippouType::Sanin => 100000,
    }
}

/// The seven-digit flag value of an efficacy.
pub open spec fn efficacy_flag(e: LawEfficacy) -> int {
    match e {
        LawEfficacy::CabinetOrder => 0,
        LawEfficacy::Law => 1000000,
    }
}

/// The literal payload of the Constitution.
pub open spec fn const_seq() -> Seq<char> {
    seq!['C', 'O', 'N', 'S', 'T', 'I', 'T', 'U', 'T', 'I', 'O', 'N']
}

/// Whether an instrument-type value is within the grammar: every numeric
/// field fits its fixed width, and a ministry set is in the canonical form
/// the decoder produces.
pub open spec fn type_wf(t: LawIdType) -> bool {
    match t {
        LawIdType::Constitution => true,
        LawIdType::Act { rippou_type, num } => num < 1000,
        LawIdType::CabinetOrder { efficacy, num } => num < 1000,
        LawIdType::ImperialOrder { efficacy, num } => num < 1000,
        LawIdType::DajokanFukoku { efficacy, num } => num < 1000,
        LawIdType::DajokanTasshi { efficacy, num } => num < 1000,
        LawIdType::DajokanHutatsu { efficacy, num } => num < 1000,
        LawIdType::MinistryOrder { ministry, num } => ministry.wf() && num < 1000,
        LawIdType::Jinji { kind, kind_serial, amendment_serial } => kind < 100 && kind_serial
            < 1000 && amendment_serial < 1000,
        LawIdType::Regulation { institution, num } => num < 1000,
        LawIdType::PrimeMinisterDecision { month, day, num } => month < 100 && day < 100 && num
            < 10000,
    }
}

/// The twelve-character rendering of an instrument-type payload.
pub open spec fn spec_encode_type(t: LawIdType) -> Seq<char> {
    match t {
        LawIdType::Constitution => const_seq(),
        LawIdType::Act { rippou_type, num } => seq!['A', 'C'] + dec_seq(rippou_flag(rippou_type), 7)
            + dec_seq(num as int, 3),
        LawIdType::CabinetOrder { efficacy, num } => seq!['C', 'O'] + dec_seq(
            efficacy_flag(efficacy),
            7,
        ) + dec_seq(num as int, 3),
        LawIdType::ImperialOrder { efficacy, num } => seq!['I', 'O'] + dec_seq(
            efficacy_flag(efficacy),
            7,
        ) + dec_seq(num as int, 3),
        LawIdType::DajokanFukoku { efficacy, num } => seq!['D', 'F'] + dec_seq(
            efficacy_flag(efficacy),
            7,
        ) + dec_seq(num as int, 3),
        LawIdType::DajokanTasshi { efficacy, num } => seq!['D', 'T'] + dec_seq(
            efficacy_flag(efficacy),
            7,
        ) + dec_seq(num as int, 3),
        LawIdType::DajokanHutatsu { efficacy, num } => seq!['D', 'H'] + dec_seq(
            efficacy_flag(efficacy),
            7,
        ) + dec_seq(num as int, 3),
        LawIdType::MinistryOrder { ministry, num } => seq!['M', ministry.gen_char()] + hex_seq(
            ministry.spec_mask() as int,
            7,
        ) + dec_seq(num as int, 3),
        LawIdType::Jinji { kind, kind_serial, amendment_serial } => seq!['R', 'J', 'N', 'J']
            + dec_seq(kind as int, 2) + dec_seq(kind_serial as int, 3) + dec_seq(
            amendment_serial as int,
            3,
        ),
        LawIdType::Regulation { institution, num } => seq!['R'] + dec_seq(
            institution.spec_code() as int,
            8,
        ) + dec_seq(num as int, 3),
        LawIdType::PrimeMinisterDecision { month, day, num } => seq!['R', 'P', 'M', 'D'] + dec_seq(
            month as int,
            2,
        ) + dec_seq(day as int, 2) + dec_seq(num as int, 4),
    }
}

impl LawIdType {
    /// Whether every numeric field fits its fixed width and a ministry set
    /// is canonical.
    pub fn is_wf(&self) -> (b: bool)
        ensures
            b == type_wf(*self),
    {
        match self {
            LawIdType::Constitution => true,
            LawIdType::Act { rippou_type: _, num } => *num < 1000,
            LawIdType::CabinetOrder { efficacy: _, num } => *num < 1000,
            LawIdType::ImperialOrder { efficacy: _, num } => *num < 1000,
            LawIdType::DajokanFukoku { efficacy: _, num } => *num < 1000,
            LawIdType::DajokanTasshi { efficacy: _, num } => *num < 1000,
            LawIdType::DajokanHutatsu { efficacy: _, num } => *num < 1000,
            LawIdType::MinistryOrder { ministry, num } => ministry.is_canonical() && *num < 1000,
            LawIdType::Jinji { kind, kind_serial, amendment_serial } => *kind < 100 && *kind_serial
                < 1000 && *amendment_serial < 1000,
            LawIdType::Regulation { institution: _, num } => *num < 1000,
            LawIdType::PrimeMinisterDecision { month, day, num } => *month < 100 && *day < 100
                && *num < 10000,
        }
    }
}

impl LawId {
    /// Whether the identifier is within the grammar: a two-digit year and a
    /// well-formed payload.
    pub open spec fn wf(&self) -> bool {
        self.year < 100 && type_wf(self.law_id_type)
    }

    /// Whether the identifier is within the grammar, as [`Self::wf`]
    /// states it: the test every caller of the encoder can make.
    pub fn is_wf(&self) -> (b: bool)
        ensures
            b == self.wf(),
    {
        self.year < 100 && self.law_id_type.is_wf()
    }

    /// The checked constructor: accepts exactly the values whose every
    /// field fits its fixed width, and rejects the rest with
    /// [`DecodeError::FieldOverflow`] rather than let a rendering silently
    /// truncate.
    pub fn new(era: Era, year: usize, law_id_type: LawIdType) -> (r: Result<LawId, DecodeError>)
        ensures
            r is Ok <==> (year < 100 && type_wf(law_id_type)),
            r matches Ok(id) ==> id == (LawId { era, year, law_id_type }),
            r matches Err(e) ==> e == DecodeError::FieldOverflow,
    {
        if year < 100 && law_id_type.is_wf() {
            Ok(LawId { era, year, law_id_type })
        } else {
            Err(DecodeError::FieldOverflow)
        }
    }
}

/// The fifteen-character rendering of a law identifier.
pub open spec fn spec_encode_id(id: LawId) -> Seq<char> {
    seq![era_char(id.era)] + dec_seq(id.year as int, 2) + spec_encode_type(id.law_id_type)
}

/// The error class of the shared flag-and-number payload shape of acts,
/// cabinet and imperial orders and the Dajokan decrees: a seven-digit flag
/// that must name a defined value, then a three-digit number.
pub open spec fn flag_num_err(p: Seq<char>, allow_sanin: bool) -> Option<DecodeError> {
    if !all_dec_digits(p.subrange(2, 9)) {
        Some(DecodeError::MalformedIdentifier)
    } else if !({
        let v = dec_seq_val(p.subrange(2, 9));
        v == 0 || v == 1000000 || (allow_sanin && v == 100000)
    }) {
        Some(DecodeError::UnknownEnumerant)
    } else if !all_dec_digits(p.subrange(9, 12)) {
        Some(DecodeError::MalformedIdentifier)
    } else {
        None
    }
}

/// Whether the payload's first two characters are one of the five
/// efficacy-flag tags.
pub open spec fn eff_tag(p: Seq<char>) -> bool {
    (p[0] == 'C' && p[1] == 'O') || (p[0] == 'I' && p[1] == 'O') || (p[0] == 'D' && (p[1] == 'F'
        || p[1] == 'T' || p[1] == 'H'))
}

/// The error class of a twelve-character payload, `None` when it parses.
/// The checks come in the order the decoder makes them: tag, then each
/// field's syntax, then each field's defined values.
pub open spec fn payload_err(p: Seq<char>) -> Option<DecodeError> {
    if p == const_seq() {
        None
    } else if p[0] == 'A' && p[1] == 'C' {
        flag_num_err(p, true)
    } else if eff_tag(p) {
        flag_num_err(p, false)
    } else if p[0] == 'M' {
        if !(p[1] == '1' || p[1] == '2' || p[1] == '3' || p[1] == '4' || p[1] == '5' || p[1]
            == '6') {
            Some(DecodeError::MalformedIdentifier)
        } else if !all_hex_digits(p.subrange(2, 9)) {
            Some(DecodeError::MalformedIdentifier)
        } else if !gen_mask_ok(p[1], hex_seq_val(p.subrange(2, 9)) as u32) {
            Some(DecodeError::UnknownEnumerant)
        } else if !all_dec_digits(p.subrange(9, 12)) {
            Some(DecodeError::MalformedIdentifier)
        } else {
            None
        }
    } else if p[0] == 'R' && p[1] == 'J' && p[2] == 'N' && p[3] == 'J' {
        if !all_dec_digits(p.subrange(4, 12)) {
            Some(DecodeError::MalformedIdentifier)
        } else {
            None
        }
    } else if p[0] == 'R' && p[1] == 'P' && p[2] == 'M' && p[3] == 'D' {
        if !all_dec_digits(p.subrange(4, 12)) {
            Some(DecodeError::MalformedIdentifier)
        } else {
            None
        }
    } else if p[0] == 'R' {
        if !all_dec_digits(p.subrange(1, 9)) {
            Some(DecodeError::MalformedIdentifier)
        } else if !inst_field_ok(dec_seq_val(p.subrange(1, 9))) {
            Some(DecodeError::UnknownEnumerant)
        } else if !all_dec_digits(p.subrange(9, 12)) {
            Some(DecodeError::MalformedIdentifier)
        } else {
            None
        }
    } else {
        Some(DecodeError::MalformedIdentifier)
    }
}

/// The error class of a full identifier string, `None` when it parses:
/// length first, then the era digit, the year digits, and the payload.
pub open spec fn id_err(s: Seq<char>) -> Option<DecodeError> {
    if s.len() != 15 {
        Some(DecodeError::MalformedIdentifier)
    } else if !era_char_ok(s[0]) {
        Some(DecodeError::UnknownEnumerant)
    } else if !all_dec_digits(s.subrange(1, 3)) {
        Some(DecodeError::MalformedIdentifier)
    } else {
        payload_err(s.subrange(3, 15))
    }
}

/// Whether a payload is a regulation whose institution field holds the
/// alias code 17: it decodes, but to the institution of code 8, so its
/// re-rendering differs from it in the two final field digits.
pub open spec fn payload_reg17(p: Seq<char>) -> bool {
    p[0] == 'R' && all_dec_digits(p.subrange(1, 9)) && dec_seq_val(p.subrange(1, 9)) == 17
}

/// Whether a full identifier string carries the alias institution code 17.
pub open spec fn is_reg17(s: Seq<char>) -> bool {
    s.len() == 15 && payload_reg17(s.subrange(3, 15))
}

/// Equality of ministry sets as run-time comparison sees it: same
/// generation and the same ministries in the same order.
pub open spec fn ministry_eq(a: Ministry, b: Ministry) -> bool {
    match (a, b) {
        (Ministry::M1(x), Ministry::M1(y)) => x@ == y@,
        (Ministry::M2(x), Ministry::M2(y)) => x@ == y@,
        (Ministry::M3(x), Ministry::M3(y)) => x@ == y@,
        (Ministry::M4(x), Ministry::M4(y)) => x@ == y@,
        (Ministry::M5(x), Ministry::M5(y)) => x@ == y@,
        (Ministry::M6(x), Ministry::M6(y)) => x@ == y@,
        _ => false,
    }
}

/// Equality of instrument types as run-time comparison sees it: the same
/// variant with equal fields, ministry sets compared element by element.
pub open spec fn type_eq(a: LawIdType, b: LawIdType) -> bool {
    match (a, b) {
        (LawIdType::Constitution, LawIdType::Constitution) => true,
        (
            LawIdType::Act { rippou_type: r1, num: n1 },
            LawIdType::Act { rippou_type: r2, num: n2 },
        ) => r1 == r2 && n1 == n2,
        (
            LawIdType::CabinetOrder { efficacy: e1, num: n1 },
            LawIdType::CabinetOrder { efficacy: e2, num: n2 },
        ) => e1 == e2 && n1 == n2,
        (
            LawIdType::ImperialOrder { efficacy: e1, num: n1 },
            LawIdType::ImperialOrder { efficacy: e2, num: n2 },
        ) => e1 == e2 && n1 == n2,
        (
            LawIdType::DajokanFukoku { efficacy: e1, num: n1 },
            LawIdType::DajokanFukoku { efficacy: e2, num: n2 },
        ) => e1 == e2 && n1 == n2,
        (
            LawIdType::DajokanTasshi { efficacy: e1, num: n1 },
            LawIdType::DajokanTasshi { efficacy: e2, num: n2 },
        ) => e1 == e2 && n1 == n2,
        (
            LawIdType::DajokanHutatsu { efficacy: e1, num: n1 },
            LawIdType::DajokanHutatsu { efficacy: e2, num: n2 },
        ) => e1 == e2 && n1 == n2,
        (
            LawIdType::MinistryOrder { ministry: m1, num: n1 },
            LawIdType::MinistryOrder { ministry: m2, num: n2 },
        ) => ministry_eq(m1, m2) && n1 == n2,
        (
            LawIdType::Jinji { kind: k1, kind_serial: s1, amendment_serial: a1 },
            LawIdType::Jinji { kind: k2, kind_serial: s2, amendment_serial: a2 },
        ) => k1 == k2 && s1 == s2 && a1 == a2,
        (
            LawIdType::Regulation { institution: i1, num: n1 },
            LawIdType::Regulation { institution: i2, num: n2 },
        ) => i1 == i2 && n1 == n2,
        (
            LawIdType::PrimeMinisterDecision { month: m1, day: d1, num: n1 },
            LawIdType::PrimeMinisterDecision { month: m2, day: d2, num: n2 },
        ) => m1 == m2 && d1 == d2 && n1 == n2,
        _ => false,
    }
}

/// Equality of law identifiers as run-time comparison sees it.
pub open spec fn law_id_eq(a: LawId, b: LawId) -> bool {
    a.era == b.era && a.year == b.year && type_eq(a.law_id_type, b.law_id_type)
}

} // verus!
