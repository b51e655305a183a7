//! Encoding and decoding of law identifiers.
//!
//! [`encode`] renders a well-formed [`LawId`] as its fifteen-character
//! string; [`decode`] parses a string back, accepting exactly the strings
//! that some well-formed identifier renders to, plus the historical alias
//! institution code 17 (decoded as code 8). The contracts pin both
//! directions: `decode` returns `Ok` if and only if [`id_err`] classifies
//! the string as well formed, the error kind otherwise, and the value it
//! returns re-renders to the input string (with the single alias-code
//! exception).

use vstd::prelude::*;

use crate::digits::{
    all_dec_digits, all_hex_digits, chars_to_string, dec_seq, dec_seq_val, hex_seq, hex_seq_val,
    is_dec_digit, lemma_all_dec_split, lemma_dec_seq_of_digits, lemma_dec_seq_of_val,
    lemma_dec_seq_val_bound, lemma_hex_seq_of_digits, lemma_hex_seq_val_bound, lemma_pow10_small,
    lemma_pow16_small, parse_dec, parse_hex, pow10, pow16, push_dec, push_hex,
};
use crate::era::Era;
use crate::institution::{inst_field_ok, Institution};
use crate::law_id::{
    const_seq, efficacy_flag, era_char, era_char_ok, flag_num_err, id_err, is_reg17, law_id_eq,
    ministry_eq, payload_err, payload_reg17, rippou_flag, spec_encode_id, spec_encode_type,
    type_eq, type_wf, DecodeError, LawEfficacy, LawId, LawIdType, RippouType,
};
use crate::ministry::{
    codes_seq, gen_mask_ok, gen_valid_code, lemma_codes_of_mask_of, lemma_codes_seq_range,
    lemma_mask_of_bit, list_wf, mask_bit, mask_of, Ministry, MinistryContents,
};

verus! {

/// Appends the twelve-character rendering of a well-formed instrument-type
/// payload.
fn encode_type_into(out: &mut Vec<char>, t: &LawIdType)
    requires
        type_wf(*t),
    ensures
        final(out)@ == old(out)@ + spec_encode_type(*t),
{
    proof {
        lemma_pow10_small();
        lemma_pow16_small();
    }
    let ghost pre = out@;
    match t {
        LawIdType::Constitution => {
            out.push('C');
            out.push('O');
            out.push('N');
            out.push('S');
            out.push('T');
            out.push('I');
            out.push('T');
            out.push('U');
            out.push('T');
            out.push('I');
            out.push('O');
            out.push('N');
            proof {
                assert(out@ =~= pre + const_seq());
            }
        },
        LawIdType::Act { rippou_type, num } => {
            out.push('A');
            out.push('C');
            let f: u32 = match rippou_type {
                RippouType::Kakuhou => 0,
                RippouType::Syuin => 1000000,
                RippouType::Sanin => 100000,
            };
            push_dec(out, f, 7);
            push_dec(out, *num as u32, 3);
            proof {
                assert(out@ =~= pre + spec_encode_type(*t));
            }
        },
        LawIdType::CabinetOrder { efficacy, num } => {
            out.push('C');
            out.push('O');
            push_eff_fields(out, efficacy, *num as u32);
            proof {
                assert(out@ =~= pre + spec_encode_type(*t));
            }
        },
        LawIdType::ImperialOrder { efficacy, num } => {
            out.push('I');
            out.push('O');
            push_eff_fields(out, efficacy, *num as u32);
            proof {
                assert(out@ =~= pre + spec_encode_type(*t));
            }
        },
        LawIdType::DajokanFukoku { efficacy, num } => {
            out.push('D');
            out.push('F');
            push_eff_fields(out, efficacy, *num as u32);
            proof {
                assert(out@ =~= pre + spec_encode_type(*t));
            }
        },
        LawIdType::DajokanTasshi { efficacy, num } => {
            out.push('D');
            out.push('T');
            push_eff_fields(out, efficacy, *num as u32);
            proof {
                assert(out@ =~= pre + spec_encode_type(*t));
            }
        },
        LawIdType::DajokanHutatsu { efficacy, num } => {
            out.push('D');
            out.push('H');
            push_eff_fields(out, efficacy, *num as u32);
            proof {
                assert(out@ =~= pre + spec_encode_type(*t));
            }
        },
        LawIdType::MinistryOrder { ministry, num } => {
            out.push('M');
            let g = match ministry {
                Ministry::M1(_) => '1',
                Ministry::M2(_) => '2',
                Ministry::M3(_) => '3',
                Ministry::M4(_) => '4',
                Ministry::M5(_) => '5',
                Ministry::M6(_) => '6',
            };
            out.push(g);
            let m = ministry.mask();
            push_hex(out, m, 7);
            push_dec(out, *num as u32, 3);
            proof {
                assert(out@ =~= pre + spec_encode_type(*t));
            }
        },
        LawIdType::Jinji { kind, kind_serial, amendment_serial } => {
            out.push('R');
            out.push('J');
            out.push('N');
            out.push('J');
            push_dec(out, *kind as u32, 2);
            push_dec(out, *kind_serial as u32, 3);
            push_dec(out, *amendment_serial as u32, 3);
            proof {
                assert(out@ =~= pre + spec_encode_type(*t));
            }
        },
        LawIdType::Regulation { institution, num } => {
            out.push('R');
            let code = institution.to_int();
            push_dec(out, code as u32, 8);
            push_dec(out, *num as u32, 3);
            proof {
                assert(out@ =~= pre + spec_encode_type(*t));
            }
        },
        LawIdType::PrimeMinisterDecision { month, day, num } => {
            out.push('R');
            out.push('P');
            out.push('M');
            out.push('D');
            push_dec(out, *month as u32, 2);
            push_dec(out, *day as u32, 2);
            push_dec(out, *num as u32, 4);
            proof {
                assert(out@ =~= pre + spec_encode_type(*t));
            }
        },
    }
}

/// Appends a seven-digit efficacy flag and a three-digit number.
fn push_eff_fields(out: &mut Vec<char>, efficacy: &LawEfficacy, num: u32)
    requires
        num < 1000,
    ensures
        final(out)@ == old(out)@ + dec_seq(efficacy_flag(*efficacy), 7) + dec_seq(num as int, 3),
{
    proof {
        lemma_pow10_small();
    }
    let f: u32 = match efficacy {
        LawEfficacy::CabinetOrder => 0,
        LawEfficacy::Law => 1000000,
    };
    push_dec(out, f, 7);
    push_dec(out, num, 3);
}

/// Appends the fifteen-character rendering of a well-formed identifier.
pub(crate) fn encode_id_into(out: &mut Vec<char>, id: &LawId)
    requires
        id.wf(),
    ensures
        final(out)@ == old(out)@ + spec_encode_id(*id),
{
    proof {
        lemma_pow10_small();
    }
    let ghost pre = out@;
    let ec = match id.era {
        Era::Meiji => '1',
        Era::Taisho => '2',
        Era::Showa => '3',
        Era::Heisei => '4',
        Era::Reiwa => '5',
    };
    out.push(ec);
    push_dec(out, id.year as u32, 2);
    encode_type_into(out, &id.law_id_type);
    proof {
        assert(out@ =~= pre + spec_encode_id(*id));
    }
}

/// The fifteen-character rendering of a well-formed law identifier.
pub fn encode(id: &LawId) -> (r: String)
    requires
        id.wf(),
    ensures
        r@ == spec_encode_id(*id),
{
    let mut out: Vec<char> = Vec::new();
    encode_id_into(&mut out, id);
    proof {
        assert(out@ =~= spec_encode_id(*id));
    }
    chars_to_string(&out)
}

/// Parses the shared seven-digit flag and three-digit number of the
/// efficacy-flagged payloads.
fn parse_eff_fields(p: &str) -> (r: Result<(LawEfficacy, u32), DecodeError>)
    requires
        p@.len() == 12,
    ensures
        r is Ok <==> flag_num_err(p@, false) is None,
        r matches Err(e) ==> flag_num_err(p@, false) == Some(e),
        r matches Ok(x) ==> ({
            &&& dec_seq(efficacy_flag(x.0), 7) == p@.subrange(2, 9)
            &&& x.1 < 1000
            &&& dec_seq(x.1 as int, 3) == p@.subrange(9, 12)
        }),
{
    proof {
        lemma_pow10_small();
    }
    let f = match parse_dec(p, 2, 9) {
        Some(f) => f,
        None => {
            return Err(DecodeError::MalformedIdentifier);
        },
    };
    let efficacy = if f == 0 {
        LawEfficacy::CabinetOrder
    } else if f == 1000000 {
        LawEfficacy::Law
    } else {
        return Err(DecodeError::UnknownEnumerant);
    };
    let num = match parse_dec(p, 9, 12) {
        Some(n) => n,
        None => {
            return Err(DecodeError::MalformedIdentifier);
        },
    };
    proof {
        lemma_dec_seq_of_digits(p@.subrange(2, 9));
        lemma_dec_seq_of_digits(p@.subrange(9, 12));
        lemma_dec_seq_val_bound(p@.subrange(9, 12));
    }
    Ok((efficacy, num))
}

/// Parses the flag and number of an Act payload, where the flag may also
/// name a member bill of either house.
fn parse_act_fields(p: &str) -> (r: Result<(RippouType, u32), DecodeError>)
    requires
        p@.len() == 12,
    ensures
        r is Ok <==> flag_num_err(p@, true) is None,
        r matches Err(e) ==> flag_num_err(p@, true) == Some(e),
        r matches Ok(x) ==> ({
            &&& dec_seq(rippou_flag(x.0), 7) == p@.subrange(2, 9)
            &&& x.1 < 1000
            &&& dec_seq(x.1 as int, 3) == p@.subrange(9, 12)
        }),
{
    proof {
        lemma_pow10_small();
    }
    let f = match parse_dec(p, 2, 9) {
        Some(f) => f,
        None => {
            return Err(DecodeError::MalformedIdentifier);
        },
    };
    let rippou_type = if f == 0 {
        RippouType::Kakuhou
    } else if f == 1000000 {
        RippouType::Syuin
    } else if f == 100000 {
        RippouType::Sanin
    } else {
        return Err(DecodeError::UnknownEnumerant);
    };
    let num = match parse_dec(p, 9, 12) {
        Some(n) => n,
        None => {
            return Err(DecodeError::MalformedIdentifier);
        },
    };
    proof {
        lemma_dec_seq_of_digits(p@.subrange(2, 9));
        lemma_dec_seq_of_digits(p@.subrange(9, 12));
        lemma_dec_seq_val_bound(p@.subrange(9, 12));
    }
    Ok((rippou_type, num))
}

/// Parses an Act payload.
fn decode_act(p: &str) -> (r: Result<LawIdType, DecodeError>)
    requires
        p@.len() == 12,
        p@[0] == 'A',
        p@[1] == 'C',
    ensures
        r is Ok <==> payload_err(p@) is None,
        r matches Err(e) ==> payload_err(p@) == Some(e),
        r matches Ok(t) ==> type_wf(t) && spec_encode_type(t) == p@ && !payload_reg17(p@),
{
    match parse_act_fields(p) {
        Ok((rippou_type, num)) => {
            let t = LawIdType::Act { rippou_type, num: num as usize };
            proof {
                lemma_pow10_small();
                assert(spec_encode_type(t) =~= p@);
            }
            Ok(t)
        },
        Err(e) => Err(e),
    }
}

/// Parses a cabinet-order payload.
fn decode_co(p: &str) -> (r: Result<LawIdType, DecodeError>)
    requires
        p@.len() == 12,
        p@[0] == 'C',
        p@[1] == 'O',
        p@ != const_seq(),
    ensures
        r is Ok <==> payload_err(p@) is None,
        r matches Err(e) ==> payload_err(p@) == Some(e),
        r matches Ok(t) ==> type_wf(t) && spec_encode_type(t) == p@ && !payload_reg17(p@),
{
    match parse_eff_fields(p) {
        Ok((efficacy, num)) => {
            let t = LawIdType::CabinetOrder { efficacy, num: num as usize };
            proof {
                lemma_pow10_small();
                assert(spec_encode_type(t) =~= p@);
            }
            Ok(t)
        },
        Err(e) => Err(e),
    }
}

/// Parses an imperial-order payload.
fn decode_io(p: &str) -> (r: Result<LawIdType, DecodeError>)
    requires
        p@.len() == 12,
        p@[0] == 'I',
        p@[1] == 'O',
    ensures
        r is Ok <==> payload_err(p@) is None,
        r matches Err(e) ==> payload_err(p@) == Some(e),
        r matches Ok(t) ==> type_wf(t) && spec_encode_type(t) == p@ && !payload_reg17(p@),
{
    match parse_eff_fields(p) {
        Ok((efficacy, num)) => {
            let t = LawIdType::ImperialOrder { efficacy, num: num as usize };
            proof {
                lemma_pow10_small();
                assert(spec_encode_type(t) =~= p@);
            }
            Ok(t)
        },
        Err(e) => Err(e),
    }
}

/// Parses a Dajokan proclamation payload.
fn decode_df(p: &str) -> (r: Result<LawIdType, DecodeError>)
    requires
        p@.len() == 12,
        p@[0] == 'D',
        p@[1] == 'F',
    ensures
        r is Ok <==> payload_err(p@) is None,
        r matches Err(e) ==> payload_err(p@) == Some(e),
        r matches Ok(t) ==> type_wf(t) && spec_encode_type(t) == p@ && !payload_reg17(p@),
{
    match parse_eff_fields(p) {
        Ok((efficacy, num)) => {
            let t = LawIdType::DajokanFukoku { efficacy, num: num as usize };
            proof {
                lemma_pow10_small();
                assert(spec_encode_type(t) =~= p@);
            }
            Ok(t)
        },
        Err(e) => Err(e),
    }
}

/// Parses a Dajokan directive payload.
fn decode_dt(p: &str) -> (r: Result<LawIdType, DecodeError>)
    requires
        p@.len() == 12,
        p@[0] == 'D',
        p@[1] == 'T',
    ensures
        r is Ok <==> payload_err(p@) is None,
        r matches Err(e) ==> payload_err(p@) == Some(e),
        r matches Ok(t) ==> type_wf(t) && spec_encode_type(t) == p@ && !payload_reg17(p@),
{
    match parse_eff_fields(p) {
        Ok((efficacy, num)) => {
            let t = LawIdType::DajokanTasshi { efficacy, num: num as usize };
            proof {
                lemma_pow10_small();
                assert(spec_encode_type(t) =~= p@);
            }
            Ok(t)
        },
        Err(e) => Err(e),
    }
}

/// Parses a Dajokan circular payload.
fn decode_dh(p: &str) -> (r: Result<LawIdType, DecodeError>)
    requires
        p@.len() == 12,
        p@[0] == 'D',
        p@[1] == 'H',
    ensures
        r is Ok <==> payload_err(p@) is None,
        r matches Err(e) ==> payload_err(p@) == Some(e),
        r matches Ok(t) ==> type_wf(t) && spec_encode_type(t) == p@ && !payload_reg17(p@),
{
    match parse_eff_fields(p) {
        Ok((efficacy, num)) => {
            let t = LawIdType::DajokanHutatsu { efficacy, num: num as usize };
            proof {
                lemma_pow10_small();
                assert(spec_encode_type(t) =~= p@);
            }
            Ok(t)
        },
        Err(e) => Err(e),
    }
}

/// Parses a ministerial-order payload: generation digit, seven-digit
/// hexadecimal ministry mask, three-digit number.
fn decode_ministry(p: &str) -> (r: Result<LawIdType, DecodeError>)
    requires
        p@.len() == 12,
        p@[0] == 'M',
    ensures
        r is Ok <==> payload_err(p@) is None,
        r matches Err(e) ==> payload_err(p@) == Some(e),
        r matches Ok(t) ==> type_wf(t) && spec_encode_type(t) == p@ && !payload_reg17(p@),
{
    proof {
        lemma_pow10_small();
        lemma_pow16_small();
    }
    let c1 = p.get_char(1);
    if !(c1 == '1' || c1 == '2' || c1 == '3' || c1 == '4' || c1 == '5' || c1 == '6') {
        return Err(DecodeError::MalformedIdentifier);
    }
    let mask = match parse_hex(p, 2, 9) {
        Some(m) => m,
        None => {
            return Err(DecodeError::MalformedIdentifier);
        },
    };
    proof {
        lemma_hex_seq_val_bound(p@.subrange(2, 9));
    }
    let ministry = match Ministry::from_gen_mask(c1, mask) {
        Ok(m) => m,
        Err(_) => {
            return Err(DecodeError::UnknownEnumerant);
        },
    };
    let num = match parse_dec(p, 9, 12) {
        Some(n) => n,
        None => {
            return Err(DecodeError::MalformedIdentifier);
        },
    };
    let t = LawIdType::MinistryOrder { ministry, num: num as usize };
    proof {
        lemma_hex_seq_of_digits(p@.subrange(2, 9));
        lemma_dec_seq_of_digits(p@.subrange(9, 12));
        lemma_dec_seq_val_bound(p@.subrange(9, 12));
        assert(spec_encode_type(t) =~= p@);
    }
    Ok(t)
}

/// Parses a personnel-authority rule payload: two-digit kind and two
/// three-digit serials.
fn decode_jinji(p: &str) -> (r: Result<LawIdType, DecodeError>)
    requires
        p@.len() == 12,
        p@[0] == 'R',
        p@[1] == 'J',
        p@[2] == 'N',
        p@[3] == 'J',
    ensures
        r is Ok <==> payload_err(p@) is None,
        r matches Err(e) ==> payload_err(p@) == Some(e),
        r matches Ok(t) ==> type_wf(t) && spec_encode_type(t) == p@ && !payload_reg17(p@),
{
    proof {
        lemma_pow10_small();
        lemma_all_dec_split(p@, 4, 6, 12);
        lemma_all_dec_split(p@, 6, 9, 12);
    }
    let kind = match parse_dec(p, 4, 6) {
        Some(n) => n,
        None => {
            return Err(DecodeError::MalformedIdentifier);
        },
    };
    let kind_serial = match parse_dec(p, 6, 9) {
        Some(n) => n,
        None => {
            return Err(DecodeError::MalformedIdentifier);
        },
    };
    let amendment_serial = match parse_dec(p, 9, 12) {
        Some(n) => n,
        None => {
            return Err(DecodeError::MalformedIdentifier);
        },
    };
    let t = LawIdType::Jinji {
        kind: kind as usize,
        kind_serial: kind_serial as usize,
        amendment_serial: amendment_serial as usize,
    };
    proof {
        lemma_dec_seq_of_digits(p@.subrange(4, 6));
        lemma_dec_seq_of_digits(p@.subrange(6, 9));
        lemma_dec_seq_of_digits(p@.subrange(9, 12));
        lemma_dec_seq_val_bound(p@.subrange(4, 6));
        lemma_dec_seq_val_bound(p@.subrange(6, 9));
        lemma_dec_seq_val_bound(p@.subrange(9, 12));
        assert(p@.subrange(1, 9)[0] == p@[1]);
        assert(!payload_reg17(p@));
        assert(spec_encode_type(t) =~= p@);
    }
    Ok(t)
}

/// Parses a prime-ministerial decision payload: month, day and a four-digit
/// serial.
fn decode_pmd(p: &str) -> (r: Result<LawIdType, DecodeError>)
    requires
        p@.len() == 12,
        p@[0] == 'R',
        p@[1] == 'P',
        p@[2] == 'M',
        p@[3] == 'D',
    ensures
        r is Ok <==> payload_err(p@) is None,
        r matches Err(e) ==> payload_err(p@) == Some(e),
        r matches Ok(t) ==> type_wf(t) && spec_encode_type(t) == p@ && !payload_reg17(p@),
{
    proof {
        lemma_pow10_small();
        lemma_all_dec_split(p@, 4, 6, 12);
        lemma_all_dec_split(p@, 6, 8, 12);
    }
    let month = match parse_dec(p, 4, 6) {
        Some(n) => n,
        None => {
            return Err(DecodeError::MalformedIdentifier);
        },
    };
    let day = match parse_dec(p, 6, 8) {
        Some(n) => n,
        None => {
            return Err(DecodeError::MalformedIdentifier);
        },
    };
    let num = match parse_dec(p, 8, 12) {
        Some(n) => n,
        None => {
            return Err(DecodeError::MalformedIdentifier);
        },
    };
    let t = LawIdType::PrimeMinisterDecision {
        month: month as usize,
        day: day as usize,
        num: num as usize,
    };
    proof {
        lemma_dec_seq_of_digits(p@.subrange(4, 6));
        lemma_dec_seq_of_digits(p@.subrange(6, 8));
        lemma_dec_seq_of_digits(p@.subrange(8, 12));
        lemma_dec_seq_val_bound(p@.subrange(4, 6));
        lemma_dec_seq_val_bound(p@.subrange(6, 8));
        lemma_dec_seq_val_bound(p@.subrange(8, 12));
        assert(p@.subrange(1, 9)[0] == p@[1]);
        assert(!payload_reg17(p@));
        assert(spec_encode_type(t) =~= p@);
    }
    Ok(t)
}

/// Parses an institutional-regulation payload: an eight-digit institution
/// code and a three-digit number. The alias code 17 decodes to the
/// institution of code 8, so only here can the re-rendering differ from the
/// input, in exactly the field's two last digits.
fn decode_regulation(p: &str) -> (r: Result<LawIdType, DecodeError>)
    requires
        p@.len() == 12,
        p@[0] == 'R',
        !(p@[1] == 'J' && p@[2] == 'N' && p@[3] == 'J'),
        !(p@[1] == 'P' && p@[2] == 'M' && p@[3] == 'D'),
    ensures
        r is Ok <==> payload_err(p@) is None,
        r matches Err(e) ==> payload_err(p@) == Some(e),
        r matches Ok(t) ==> type_wf(t) && spec_encode_type(t) == (if payload_reg17(p@) {
            p@.update(7, '0').update(8, '8')
        } else {
            p@
        }),
{
    proof {
        lemma_pow10_small();
    }
    let field = match parse_dec(p, 1, 9) {
        Some(n) => n,
        None => {
            return Err(DecodeError::MalformedIdentifier);
        },
    };
    let institution = match Institution::from_int(field as usize) {
        Some(i) => i,
        None => {
            return Err(DecodeError::UnknownEnumerant);
        },
    };
    let num = match parse_dec(p, 9, 12) {
        Some(n) => n,
        None => {
            return Err(DecodeError::MalformedIdentifier);
        },
    };
    let t = LawIdType::Regulation { institution, num: num as usize };
    proof {
        lemma_dec_seq_of_digits(p@.subrange(1, 9));
        lemma_dec_seq_of_digits(p@.subrange(9, 12));
        lemma_dec_seq_val_bound(p@.subrange(9, 12));
        if field == 17 {
            assert(institution.spec_code() == 8);
            lemma_dec_seq_of_val(8, 8);
            lemma_dec_seq_of_val(17, 8);
            assert(dec_seq(8, 8) =~= dec_seq(17, 8).update(6, '0').update(7, '8')) by {
                reveal_with_fuel(dec_seq, 9);
            }
            assert(spec_encode_type(t) =~= p@.update(7, '0').update(8, '8'));
        } else {
            assert(institution.spec_code() == field);
            assert(spec_encode_type(t) =~= p@);
        }
    }
    Ok(t)
}

/// Parses a twelve-character instrument-type payload: the literal
/// Constitution word, or a tagged fixed-width record, longer tags tried
/// before the bare regulation tag.
fn decode_type(p: &str) -> (r: Result<LawIdType, DecodeError>)
    requires
        p@.len() == 12,
    ensures
        r is Ok <==> payload_err(p@) is None,
        r matches Err(e) ==> payload_err(p@) == Some(e),
        r matches Ok(t) ==> type_wf(t) && spec_encode_type(t) == (if payload_reg17(p@) {
            p@.update(7, '0').update(8, '8')
        } else {
            p@
        }),
{
    let c0 = p.get_char(0);
    let c1 = p.get_char(1);
    let is_const = c0 == 'C' && c1 == 'O' && p.get_char(2) == 'N' && p.get_char(3) == 'S'
        && p.get_char(4) == 'T' && p.get_char(5) == 'I' && p.get_char(6) == 'T' && p.get_char(7)
        == 'U' && p.get_char(8) == 'T' && p.get_char(9) == 'I' && p.get_char(10) == 'O'
        && p.get_char(11) == 'N';
    proof {
        if is_const {
            assert(p@ =~= const_seq());
        }
        if p@ == const_seq() {
            assert(p@[0] == 'C' && p@[1] == 'O' && p@[2] == 'N' && p@[3] == 'S' && p@[4] == 'T'
                && p@[5] == 'I' && p@[6] == 'T' && p@[7] == 'U' && p@[8] == 'T' && p@[9] == 'I'
                && p@[10] == 'O' && p@[11] == 'N');
        }
    }
    if is_const {
        return Ok(LawIdType::Constitution);
    }
    if c0 == 'A' && c1 == 'C' {
        decode_act(p)
    } else if c0 == 'C' && c1 == 'O' {
        decode_co(p)
    } else if c0 == 'I' && c1 == 'O' {
        decode_io(p)
    } else if c0 == 'D' && c1 == 'F' {
        decode_df(p)
    } else if c0 == 'D' && c1 == 'T' {
        decode_dt(p)
    } else if c0 == 'D' && c1 == 'H' {
        decode_dh(p)
    } else if c0 == 'M' {
        decode_ministry(p)
    } else if c0 == 'R' && c1 == 'J' && p.get_char(2) == 'N' && p.get_char(3) == 'J' {
        decode_jinji(p)
    } else if c0 == 'R' && c1 == 'P' && p.get_char(2) == 'M' && p.get_char(3) == 'D' {
        decode_pmd(p)
    } else if c0 == 'R' {
        decode_regulation(p)
    } else {
        Err(DecodeError::MalformedIdentifier)
    }
}

/// Parses a fifteen-character law identifier. Returns `Ok` exactly when
/// [`id_err`] is `None`, that error otherwise; the identifier returned is
/// well formed and renders back to the input, except that the alias
/// institution code 17 renders back as the canonical code 8.
pub fn decode(s: &str) -> (r: Result<LawId, DecodeError>)
    ensures
        r is Ok <==> id_err(s@) is None,
        r matches Err(e) ==> id_err(s@) == Some(e),
        r matches Ok(v) ==> v.wf() && spec_encode_id(v) == (if is_reg17(s@) {
            s@.update(10, '0').update(11, '8')
        } else {
            s@
        }),
{
    proof {
        lemma_pow10_small();
    }
    let n = s.unicode_len();
    if n != 15 {
        return Err(DecodeError::MalformedIdentifier);
    }
    let c0 = s.get_char(0);
    let era = if c0 == '1' {
        Era::Meiji
    } else if c0 == '2' {
        Era::Taisho
    } else if c0 == '3' {
        Era::Showa
    } else if c0 == '4' {
        Era::Heisei
    } else if c0 == '5' {
        Era::Reiwa
    } else {
        return Err(DecodeError::UnknownEnumerant);
    };
    let year = match parse_dec(s, 1, 3) {
        Some(y) => y,
        None => {
            return Err(DecodeError::MalformedIdentifier);
        },
    };
    let p = s.substring_char(3, 15);
    match decode_type(p) {
        Ok(t) => {
            let v = LawId { era, year: year as usize, law_id_type: t };
            proof {
                lemma_dec_seq_of_digits(s@.subrange(1, 3));
                lemma_dec_seq_val_bound(s@.subrange(1, 3));
                assert(era_char(v.era) == s@[0]);
                if payload_reg17(p@) {
                    assert(spec_encode_id(v) =~= s@.update(10, '0').update(11, '8'));
                } else {
                    assert(spec_encode_id(v) =~= s@);
                }
            }
            Ok(v)
        },
        Err(e) => Err(e),
    }
}


/// A number for each instrument-type variant, used to show that a rendering
/// determines its variant.
spec fn variant_num(t: LawIdType) -> int {
    match t {
        LawIdType::Constitution => 0,
        LawIdType::Act { .. } => 1,
        LawIdType::CabinetOrder { .. } => 2,
        LawIdType::ImperialOrder { .. } => 3,
        LawIdType::DajokanFukoku { .. } => 4,
        LawIdType::DajokanTasshi { .. } => 5,
        LawIdType::DajokanHutatsu { .. } => 6,
        LawIdType::MinistryOrder { .. } => 7,
        LawIdType::Jinji { .. } => 8,
        LawIdType::PrimeMinisterDecision { .. } => 9,
        LawIdType::Regulation { .. } => 10,
    }
}

/// The branch of the payload grammar a twelve-character string falls into,
/// in the decoder's order of dispatch.
spec fn branch_of(p: Seq<char>) -> int {
    if p == const_seq() {
        0
    } else if p[0] == 'A' && p[1] == 'C' {
        1
    } else if p[0] == 'C' && p[1] == 'O' {
        2
    } else if p[0] == 'I' && p[1] == 'O' {
        3
    } else if p[0] == 'D' && p[1] == 'F' {
        4
    } else if p[0] == 'D' && p[1] == 'T' {
        5
    } else if p[0] == 'D' && p[1] == 'H' {
        6
    } else if p[0] == 'M' {
        7
    } else if p[0] == 'R' && p[1] == 'J' && p[2] == 'N' && p[3] == 'J' {
        8
    } else if p[0] == 'R' && p[1] == 'P' && p[2] == 'M' && p[3] == 'D' {
        9
    } else if p[0] == 'R' {
        10
    } else {
        11
    }
}

/// The shared shape facts of a two-character tag followed by a seven-digit
/// flag and a three-digit number.
proof fn lemma_tag_flag_num(p: Seq<char>, c0: char, c1: char, flagv: int, num: int)
    requires
        p == seq![c0, c1] + dec_seq(flagv, 7) + dec_seq(num, 3),
        0 <= flagv < 10000000,
        0 <= num < 1000,
    ensures
        p.len() == 12,
        p[0] == c0,
        p[1] == c1,
        all_dec_digits(p.subrange(2, 9)),
        dec_seq_val(p.subrange(2, 9)) == flagv,
        all_dec_digits(p.subrange(9, 12)),
        dec_seq_val(p.subrange(9, 12)) == num,
        p[2] != 'N',
{
    lemma_pow10_small();
    lemma_dec_seq_of_val(flagv, 7);
    lemma_dec_seq_of_val(num, 3);
    assert(p.subrange(2, 9) =~= dec_seq(flagv, 7));
    assert(p.subrange(9, 12) =~= dec_seq(num, 3));
    assert(p[2] == p.subrange(2, 9)[0]);
    assert(is_dec_digit(p[2]));
}

/// A well-formed ministry set only sets bits of codes its generation
/// defines.
proof fn lemma_ministry_mask_ok(m: Ministry)
    ensures
        gen_mask_ok(m.gen_char(), m.spec_mask()),
{
    match m {
        Ministry::M1(l) => {
            lemma_codes_seq_range(l@);
            assert forall|c: u32|
                1 <= c <= 28 && mask_bit(m.spec_mask(), (c - 1) as u32) implies gen_valid_code(
                m.gen_char(),
                c,
            ) by {
                lemma_mask_of_bit(codes_seq(l@), (c - 1) as u32);
                let k = choose|k: int|
                    0 <= k < codes_seq(l@).len() && #[trigger] codes_seq(l@)[k] == (c - 1) as u32
                        + 1;
                assert(codes_seq(l@)[k] == c);
            }
        },
        Ministry::M2(l) => {
            lemma_codes_seq_range(l@);
            assert forall|c: u32|
                1 <= c <= 28 && mask_bit(m.spec_mask(), (c - 1) as u32) implies gen_valid_code(
                m.gen_char(),
                c,
            ) by {
                lemma_mask_of_bit(codes_seq(l@), (c - 1) as u32);
                let k = choose|k: int|
                    0 <= k < codes_seq(l@).len() && #[trigger] codes_seq(l@)[k] == (c - 1) as u32
                        + 1;
                assert(codes_seq(l@)[k] == c);
            }
        },
        Ministry::M3(l) => {
            lemma_codes_seq_range(l@);
            assert forall|c: u32|
                1 <= c <= 28 && mask_bit(m.spec_mask(), (c - 1) as u32) implies gen_valid_code(
                m.gen_char(),
                c,
            ) by {
                lemma_mask_of_bit(codes_seq(l@), (c - 1) as u32);
                let k = choose|k: int|
                    0 <= k < codes_seq(l@).len() && #[trigger] codes_seq(l@)[k] == (c - 1) as u32
                        + 1;
                assert(codes_seq(l@)[k] == c);
            }
        },
        Ministry::M4(l) => {
            lemma_codes_seq_range(l@);
            assert forall|c: u32|
                1 <= c <= 28 && mask_bit(m.spec_mask(), (c - 1) as u32) implies gen_valid_code(
                m.gen_char(),
                c,
            ) by {
                lemma_mask_of_bit(codes_seq(l@), (c - 1) as u32);
                let k = choose|k: int|
                    0 <= k < codes_seq(l@).len() && #[trigger] codes_seq(l@)[k] == (c - 1) as u32
                        + 1;
                assert(codes_seq(l@)[k] == c);
            }
        },
        Ministry::M5(l) => {
            lemma_codes_seq_range(l@);
            assert forall|c: u32|
                1 <= c <= 28 && mask_bit(m.spec_mask(), (c - 1) as u32) implies gen_valid_code(
                m.gen_char(),
                c,
            ) by {
                lemma_mask_of_bit(codes_seq(l@), (c - 1) as u32);
                let k = choose|k: int|
                    0 <= k < codes_seq(l@).len() && #[trigger] codes_seq(l@)[k] == (c - 1) as u32
                        + 1;
                assert(codes_seq(l@)[k] == c);
            }
        },
        Ministry::M6(l) => {
            lemma_codes_seq_range(l@);
            assert forall|c: u32|
                1 <= c <= 28 && mask_bit(m.spec_mask(), (c - 1) as u32) implies gen_valid_code(
                m.gen_char(),
                c,
            ) by {
                lemma_mask_of_bit(codes_seq(l@), (c - 1) as u32);
                let k = choose|k: int|
                    0 <= k < codes_seq(l@).len() && #[trigger] codes_seq(l@)[k] == (c - 1) as u32
                        + 1;
                assert(codes_seq(l@)[k] == c);
            }
        },
    }
}

/// Every rendering of a well-formed instrument type parses back without
/// error, never carries the alias institution code, and falls into the
/// grammar branch of its own variant.
#[verifier::rlimit(60)]
proof fn lemma_payload_render(t: LawIdType)
    requires
        type_wf(t),
    ensures
        spec_encode_type(t).len() == 12,
        payload_err(spec_encode_type(t)) is None,
        !payload_reg17(spec_encode_type(t)),
        branch_of(spec_encode_type(t)) == variant_num(t),
{
    lemma_pow10_small();
    lemma_pow16_small();
    let p = spec_encode_type(t);
    match t {
        LawIdType::Constitution => {
            assert(p[0] == 'C');
        },
        LawIdType::Act { rippou_type, num } => {
            lemma_tag_flag_num(p, 'A', 'C', rippou_flag(rippou_type), num as int);
        },
        LawIdType::CabinetOrder { efficacy, num } => {
            lemma_tag_flag_num(p, 'C', 'O', efficacy_flag(efficacy), num as int);
            assert(p != const_seq());
        },
        LawIdType::ImperialOrder { efficacy, num } => {
            lemma_tag_flag_num(p, 'I', 'O', efficacy_flag(efficacy), num as int);
        },
        LawIdType::DajokanFukoku { efficacy, num } => {
            lemma_tag_flag_num(p, 'D', 'F', efficacy_flag(efficacy), num as int);
        },
        LawIdType::DajokanTasshi { efficacy, num } => {
            lemma_tag_flag_num(p, 'D', 'T', efficacy_flag(efficacy), num as int);
        },
        LawIdType::DajokanHutatsu { efficacy, num } => {
            lemma_tag_flag_num(p, 'D', 'H', efficacy_flag(efficacy), num as int);
        },
        LawIdType::MinistryOrder { ministry, num } => {
            ministry.lemma_mask_bound();
            let mask = ministry.spec_mask();
            crate::digits::lemma_hex_seq_of_val(mask as int, 7);
            lemma_dec_seq_of_val(num as int, 3);
            assert(p.subrange(2, 9) =~= hex_seq(mask as int, 7));
            assert(p.subrange(9, 12) =~= dec_seq(num as int, 3));
            assert(p[0] == 'M');
            assert(p[1] == ministry.gen_char());
            lemma_ministry_mask_ok(ministry);
            assert(hex_seq_val(p.subrange(2, 9)) == mask as int);
            assert(p[1] == '1' || p[1] == '2' || p[1] == '3' || p[1] == '4' || p[1] == '5' || p[1]
                == '6');
            assert(payload_err(p) is None);
        },
        LawIdType::Jinji { kind, kind_serial, amendment_serial } => {
            lemma_dec_seq_of_val(kind as int, 2);
            lemma_dec_seq_of_val(kind_serial as int, 3);
            lemma_dec_seq_of_val(amendment_serial as int, 3);
            assert(p.subrange(4, 6) =~= dec_seq(kind as int, 2));
            assert(p.subrange(6, 9) =~= dec_seq(kind_serial as int, 3));
            assert(p.subrange(9, 12) =~= dec_seq(amendment_serial as int, 3));
            assert(p[0] == 'R' && p[1] == 'J' && p[2] == 'N' && p[3] == 'J');
            lemma_all_dec_split(p, 4, 6, 12);
            lemma_all_dec_split(p, 6, 9, 12);
            assert(p.subrange(1, 9)[0] == p[1]);
            assert(!payload_reg17(p));
        },
        LawIdType::PrimeMinisterDecision { month, day, num } => {
            lemma_dec_seq_of_val(month as int, 2);
            lemma_dec_seq_of_val(day as int, 2);
            lemma_dec_seq_of_val(num as int, 4);
            assert(p.subrange(4, 6) =~= dec_seq(month as int, 2));
            assert(p.subrange(6, 8) =~= dec_seq(day as int, 2));
            assert(p.subrange(8, 12) =~= dec_seq(num as int, 4));
            assert(p[0] == 'R' && p[1] == 'P' && p[2] == 'M' && p[3] == 'D');
            lemma_all_dec_split(p, 4, 6, 12);
            lemma_all_dec_split(p, 6, 8, 12);
            assert(p.subrange(1, 9)[0] == p[1]);
            assert(!payload_reg17(p));
        },
        LawIdType::Regulation { institution, num } => {
            institution.lemma_code_facts();
            let code = institution.spec_code();
            lemma_dec_seq_of_val(code as int, 8);
            lemma_dec_seq_of_val(num as int, 3);
            assert(p.subrange(1, 9) =~= dec_seq(code as int, 8));
            assert(p.subrange(9, 12) =~= dec_seq(num as int, 3));
            assert(p[0] == 'R');
            assert(p[1] == p.subrange(1, 9)[0]);
            assert(is_dec_digit(p[1]));
            assert(dec_seq_val(p.subrange(1, 9)) == code as int);
            assert(inst_field_ok(code as int));
            assert(payload_err(p) is None);
            assert(!payload_reg17(p));
        },
    }
}

/// Every rendering of a well-formed identifier parses back without error,
/// and never carries the alias institution code 17: together with the
/// contracts of `encode` and `decode`, decoding an encoded identifier
/// always succeeds.
pub proof fn lemma_encode_valid(v: LawId)
    requires
        v.wf(),
    ensures
        id_err(spec_encode_id(v)) is None,
        !is_reg17(spec_encode_id(v)),
{
    lemma_pow10_small();
    let s = spec_encode_id(v);
    lemma_payload_render(v.law_id_type);
    lemma_dec_seq_of_val(v.year as int, 2);
    assert(s.len() == 15);
    assert(s[0] == era_char(v.era));
    assert(era_char_ok(s[0]));
    assert(s.subrange(1, 3) =~= dec_seq(v.year as int, 2));
    assert(s.subrange(3, 15) =~= spec_encode_type(v.law_id_type));
}

/// The renderings of two well-formed instrument types coincide only when
/// the types are equal (ministry sets compared element by element, as
/// run-time equality does).
#[verifier::rlimit(100)]
proof fn lemma_payload_injective(t1: LawIdType, t2: LawIdType)
    requires
        type_wf(t1),
        type_wf(t2),
        spec_encode_type(t1) == spec_encode_type(t2),
    ensures
        type_eq(t1, t2),
{
    lemma_pow10_small();
    lemma_pow16_small();
    let p = spec_encode_type(t1);
    lemma_payload_render(t1);
    lemma_payload_render(t2);
    assert(variant_num(t1) == variant_num(t2));
    match (t1, t2) {
        (LawIdType::Constitution, LawIdType::Constitution) => {
        },
        (
            LawIdType::Act { rippou_type: r1, num: n1 },
            LawIdType::Act { rippou_type: r2, num: n2 },
        ) => {
            lemma_tag_flag_num(p, 'A', 'C', rippou_flag(r1), n1 as int);
            lemma_tag_flag_num(p, 'A', 'C', rippou_flag(r2), n2 as int);
        },
        (
            LawIdType::CabinetOrder { efficacy: e1, num: n1 },
            LawIdType::CabinetOrder { efficacy: e2, num: n2 },
        ) => {
            lemma_tag_flag_num(p, 'C', 'O', efficacy_flag(e1), n1 as int);
            lemma_tag_flag_num(p, 'C', 'O', efficacy_flag(e2), n2 as int);
        },
        (
            LawIdType::ImperialOrder { efficacy: e1, num: n1 },
            LawIdType::ImperialOrder { efficacy: e2, num: n2 },
        ) => {
            lemma_tag_flag_num(p, 'I', 'O', efficacy_flag(e1), n1 as int);
            lemma_tag_flag_num(p, 'I', 'O', efficacy_flag(e2), n2 as int);
        },
        (
            LawIdType::DajokanFukoku { efficacy: e1, num: n1 },
            LawIdType::DajokanFukoku { efficacy: e2, num: n2 },
        ) => {
            lemma_tag_flag_num(p, 'D', 'F', efficacy_flag(e1), n1 as int);
            lemma_tag_flag_num(p, 'D', 'F', efficacy_flag(e2), n2 as int);
        },
        (
            LawIdType::DajokanTasshi { efficacy: e1, num: n1 },
            LawIdType::DajokanTasshi { efficacy: e2, num: n2 },
        ) => {
            lemma_tag_flag_num(p, 'D', 'T', efficacy_flag(e1), n1 as int);
            lemma_tag_flag_num(p, 'D', 'T', efficacy_flag(e2), n2 as int);
        },
        (
            LawIdType::DajokanHutatsu { efficacy: e1, num: n1 },
            LawIdType::DajokanHutatsu { efficacy: e2, num: n2 },
        ) => {
            lemma_tag_flag_num(p, 'D', 'H', efficacy_flag(e1), n1 as int);
            lemma_tag_flag_num(p, 'D', 'H', efficacy_flag(e2), n2 as int);
        },
        (
            LawIdType::MinistryOrder { ministry: m1, num: n1 },
            LawIdType::MinistryOrder { ministry: m2, num: n2 },
        ) => {
            m1.lemma_mask_bound();
            m2.lemma_mask_bound();
            crate::digits::lemma_hex_seq_of_val(m1.spec_mask() as int, 7);
            crate::digits::lemma_hex_seq_of_val(m2.spec_mask() as int, 7);
            lemma_dec_seq_of_val(n1 as int, 3);
            lemma_dec_seq_of_val(n2 as int, 3);
            assert(p.subrange(2, 9) =~= hex_seq(m1.spec_mask() as int, 7));
            assert(p.subrange(2, 9) =~= hex_seq(m2.spec_mask() as int, 7));
            assert(p.subrange(9, 12) =~= dec_seq(n1 as int, 3));
            assert(p.subrange(9, 12) =~= dec_seq(n2 as int, 3));
            assert(m1.spec_mask() == hex_seq_val(p.subrange(2, 9)));
            assert(m1.spec_mask() == m2.spec_mask());
            assert(p[1] == m1.gen_char() && p[1] == m2.gen_char());
            assert(n1 == n2);
            lemma_ministry_lists_eq(m1, m2);
        },
        (
            LawIdType::Jinji { kind: k1, kind_serial: s1, amendment_serial: a1 },
            LawIdType::Jinji { kind: k2, kind_serial: s2, amendment_serial: a2 },
        ) => {
            lemma_dec_seq_of_val(k1 as int, 2);
            lemma_dec_seq_of_val(k2 as int, 2);
            lemma_dec_seq_of_val(s1 as int, 3);
            lemma_dec_seq_of_val(s2 as int, 3);
            lemma_dec_seq_of_val(a1 as int, 3);
            lemma_dec_seq_of_val(a2 as int, 3);
            assert(p.subrange(4, 6) =~= dec_seq(k1 as int, 2));
            assert(p.subrange(4, 6) =~= dec_seq(k2 as int, 2));
            assert(p.subrange(6, 9) =~= dec_seq(s1 as int, 3));
            assert(p.subrange(6, 9) =~= dec_seq(s2 as int, 3));
            assert(p.subrange(9, 12) =~= dec_seq(a1 as int, 3));
            assert(p.subrange(9, 12) =~= dec_seq(a2 as int, 3));
        },
        (
            LawIdType::PrimeMinisterDecision { month: m1, day: d1, num: n1 },
            LawIdType::PrimeMinisterDecision { month: m2, day: d2, num: n2 },
        ) => {
            lemma_dec_seq_of_val(m1 as int, 2);
            lemma_dec_seq_of_val(m2 as int, 2);
            lemma_dec_seq_of_val(d1 as int, 2);
            lemma_dec_seq_of_val(d2 as int, 2);
            lemma_dec_seq_of_val(n1 as int, 4);
            lemma_dec_seq_of_val(n2 as int, 4);
            assert(p.subrange(4, 6) =~= dec_seq(m1 as int, 2));
            assert(p.subrange(4, 6) =~= dec_seq(m2 as int, 2));
            assert(p.subrange(6, 8) =~= dec_seq(d1 as int, 2));
            assert(p.subrange(6, 8) =~= dec_seq(d2 as int, 2));
            assert(p.subrange(8, 12) =~= dec_seq(n1 as int, 4));
            assert(p.subrange(8, 12) =~= dec_seq(n2 as int, 4));
        },
        (
            LawIdType::Regulation { institution: i1, num: n1 },
            LawIdType::Regulation { institution: i2, num: n2 },
        ) => {
            i1.lemma_code_facts();
            i2.lemma_code_facts();
            lemma_dec_seq_of_val(i1.spec_code() as int, 8);
            lemma_dec_seq_of_val(i2.spec_code() as int, 8);
            lemma_dec_seq_of_val(n1 as int, 3);
            lemma_dec_seq_of_val(n2 as int, 3);
            assert(p.subrange(1, 9) =~= dec_seq(i1.spec_code() as int, 8));
            assert(p.subrange(1, 9) =~= dec_seq(i2.spec_code() as int, 8));
            assert(p.subrange(9, 12) =~= dec_seq(n1 as int, 3));
            assert(p.subrange(9, 12) =~= dec_seq(n2 as int, 3));
            assert(i1.spec_code() == i2.spec_code());
            Institution::lemma_code_injective(i1, i2);
        },
        _ => {
            assert(false);
        },
    }
}

/// Two well-formed ministry sets of the same generation and the same mask
/// hold the same ministries in the same order.
proof fn lemma_ministry_lists_eq(m1: Ministry, m2: Ministry)
    requires
        m1.wf(),
        m2.wf(),
        m1.gen_char() == m2.gen_char(),
        m1.spec_mask() == m2.spec_mask(),
    ensures
        ministry_eq(m1, m2),
{
    match (m1, m2) {
        (Ministry::M1(l1), Ministry::M1(l2)) => {
            lemma_ministry_list_eq::<crate::ministry::M1Ministry>(l1@, l2@);
        },
        (Ministry::M2(l1), Ministry::M2(l2)) => {
            lemma_ministry_list_eq::<crate::ministry::M2Ministry>(l1@, l2@);
        },
        (Ministry::M3(l1), Ministry::M3(l2)) => {
            lemma_ministry_list_eq::<crate::ministry::M3Ministry>(l1@, l2@);
        },
        (Ministry::M4(l1), Ministry::M4(l2)) => {
            lemma_ministry_list_eq::<crate::ministry::M4Ministry>(l1@, l2@);
        },
        (Ministry::M5(l1), Ministry::M5(l2)) => {
            lemma_ministry_list_eq::<crate::ministry::M5Ministry>(l1@, l2@);
        },
        (Ministry::M6(l1), Ministry::M6(l2)) => {
            lemma_ministry_list_eq::<crate::ministry::M6Ministry>(l1@, l2@);
        },
        _ => {
        },
    }
}

/// Two canonical ministry lists of one generation with the same mask are
/// the same list.
proof fn lemma_ministry_list_eq<T: MinistryContents>(l1: Seq<T>, l2: Seq<T>)
    requires
        list_wf(l1),
        list_wf(l2),
        mask_of(codes_seq(l1)) == mask_of(codes_seq(l2)),
    ensures
        l1 == l2,
{
    lemma_codes_seq_range(l1);
    lemma_codes_seq_range(l2);
    lemma_codes_of_mask_of(codes_seq(l1));
    lemma_codes_of_mask_of(codes_seq(l2));
    assert(codes_seq(l1) == codes_seq(l2));
    assert(l1.len() == l2.len());
    assert forall|k: int| 0 <= k < l1.len() implies l1[k] == l2[k] by {
        assert(codes_seq(l1)[k] == codes_seq(l2)[k]);
        T::lemma_code_injective(l1[k], l2[k]);
    }
    assert(l1 =~= l2);
}

/// Round trip of decode after encode: two well-formed identifiers with the
/// same rendering are the same identifier (as run-time equality compares
/// them), so decoding an encoded identifier can only return the identifier
/// encoded.
pub proof fn lemma_encode_injective(a: LawId, b: LawId)
    requires
        a.wf(),
        b.wf(),
        spec_encode_id(a) == spec_encode_id(b),
    ensures
        law_id_eq(a, b),
{
    lemma_pow10_small();
    let s = spec_encode_id(a);
    lemma_payload_render(a.law_id_type);
    lemma_payload_render(b.law_id_type);
    lemma_dec_seq_of_val(a.year as int, 2);
    lemma_dec_seq_of_val(b.year as int, 2);
    assert(s[0] == era_char(a.era) && s[0] == era_char(b.era));
    assert(a.era == b.era);
    assert(s.subrange(1, 3) =~= dec_seq(a.year as int, 2));
    assert(s.subrange(1, 3) =~= dec_seq(b.year as int, 2));
    assert(a.year == b.year);
    assert(s.subrange(3, 15) =~= spec_encode_type(a.law_id_type));
    assert(s.subrange(3, 15) =~= spec_encode_type(b.law_id_type));
    lemma_payload_injective(a.law_id_type, b.law_id_type);
}

} // verus!
