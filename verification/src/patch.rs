//! Amendment provenance records.
//!
//! A patch record links an instrument to the instrument that amended it:
//! the amended identifier, the Gregorian date of the amendment or
//! enactment, and either the amending identifier or a fifteen-zero
//! sentinel meaning the record is an original enactment. The record is an
//! underscore-delimited string of exactly forty characters.

use vstd::prelude::*;

use crate::codec::encode_id_into;
use crate::digits::{
    all_dec_digits, chars_to_string, dec_seq, dec_seq_val, lemma_all_dec_split,
    lemma_dec_seq_of_digits, lemma_dec_seq_of_val, lemma_dec_seq_val_bound, lemma_pow10_small,
    parse_dec, pow10, push_dec,
};
use crate::era::{spec_ad_year, Date, Era};
use crate::law_id::{id_err, is_reg17, spec_encode_id, DecodeError, LawId};

verus! {

/// A record of an amendment: the amended instrument, the date, and the
/// amending instrument if there is one.
#[derive(Debug, Clone, PartialEq, Eq, Hash)]
pub struct LawPatchInfo {
    /// The amended instrument.
    pub id: LawId,
    /// The date the amendment or the original enactment took effect.
    pub patch_date: Date,
    /// The amending instrument; `None` marks an original enactment and is
    /// rendered as the fifteen-zero sentinel.
    pub patch_id: Option<LawId>,
}

/// A law with its metadata and amendment history.
#[derive(Debug, Clone, PartialEq, Eq, Hash)]
pub struct LawData {
    /// The enactment date.
    pub date: Date,
    /// The name of the law.
    pub name: String,
    /// The promulgation number text.
    pub num: String,
    /// The law identifier.
    pub id: LawId,
    /// The amendment records.
    pub patch: Vec<LawPatchInfo>,
}

/// The fifteen-zero sentinel that stands for an absent amending
/// instrument.
pub open spec fn zeros15() -> Seq<char> {
    Seq::new(15, |i: int| '0')
}

/// Whether a patch record is within the grammar: both identifiers well
/// formed, and a full date whose fields fit their widths.
pub open spec fn patch_wf(p: LawPatchInfo) -> bool {
    &&& p.id.wf()
    &&& p.patch_date.month matches Some(m) && m < 100
    &&& p.patch_date.day matches Some(d) && d < 100
    &&& 0 <= spec_ad_year(p.patch_date.era, p.patch_date.year as int) < 10000
    &&& (p.patch_id matches Some(q) ==> q.wf())
}

/// The forty-character rendering of a patch record.
pub open spec fn spec_encode_patch(p: LawPatchInfo) -> Seq<char> {
    spec_encode_id(p.id) + seq!['_'] + dec_seq(
        spec_ad_year(p.patch_date.era, p.patch_date.year as int),
        4,
    ) + dec_seq(p.patch_date.month.unwrap() as int, 2) + dec_seq(
        p.patch_date.day.unwrap() as int,
        2,
    ) + seq!['_'] + (match p.patch_id {
        Some(q) => spec_encode_id(q),
        None => zeros15(),
    })
}

/// The error class of a patch-record string, `None` when it parses: the
/// delimiter structure first, then the amended identifier, the date's
/// digits, the date's range, and last the amending identifier or the
/// sentinel.
pub open spec fn patch_err(s: Seq<char>) -> Option<DecodeError> {
    if s.len() != 40 {
        Some(DecodeError::MalformedIdentifier)
    } else if !(s[15] == '_' && s[24] == '_') {
        Some(DecodeError::MalformedIdentifier)
    } else if id_err(s.subrange(0, 15)) is Some {
        id_err(s.subrange(0, 15))
    } else if !all_dec_digits(s.subrange(16, 24)) {
        Some(DecodeError::MalformedIdentifier)
    } else if !date_in_range(
        dec_seq_val(s.subrange(16, 20)),
        dec_seq_val(s.subrange(20, 22)),
        dec_seq_val(s.subrange(22, 24)),
    ) {
        Some(DecodeError::UnknownEnumerant)
    } else if s.subrange(25, 40) == zeros15() {
        None
    } else {
        id_err(s.subrange(25, 40))
    }
}

/// Whether year, month and day name a supported calendar day: a real month
/// and day number, on or after the first day the era table covers,
/// 1868-10-23.
pub open spec fn date_in_range(y: int, m: int, d: int) -> bool {
    1 <= m <= 12 && 1 <= d <= 31 && y * 10000 + m * 100 + d >= 18681023
}

/// The canonical respelling of a patch-record string: in either identifier
/// part, the alias institution code 17 is replaced by the canonical code 8
/// that it decodes to. On every other string this is the identity.
pub open spec fn patch_canon(s: Seq<char>) -> Seq<char> {
    let s1 = if is_reg17(s.subrange(0, 15)) {
        s.update(10, '0').update(11, '8')
    } else {
        s
    };
    if is_reg17(s.subrange(25, 40)) {
        s1.update(35, '0').update(36, '8')
    } else {
        s1
    }
}

impl LawPatchInfo {
    /// Whether the record is within the grammar, as [`patch_wf`] states
    /// it: the test every caller of the encoder can make.
    pub fn is_wf(&self) -> (b: bool)
        ensures
            b == patch_wf(*self),
    {
        let m_ok = match self.patch_date.month {
            Some(m) => m < 100,
            None => false,
        };
        let d_ok = match self.patch_date.day {
            Some(d) => d < 100,
            None => false,
        };
        let offset: usize = match self.patch_date.era {
            Era::Meiji => 1867,
            Era::Taisho => 1911,
            Era::Showa => 1925,
            Era::Heisei => 1988,
            Era::Reiwa => 2018,
        };
        let y_ok = self.patch_date.year < 10000 - offset;
        let p_ok = match &self.patch_id {
            Some(q) => q.is_wf(),
            None => true,
        };
        self.id.is_wf() && m_ok && d_ok && y_ok && p_ok
    }
}

/// The forty-character rendering of a well-formed patch record.
pub fn encode_patch(p: &LawPatchInfo) -> (r: String)
    requires
        patch_wf(*p),
    ensures
        r@ == spec_encode_patch(*p),
{
    proof {
        lemma_pow10_small();
    }
    let mut out: Vec<char> = Vec::new();
    encode_id_into(&mut out, &p.id);
    out.push('_');
    let ad = p.patch_date.get_ad();
    push_dec(&mut out, ad as u32, 4);
    let m = match p.patch_date.month {
        Some(m) => m,
        None => 0,
    };
    let d = match p.patch_date.day {
        Some(d) => d,
        None => 0,
    };
    push_dec(&mut out, m as u32, 2);
    push_dec(&mut out, d as u32, 2);
    out.push('_');
    match &p.patch_id {
        Some(q) => {
            encode_id_into(&mut out, q);
        },
        None => {
            let ghost pre = out@;
            let mut i: usize = 0;
            while i < 15
                invariant
                    i <= 15,
                    out@.len() == pre.len() + i,
                    forall|k: int| 0 <= k < pre.len() ==> out@[k] == pre[k],
                    forall|k: int| pre.len() <= k < out@.len() ==> out@[k] == '0',
                decreases 15 - i,
            {
                out.push('0');
                i = i + 1;
            }
            proof {
                assert(out@ =~= pre + zeros15());
            }
        },
    }
    proof {
        assert(out@ =~= spec_encode_patch(*p));
    }
    chars_to_string(&out)
}

/// Parses a forty-character patch record. Returns `Ok` exactly when
/// [`patch_err`] is `None`, that error otherwise. The record returned is
/// well formed, its date is the record's Gregorian date converted by the
/// era boundary table, and it renders back to the canonical respelling of
/// the input, which is the input itself unless an identifier part carried
/// the alias institution code 17.
pub fn decode_patch(s: &str) -> (r: Result<LawPatchInfo, DecodeError>)
    ensures
        r is Ok <==> patch_err(s@) is None,
        r matches Err(e) ==> patch_err(s@) == Some(e),
        r matches Ok(p) ==> patch_wf(p) && spec_encode_patch(p) == patch_canon(s@),
        r matches Ok(p) ==> ({
            let t = dec_seq_val(s@.subrange(16, 20)) * 10000 + dec_seq_val(s@.subrange(20, 22))
                * 100 + dec_seq_val(s@.subrange(22, 24));
            &&& p.patch_date.month == Some(dec_seq_val(s@.subrange(20, 22)) as usize)
            &&& p.patch_date.day == Some(dec_seq_val(s@.subrange(22, 24)) as usize)
            &&& spec_ad_year(p.patch_date.era, p.patch_date.year as int) == dec_seq_val(
                s@.subrange(16, 20),
            )
            &&& (t <= 19120729 ==> p.patch_date.era == Era::Meiji)
            &&& (19120730 <= t <= 19261224 ==> p.patch_date.era == Era::Taisho)
            &&& (19261225 <= t <= 19890107 ==> p.patch_date.era == Era::Showa)
            &&& (19890108 <= t <= 20190430 ==> p.patch_date.era == Era::Heisei)
            &&& (20190501 <= t ==> p.patch_date.era == Era::Reiwa)
            &&& (p.patch_id is None <==> s@.subrange(25, 40) == zeros15())
        }),
{
    proof {
        lemma_pow10_small();
    }
    let n = s.unicode_len();
    if n != 40 {
        return Err(DecodeError::MalformedIdentifier);
    }
    if !(s.get_char(15) == '_' && s.get_char(24) == '_') {
        return Err(DecodeError::MalformedIdentifier);
    }
    let id_part = s.substring_char(0, 15);
    let id = match crate::codec::decode(id_part) {
        Ok(v) => v,
        Err(e) => {
            return Err(e);
        },
    };
    proof {
        lemma_all_dec_split(s@, 16, 20, 24);
        lemma_all_dec_split(s@, 20, 22, 24);
    }
    let y = match parse_dec(s, 16, 20) {
        Some(v) => v,
        None => {
            return Err(DecodeError::MalformedIdentifier);
        },
    };
    let m = match parse_dec(s, 20, 22) {
        Some(v) => v,
        None => {
            return Err(DecodeError::MalformedIdentifier);
        },
    };
    let d = match parse_dec(s, 22, 24) {
        Some(v) => v,
        None => {
            return Err(DecodeError::MalformedIdentifier);
        },
    };
    proof {
        lemma_dec_seq_val_bound(s@.subrange(16, 20));
        lemma_dec_seq_val_bound(s@.subrange(20, 22));
        lemma_dec_seq_val_bound(s@.subrange(22, 24));
    }
    if !(1 <= m && m <= 12 && 1 <= d && d <= 31) {
        return Err(DecodeError::UnknownEnumerant);
    }
    let t: u32 = y * 10000 + m * 100 + d;
    if t < 18681023 {
        return Err(DecodeError::UnknownEnumerant);
    }
    let patch_date = Date::gen_from_ad(y as usize, m as usize, d as usize);
    let mut all_zero = true;
    let mut i: usize = 25;
    while i < 40
        invariant
            25 <= i <= 40,
            s@.len() == 40,
            all_zero <==> (forall|k: int| 25 <= k < i ==> s@[k] == '0'),
        decreases 40 - i,
    {
        if s.get_char(i) != '0' {
            all_zero = false;
        }
        i = i + 1;
    }
    proof {
        if all_zero {
            assert(s@.subrange(25, 40) =~= zeros15());
        } else {
            assert(s@.subrange(25, 40) != zeros15()) by {
                let k = choose|k: int| 25 <= k < 40 && s@[k] != '0';
                assert(s@.subrange(25, 40)[k - 25] == s@[k]);
                assert(zeros15()[k - 25] == '0');
            }
        }
    }
    let patch_id = if all_zero {
        None
    } else {
        let patch_part = s.substring_char(25, 40);
        match crate::codec::decode(patch_part) {
            Ok(v) => Some(v),
            Err(e) => {
                return Err(e);
            },
        }
    };
    let p = LawPatchInfo { id, patch_date, patch_id };
    proof {
        lemma_dec_seq_of_digits(s@.subrange(16, 20));
        lemma_dec_seq_of_digits(s@.subrange(20, 22));
        lemma_dec_seq_of_digits(s@.subrange(22, 24));
        assert(spec_encode_patch(p) =~= patch_canon(s@));
    }
    Ok(p)
}

} // verus!
