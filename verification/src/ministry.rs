//! The six generations of the ministry registry and the 28-bit code mask.
//!
//! The set of ministries and agencies that could issue a ministerial order
//! changed several times; each historical period has its own closed table of
//! (code, name) pairs, here one enum per generation. A ministerial-order
//! identifier carries the set of issuing ministries as a 28-bit mask in
//! which bit `code - 1` is set for each issuing ministry, rendered as a
//! seven-digit hexadecimal field of the identifier.

use vstd::prelude::*;

verus! {

/// Whether bit `i` (counting from the least significant bit) of the 28-bit
/// mask `m` is set.
pub open spec fn mask_bit(m: u32, i: u32) -> bool {
    i < 28 && (m >> i) & 1u32 == 1u32
}

/// The mask with one bit set for each code of `codes`; codes are between 1
/// and 28, and code `c` sets bit `c - 1`.
pub open spec fn mask_of(codes: Seq<u32>) -> u32
    decreases codes.len(),
{
    if codes.len() == 0 {
        0u32
    } else {
        mask_of(codes.drop_last()) | (1u32 << (codes.last() - 1) as u32)
    }
}

/// The codes of the set bits of `m` that are at most `c`, largest first.
pub open spec fn codes_of(m: u32, c: u32) -> Seq<u32>
    decreases c,
{
    if c == 0 {
        Seq::empty()
    } else if mask_bit(m, (c - 1) as u32) {
        seq![c] + codes_of(m, (c - 1) as u32)
    } else {
        codes_of(m, (c - 1) as u32)
    }
}

/// Whether the elements of `s` are strictly decreasing, the canonical order
/// in which a mask's codes are listed.
pub open spec fn strictly_decreasing(s: Seq<u32>) -> bool {
    forall|i: int, j: int| 0 <= i < j < s.len() ==> s[i] > s[j]
}

proof fn lemma_or_bit(m: u32, u: u32, j: u32)
    by (bit_vector)
    requires
        u < 28,
    ensures
        mask_bit(m | (1u32 << u), j) == (mask_bit(m, j) || j == u),
{
}

proof fn lemma_or_bound(m: u32, u: u32)
    by (bit_vector)
    requires
        m < 0x10000000,
        u < 28,
    ensures
        (m | (1u32 << u)) < 0x10000000,
{
}

/// Bit `j` of `mask_of(codes)` is set exactly when `j + 1` is one of the
/// codes.
pub proof fn lemma_mask_of_bit(codes: Seq<u32>, j: u32)
    requires
        forall|k: int| 0 <= k < codes.len() ==> 1 <= #[trigger] codes[k] <= 28,
    ensures
        mask_bit(mask_of(codes), j) <==> exists|k: int|
            0 <= k < codes.len() && #[trigger] codes[k] == j + 1,
    decreases codes.len(),
{
    if codes.len() == 0 {
        assert(!((0u32 >> j) & 1u32 == 1u32)) by (bit_vector);
    } else {
        let front = codes.drop_last();
        let c = codes.last();
        lemma_mask_of_bit(front, j);
        lemma_or_bit(mask_of(front), (c - 1) as u32, j);
        if mask_bit(mask_of(codes), j) {
            if j == (c - 1) as u32 {
                assert(codes[codes.len() - 1] == j + 1);
            } else {
                let k = choose|k: int| 0 <= k < front.len() && #[trigger] front[k] == j + 1;
                assert(codes[k] == j + 1);
            }
        }
        if exists|k: int| 0 <= k < codes.len() && #[trigger] codes[k] == j + 1 {
            let k = choose|k: int| 0 <= k < codes.len() && #[trigger] codes[k] == j + 1;
            if k < codes.len() - 1 {
                assert(front[k] == j + 1);
            }
        }
    }
}

/// A mask made from codes between 1 and 28 fits in 28 bits.
pub proof fn lemma_mask_of_bound(codes: Seq<u32>)
    requires
        forall|k: int| 0 <= k < codes.len() ==> 1 <= #[trigger] codes[k] <= 28,
    ensures
        mask_of(codes) < 0x10000000,
    decreases codes.len(),
{
    if codes.len() > 0 {
        lemma_mask_of_bound(codes.drop_last());
        lemma_or_bound(mask_of(codes.drop_last()), (codes.last() - 1) as u32);
    }
}

/// The codes listed for a mask are exactly the codes of its set bits, each
/// between 1 and `c`.
pub proof fn lemma_codes_of_contains(m: u32, c: u32, x: u32)
    requires
        c <= 28,
    ensures
        codes_of(m, c).contains(x) <==> (1 <= x <= c && mask_bit(m, (x - 1) as u32)),
    decreases c,
{
    if c > 0 {
        lemma_codes_of_contains(m, (c - 1) as u32, x);
        let rest = codes_of(m, (c - 1) as u32);
        if mask_bit(m, (c - 1) as u32) {
            assert(codes_of(m, c) == seq![c] + rest);
            if 1 <= x <= c && mask_bit(m, (x - 1) as u32) {
                if x == c {
                    assert((seq![c] + rest)[0] == x);
                } else {
                    let k = choose|k: int| 0 <= k < rest.len() && rest[k] == x;
                    assert((seq![c] + rest)[k + 1] == x);
                }
            }
            if codes_of(m, c).contains(x) {
                let k = choose|k: int| 0 <= k < codes_of(m, c).len() && codes_of(m, c)[k] == x;
                if k > 0 {
                    assert(rest[k - 1] == x);
                }
            }
        } else {
            if 1 <= x <= c && mask_bit(m, (x - 1) as u32) {
                assert(x != c);
            }
        }
    }
}

/// The elements listed for a mask are between 1 and `c`.
pub proof fn lemma_codes_of_range(m: u32, c: u32)
    requires
        c <= 28,
    ensures
        forall|k: int|
            0 <= k < codes_of(m, c).len() ==> 1 <= #[trigger] codes_of(m, c)[k] <= c,
    decreases c,
{
    if c > 0 {
        lemma_codes_of_range(m, (c - 1) as u32);
        let rest = codes_of(m, (c - 1) as u32);
        if mask_bit(m, (c - 1) as u32) {
            assert(forall|k: int|
                0 <= k < codes_of(m, c).len() ==> 1 <= #[trigger] codes_of(m, c)[k] <= c) by {
                assert(codes_of(m, c) == seq![c] + rest);
                assert(forall|k: int|
                    1 <= k < codes_of(m, c).len() ==> #[trigger] codes_of(m, c)[k] == rest[k - 1]);
            }
        }
    }
}

/// The codes listed for a mask come largest first.
pub proof fn lemma_codes_of_sorted(m: u32, c: u32)
    requires
        c <= 28,
    ensures
        strictly_decreasing(codes_of(m, c)),
    decreases c,
{
    if c > 0 {
        lemma_codes_of_sorted(m, (c - 1) as u32);
        lemma_codes_of_range(m, (c - 1) as u32);
        let rest = codes_of(m, (c - 1) as u32);
        if mask_bit(m, (c - 1) as u32) {
            let s = codes_of(m, c);
            assert(s == seq![c] + rest);
            assert(forall|k: int| 1 <= k < s.len() ==> #[trigger] s[k] == rest[k - 1]);
            assert(forall|i: int, j: int| 0 <= i < j < s.len() ==> s[i] > s[j]) by {
                assert(forall|j: int| 1 <= j < s.len() ==> s[0] > #[trigger] s[j]);
            }
        }
    }
}

/// Two strictly decreasing code lists with the same members are the same
/// list.
pub proof fn lemma_strictly_decreasing_unique(a: Seq<u32>, b: Seq<u32>)
    requires
        strictly_decreasing(a),
        strictly_decreasing(b),
        forall|x: u32| a.contains(x) <==> b.contains(x),
    ensures
        a == b,
    decreases a.len(),
{
    if a.len() == 0 {
        if b.len() > 0 {
            assert(b.contains(b[0]));
            assert(a.contains(b[0]));
        }
        assert(a =~= b);
    } else {
        assert(a.contains(a[0]));
        assert(b.contains(a[0]));
        assert(b.len() > 0);
        assert(b.contains(b[0]));
        assert(a.contains(b[0]));
        let ja = choose|k: int| 0 <= k < b.len() && b[k] == a[0];
        let jb = choose|k: int| 0 <= k < a.len() && a[k] == b[0];
        assert(b[0] >= b[ja]);
        assert(a[0] >= a[jb]);
        assert(a[0] == b[0]);
        let at = a.drop_first();
        let bt = b.drop_first();
        assert(forall|k: int| 0 <= k < at.len() ==> #[trigger] at[k] == a[k + 1]);
        assert(forall|k: int| 0 <= k < bt.len() ==> #[trigger] bt[k] == b[k + 1]);
        assert(forall|x: u32| at.contains(x) <==> bt.contains(x)) by {
            assert forall|x: u32| at.contains(x) implies bt.contains(x) by {
                let k = choose|k: int| 0 <= k < at.len() && at[k] == x;
                assert(a[k + 1] == x);
                assert(a.contains(x));
                assert(x < a[0]);
                let k2 = choose|k2: int| 0 <= k2 < b.len() && b[k2] == x;
                assert(k2 > 0);
                assert(bt[k2 - 1] == x);
            }
            assert forall|x: u32| bt.contains(x) implies at.contains(x) by {
                let k = choose|k: int| 0 <= k < bt.len() && bt[k] == x;
                assert(b[k + 1] == x);
                assert(b.contains(x));
                assert(x < b[0]);
                let k2 = choose|k2: int| 0 <= k2 < a.len() && a[k2] == x;
                assert(k2 > 0);
                assert(at[k2 - 1] == x);
            }
        }
        lemma_strictly_decreasing_unique(at, bt);
        assert(a.len() == b.len());
        assert forall|i: int| 0 <= i < a.len() implies a[i] == b[i] by {
            if i > 0 {
                assert(at[i - 1] == bt[i - 1]);
            }
        }
        assert(a =~= b);
    }
}

proof fn lemma_u32_bits_eq(x: u32, y: u32)
    requires
        x < 0x10000000,
        y < 0x10000000,
        forall|j: u32| j < 28 ==> (mask_bit(x, j) == #[trigger] mask_bit(y, j)),
    ensures
        x == y,
{
    assert(mask_bit(x, 0) == mask_bit(y, 0));
    assert(mask_bit(x, 1) == mask_bit(y, 1));
    assert(mask_bit(x, 2) == mask_bit(y, 2));
    assert(mask_bit(x, 3) == mask_bit(y, 3));
    assert(mask_bit(x, 4) == mask_bit(y, 4));
    assert(mask_bit(x, 5) == mask_bit(y, 5));
    assert(mask_bit(x, 6) == mask_bit(y, 6));
    assert(mask_bit(x, 7) == mask_bit(y, 7));
    assert(mask_bit(x, 8) == mask_bit(y, 8));
    assert(mask_bit(x, 9) == mask_bit(y, 9));
    assert(mask_bit(x, 10) == mask_bit(y, 10));
    assert(mask_bit(x, 11) == mask_bit(y, 11));
    assert(mask_bit(x, 12) == mask_bit(y, 12));
    assert(mask_bit(x, 13) == mask_bit(y, 13));
    assert(mask_bit(x, 14) == mask_bit(y, 14));
    assert(mask_bit(x, 15) == mask_bit(y, 15));
    assert(mask_bit(x, 16) == mask_bit(y, 16));
    assert(mask_bit(x, 17) == mask_bit(y, 17));
    assert(mask_bit(x, 18) == mask_bit(y, 18));
    assert(mask_bit(x, 19) == mask_bit(y, 19));
    assert(mask_bit(x, 20) == mask_bit(y, 20));
    assert(mask_bit(x, 21) == mask_bit(y, 21));
    assert(mask_bit(x, 22) == mask_bit(y, 22));
    assert(mask_bit(x, 23) == mask_bit(y, 23));
    assert(mask_bit(x, 24) == mask_bit(y, 24));
    assert(mask_bit(x, 25) == mask_bit(y, 25));
    assert(mask_bit(x, 26) == mask_bit(y, 26));
    assert(mask_bit(x, 27) == mask_bit(y, 27));
    assert(x == y) by (bit_vector)
        requires
            x < 0x10000000,
            y < 0x10000000,
            mask_bit(x, 0) == mask_bit(y, 0),
            mask_bit(x, 1) == mask_bit(y, 1),
            mask_bit(x, 2) == mask_bit(y, 2),
            mask_bit(x, 3) == mask_bit(y, 3),
            mask_bit(x, 4) == mask_bit(y, 4),
            mask_bit(x, 5) == mask_bit(y, 5),
            mask_bit(x, 6) == mask_bit(y, 6),
            mask_bit(x, 7) == mask_bit(y, 7),
            mask_bit(x, 8) == mask_bit(y, 8),
            mask_bit(x, 9) == mask_bit(y, 9),
            mask_bit(x, 10) == mask_bit(y, 10),
            mask_bit(x, 11) == mask_bit(y, 11),
            mask_bit(x, 12) == mask_bit(y, 12),
            mask_bit(x, 13) == mask_bit(y, 13),
            mask_bit(x, 14) == mask_bit(y, 14),
            mask_bit(x, 15) == mask_bit(y, 15),
            mask_bit(x, 16) == mask_bit(y, 16),
            mask_bit(x, 17) == mask_bit(y, 17),
            mask_bit(x, 18) == mask_bit(y, 18),
            mask_bit(x, 19) == mask_bit(y, 19),
            mask_bit(x, 20) == mask_bit(y, 20),
            mask_bit(x, 21) == mask_bit(y, 21),
            mask_bit(x, 22) == mask_bit(y, 22),
            mask_bit(x, 23) == mask_bit(y, 23),
            mask_bit(x, 24) == mask_bit(y, 24),
            mask_bit(x, 25) == mask_bit(y, 25),
            mask_bit(x, 26) == mask_bit(y, 26),
            mask_bit(x, 27) == mask_bit(y, 27),
    ;
}

/// Rebuilding a 28-bit mask from the codes of its set bits gives the mask
/// back.
pub proof fn lemma_mask_of_codes_of(m: u32)
    requires
        m < 0x10000000,
    ensures
        mask_of(codes_of(m, 28)) == m,
{
    let l = codes_of(m, 28);
    lemma_codes_of_range(m, 28);
    lemma_mask_of_bound(l);
    assert(forall|j: u32| j < 28 ==> (mask_bit(mask_of(l), j) == #[trigger] mask_bit(m, j)))
        by {
        assert forall|j: u32| j < 28 implies (mask_bit(mask_of(l), j) == #[trigger] mask_bit(
            m,
            j,
        )) by {
            lemma_mask_of_bit(l, j);
            lemma_codes_of_contains(m, 28, (j + 1) as u32);
            if mask_bit(mask_of(l), j) {
                let k = choose|k: int| 0 <= k < l.len() && #[trigger] l[k] == j + 1;
                assert(l.contains((j + 1) as u32));
            }
            if mask_bit(m, j) {
                assert(l.contains((j + 1) as u32));
                let k = choose|k: int| 0 <= k < l.len() && l[k] == (j + 1) as u32;
                assert(l[k] == j + 1);
            }
        }
    }
    lemma_u32_bits_eq(mask_of(l), m);
}

/// Listing the codes of the mask built from a strictly decreasing code list
/// gives the list back.
pub proof fn lemma_codes_of_mask_of(l: Seq<u32>)
    requires
        strictly_decreasing(l),
        forall|k: int| 0 <= k < l.len() ==> 1 <= #[trigger] l[k] <= 28,
    ensures
        codes_of(mask_of(l), 28) == l,
{
    let m = mask_of(l);
    lemma_mask_of_bound(l);
    lemma_codes_of_sorted(m, 28);
    lemma_codes_of_range(m, 28);
    assert(forall|x: u32| codes_of(m, 28).contains(x) <==> l.contains(x)) by {
        assert forall|x: u32| codes_of(m, 28).contains(x) <==> l.contains(x) by {
            lemma_codes_of_contains(m, 28, x);
            lemma_mask_of_bit(l, (x - 1) as u32);
            if l.contains(x) {
                let k = choose|k: int| 0 <= k < l.len() && l[k] == x;
                assert(1 <= x <= 28);
                assert(l[k] == (x - 1) as u32 + 1);
            }
            if 1 <= x <= 28 && mask_bit(m, (x - 1) as u32) {
                let k = choose|k: int| 0 <= k < l.len() && #[trigger] l[k] == (x - 1) as u32 + 1;
                assert(l[k] == x);
            }
        }
    }
    lemma_strictly_decreasing_unique(codes_of(m, 28), l);
}

/// What one generation's registry offers: a code for each ministry, and a
/// partial inverse over the codes the generation defines.
pub trait MinistryContents: Sized {
    /// The registry code of this ministry.
    spec fn spec_code(&self) -> u32;

    /// Whether `c` is a code this generation's registry defines.
    spec fn valid_code(c: u32) -> bool;

    /// Every ministry's code is a defined code between 1 and 28.
    proof fn lemma_code_facts(&self)
        ensures
            1 <= self.spec_code() <= 28,
            Self::valid_code(self.spec_code()),
    ;

    /// A code names at most one ministry of the generation.
    proof fn lemma_code_injective(a: Self, b: Self)
        requires
            a.spec_code() == b.spec_code(),
        ensures
            a == b,
    ;

    /// The registry code of this ministry.
    fn to_int(&self) -> (n: usize)
        ensures
            n as u32 == self.spec_code(),
            1 <= n <= 28,
    ;

    /// The ministry a code names, or `None` if the generation does not
    /// define the code.
    fn from_int(n: usize) -> (r: Option<Self>)
        ensures
            r is Some <==> (n <= 28 && Self::valid_code(n as u32)),
            r matches Some(m) ==> m.spec_code() == n as u32,
    ;
}

/// The codes of a ministry list, in list order.
pub open spec fn codes_seq<T: MinistryContents>(l: Seq<T>) -> Seq<u32> {
    Seq::new(l.len(), |i: int| l[i].spec_code())
}

/// The canonical form of a ministry list: codes strictly decreasing, as the
/// mask decoder produces them.
pub open spec fn list_wf<T: MinistryContents>(l: Seq<T>) -> bool {
    strictly_decreasing(codes_seq(l))
}

/// The codes of any ministry list are defined codes between 1 and 28.
pub proof fn lemma_codes_seq_range<T: MinistryContents>(l: Seq<T>)
    ensures
        forall|k: int|
            0 <= k < l.len() ==> 1 <= #[trigger] codes_seq(l)[k] <= 28 && T::valid_code(
                codes_seq(l)[k],
            ),
{
    assert forall|k: int| 0 <= k < l.len() implies 1 <= #[trigger] codes_seq(l)[k] <= 28
        && T::valid_code(codes_seq(l)[k]) by {
        l[k].lemma_code_facts();
    }
}

/// An issuing ministry or agency of the first ministry generation (8 July 1869 to 31 October 1943).
#[derive(Debug, Clone, Copy, PartialEq, Eq, Hash, Structural)]
pub enum M1Ministry {
    CabinetOrder,
    ImperialHouseholdOrdinance,
    GreaterEastAsiaMinisterialOrdinance,
    MinistryOfTheInteriorOrdinance,
    MinistryOfJusticeOrdinance,
    MinistryOfForeignAffairsOrdinance,
    MinistryOfFinanceOrdinance,
    MinistryOfEducationOrdinance,
    MinistryOfHealthAndWelfareOrdinance,
    MinistryOfAgricultureAndCommerceOrdinance,
    MinistryOfCommerceAndIndustryOrdinance,
    RailwayMinisterialOrdinance,
    MinistryOfCommunicationsOrdinance,
    MinistryOfTheArmyOrdinanceA,
    NavyMinisterialOrdinance,
    MinistryOfTheArmyOrdinanceB,
    MinistryOfAgricultureAndForestryOrdinance,
    MinistryOfLandDevelopmentOrdinanceA,
    MinistryOfLandDevelopmentOrdinanceB,
    MinistryOfAgricultureAndCommerceOrdinanceTemporary,
    MinistryOfJusticeOrdinanceHei,
}

impl MinistryContents for M1Ministry {
    open spec fn spec_code(&self) -> u32 {
        match self {
            M1Ministry::CabinetOrder => 1,
            M1Ministry::ImperialHouseholdOrdinance => 2,
            M1Ministry::GreaterEastAsiaMinisterialOrdinance => 3,
            M1Ministry::MinistryOfTheInteriorOrdinance => 4,
            M1Ministry::MinistryOfJusticeOrdinance => 5,
            M1Ministry::MinistryOfForeignAffairsOrdinance => 6,
            M1Ministry::MinistryOfFinanceOrdinance => 7,
            M1Ministry::MinistryOfEducationOrdinance => 8,
            M1Ministry::MinistryOfHealthAndWelfareOrdinance => 9,
            M1Ministry::MinistryOfAgricultureAndCommerceOrdinance => 10,
            M1Ministry::MinistryOfCommerceAndIndustryOrdinance => 11,
            M1Ministry::RailwayMinisterialOrdinance => 12,
            M1Ministry::MinistryOfCommunicationsOrdinance => 13,
            M1Ministry::MinistryOfTheArmyOrdinanceA => 14,
            M1Ministry::NavyMinisterialOrdinance => 15,
            M1Ministry::MinistryOfTheArmyOrdinanceB => 16,
            M1Ministry::MinistryOfAgricultureAndForestryOrdinance => 17,
            M1Ministry::MinistryOfLandDevelopmentOrdinanceA => 18,
            M1Ministry::MinistryOfLandDevelopmentOrdinanceB => 19,
            M1Ministry::MinistryOfAgricultureAndCommerceOrdinanceTemporary => 20,
            M1Ministry::MinistryOfJusticeOrdinanceHei => 21,
        }
    }

    open spec fn valid_code(c: u32) -> bool {
        1 <= c <= 21
    }

    proof fn lemma_code_facts(&self) {
    }

    proof fn lemma_code_injective(a: Self, b: Self) {
    }

    fn to_int(&self) -> (n: usize) {
        match self {
            M1Ministry::CabinetOrder => 1,
            M1Ministry::ImperialHouseholdOrdinance => 2,
            M1Ministry::GreaterEastAsiaMinisterialOrdinance => 3,
            M1Ministry::MinistryOfTheInteriorOrdinance => 4,
            M1Ministry::MinistryOfJusticeOrdinance => 5,
            M1Ministry::MinistryOfForeignAffairsOrdinance => 6,
            M1Ministry::MinistryOfFinanceOrdinance => 7,
            M1Ministry::MinistryOfEducationOrdinance => 8,
            M1Ministry::MinistryOfHealthAndWelfareOrdinance => 9,
            M1Ministry::MinistryOfAgricultureAndCommerceOrdinance => 10,
            M1Ministry::MinistryOfCommerceAndIndustryOrdinance => 11,
            M1Ministry::RailwayMinisterialOrdinance => 12,
            M1Ministry::MinistryOfCommunicationsOrdinance => 13,
            M1Ministry::MinistryOfTheArmyOrdinanceA => 14,
            M1Ministry::NavyMinisterialOrdinance => 15,
            M1Ministry::MinistryOfTheArmyOrdinanceB => 16,
            M1Ministry::MinistryOfAgricultureAndForestryOrdinance => 17,
            M1Ministry::MinistryOfLandDevelopmentOrdinanceA => 18,
            M1Ministry::MinistryOfLandDevelopmentOrdinanceB => 19,
            M1Ministry::MinistryOfAgricultureAndCommerceOrdinanceTemporary => 20,
            M1Ministry::MinistryOfJusticeOrdinanceHei => 21,
        }
    }

    fn from_int(n: usize) -> (r: Option<Self>) {
        match n {
            1 => Some(M1Ministry::CabinetOrder),
            2 => Some(M1Ministry::ImperialHouseholdOrdinance),
            3 => Some(M1Ministry::GreaterEastAsiaMinisterialOrdinance),
            4 => Some(M1Ministry::MinistryOfTheInteriorOrdinance),
            5 => Some(M1Ministry::MinistryOfJusticeOrdinance),
            6 => Some(M1Ministry::MinistryOfForeignAffairsOrdinance),
            7 => Some(M1Ministry::MinistryOfFinanceOrdinance),
            8 => Some(M1Ministry::MinistryOfEducationOrdinance),
            9 => Some(M1Ministry::MinistryOfHealthAndWelfareOrdinance),
            10 => Some(M1Ministry::MinistryOfAgricultureAndCommerceOrdinance),
            11 => Some(M1Ministry::MinistryOfCommerceAndIndustryOrdinance),
            12 => Some(M1Ministry::RailwayMinisterialOrdinance),
            13 => Some(M1Ministry::MinistryOfCommunicationsOrdinance),
            14 => Some(M1Ministry::MinistryOfTheArmyOrdinanceA),
            15 => Some(M1Ministry::NavyMinisterialOrdinance),
            16 => Some(M1Ministry::MinistryOfTheArmyOrdinanceB),
            17 => Some(M1Ministry::MinistryOfAgricultureAndForestryOrdinance),
            18 => Some(M1Ministry::MinistryOfLandDevelopmentOrdinanceA),
            19 => Some(M1Ministry::MinistryOfLandDevelopmentOrdinanceB),
            20 => Some(M1Ministry::MinistryOfAgricultureAndCommerceOrdinanceTemporary),
            21 => Some(M1Ministry::MinistryOfJusticeOrdinanceHei),
            _ => None,
        }
    }
}

/// An issuing ministry or agency of the second ministry generation (1 November 1943 to 30 November 1945).
#[derive(Debug, Clone, Copy, PartialEq, Eq, Hash, Structural)]
pub enum M2Ministry {
    CabinetOrder,
    ImperialHouseholdOrdinance,
    GreaterEastAsiaMinisterialOrdinance,
    MinistryOfTheInteriorOrdinance,
    MinistryOfJusticeOrdinance,
    MinistryOfForeignAffairsOrdinance,
    MinistryOfFinanceOrdinance,
    MinistryOfEducationOrdinance,
    MinistryOfHealthAndWelfareOrdinance,
    MinistryOfAgricultureAndCommerceOrdinance,
    MinistryOfCommerceAndIndustryOrdinance,
    MinistryOfTransportOrdinance,
    MinistryOfTransportAndCommunicationsOrdinance,
    MinistryOfTheArmyOrdinanceA,
    NavyMinisterialOrdinance,
    OrdinanceOfTheMinistryOfMunitions,
    MinistryOfAgricultureAndForestryOrdinance,
}

impl MinistryContents for M2Ministry {
    open spec fn spec_code(&self) -> u32 {
        match self {
            M2Ministry::CabinetOrder => 1,
            M2Ministry::ImperialHouseholdOrdinance => 2,
            M2Ministry::GreaterEastAsiaMinisterialOrdinance => 3,
            M2Ministry::MinistryOfTheInteriorOrdinance => 4,
            M2Ministry::MinistryOfJusticeOrdinance => 5,
            M2Ministry::MinistryOfForeignAffairsOrdinance => 6,
            M2Ministry::MinistryOfFinanceOrdinance => 7,
            M2Ministry::MinistryOfEducationOrdinance => 8,
            M2Ministry::MinistryOfHealthAndWelfareOrdinance => 9,
            M2Ministry::MinistryOfAgricultureAndCommerceOrdinance => 10,
            M2Ministry::MinistryOfCommerceAndIndustryOrdinance => 11,
            M2Ministry::MinistryOfTransportOrdinance => 12,
            M2Ministry::MinistryOfTransportAndCommunicationsOrdinance => 13,
            M2Ministry::MinistryOfTheArmyOrdinanceA => 14,
            M2Ministry::NavyMinisterialOrdinance => 15,
            M2Ministry::OrdinanceOfTheMinistryOfMunitions => 16,
            M2Ministry::MinistryOfAgricultureAndForestryOrdinance => 17,
        }
    }

    open spec fn valid_code(c: u32) -> bool {
        1 <= c <= 17
    }

    proof fn lemma_code_facts(&self) {
    }

    proof fn lemma_code_injective(a: Self, b: Self) {
    }

    fn to_int(&self) -> (n: usize) {
        match self {
            M2Ministry::CabinetOrder => 1,
            M2Ministry::ImperialHouseholdOrdinance => 2,
            M2Ministry::GreaterEastAsiaMinisterialOrdinance => 3,
            M2Ministry::MinistryOfTheInteriorOrdinance => 4,
            M2Ministry::MinistryOfJusticeOrdinance => 5,
            M2Ministry::MinistryOfForeignAffairsOrdinance => 6,
            M2Ministry::MinistryOfFinanceOrdinance => 7,
            M2Ministry::MinistryOfEducationOrdinance => 8,
            M2Ministry::MinistryOfHealthAndWelfareOrdinance => 9,
            M2Ministry::MinistryOfAgricultureAndCommerceOrdinance => 10,
            M2Ministry::MinistryOfCommerceAndIndustryOrdinance => 11,
            M2Ministry::MinistryOfTransportOrdinance => 12,
            M2Ministry::MinistryOfTransportAndCommunicationsOrdinance => 13,
            M2Ministry::MinistryOfTheArmyOrdinanceA => 14,
            M2Ministry::NavyMinisterialOrdinance => 15,
            M2Ministry::OrdinanceOfTheMinistryOfMunitions => 16,
            M2Ministry::MinistryOfAgricultureAndForestryOrdinance => 17,
        }
    }

    fn from_int(n: usize) -> (r: Option<Self>) {
        match n {
            1 => Some(M2Ministry::CabinetOrder),
            2 => Some(M2Ministry::ImperialHouseholdOrdinance),
            3 => Some(M2Ministry::GreaterEastAsiaMinisterialOrdinance),
            4 => Some(M2Ministry::MinistryOfTheInteriorOrdinance),
            5 => Some(M2Ministry::MinistryOfJusticeOrdinance),
            6 => Some(M2Ministry::MinistryOfForeignAffairsOrdinance),
            7 => Some(M2Ministry::MinistryOfFinanceOrdinance),
            8 => Some(M2Ministry::MinistryOfEducationOrdinance),
            9 => Some(M2Ministry::MinistryOfHealthAndWelfareOrdinance),
            10 => Some(M2Ministry::MinistryOfAgricultureAndCommerceOrdinance),
            11 => Some(M2Ministry::MinistryOfCommerceAndIndustryOrdinance),
            12 => Some(M2Ministry::MinistryOfTransportOrdinance),
            13 => Some(M2Ministry::MinistryOfTransportAndCommunicationsOrdinance),
            14 => Some(M2Ministry::MinistryOfTheArmyOrdinanceA),
            15 => Some(M2Ministry::NavyMinisterialOrdinance),
            16 => Some(M2Ministry::OrdinanceOfTheMinistryOfMunitions),
            17 => Some(M2Ministry::MinistryOfAgricultureAndForestryOrdinance),
            _ => None,
        }
    }
}

/// An issuing ministry or agency of the third ministry generation (1 December 1945 to 2 May 1947).
#[derive(Debug, Clone, Copy, PartialEq, Eq, Hash, Structural)]
pub enum M3Ministry {
    CabinetOrder,
    ImperialHouseholdOrdinance,
    EconomicStabilityHeadquartersOrdinance,
    MinistryOfTheInteriorOrdinance,
    MinistryOfJusticeOrdinance,
    MinistryOfForeignAffairsOrdinance,
    MinistryOfFinanceOrdinance,
    MinistryOfEducationOrdinance,
    MinistryOfHealthAndWelfareOrdinance,
    MinistryOfAgricultureAndForestryOrdinance,
    MinistryOfCommerceAndIndustryOrdinance,
    MinistryOfTransportOrdinance,
    MinistryOfCommunicationsOrdinance,
    FirstMinisterialOrdinanceForDemobilization,
    SecondMinisterialOrdinanceForDemobilization,
    PriceAgencyOrdinance,
    CentralLaborRelationsCommissionRules,
}

impl MinistryContents for M3Ministry {
    open spec fn spec_code(&self) -> u32 {
        match self {
            M3Ministry::CabinetOrder => 1,
            M3Ministry::ImperialHouseholdOrdinance => 2,
            M3Ministry::EconomicStabilityHeadquartersOrdinance => 3,
            M3Ministry::MinistryOfTheInteriorOrdinance => 4,
            M3Ministry::MinistryOfJusticeOrdinance => 5,
            M3Ministry::MinistryOfForeignAffairsOrdinance => 6,
            M3Ministry::MinistryOfFinanceOrdinance => 7,
            M3Ministry::MinistryOfEducationOrdinance => 8,
            M3Ministry::MinistryOfHealthAndWelfareOrdinance => 9,
            M3Ministry::MinistryOfAgricultureAndForestryOrdinance => 10,
            M3Ministry::MinistryOfCommerceAndIndustryOrdinance => 11,
            M3Ministry::MinistryOfTransportOrdinance => 12,
            M3Ministry::MinistryOfCommunicationsOrdinance => 13,
            M3Ministry::FirstMinisterialOrdinanceForDemobilization => 14,
            M3Ministry::SecondMinisterialOrdinanceForDemobilization => 15,
            M3Ministry::PriceAgencyOrdinance => 16,
            M3Ministry::CentralLaborRelationsCommissionRules => 21,
        }
    }

    open spec fn valid_code(c: u32) -> bool {
        1 <= c <= 16 || c == 21
    }

    proof fn lemma_code_facts(&self) {
    }

    proof fn lemma_code_injective(a: Self, b: Self) {
    }

    fn to_int(&self) -> (n: usize) {
        match self {
            M3Ministry::CabinetOrder => 1,
            M3Ministry::ImperialHouseholdOrdinance => 2,
            M3Ministry::EconomicStabilityHeadquartersOrdinance => 3,
            M3Ministry::MinistryOfTheInteriorOrdinance => 4,
            M3Ministry::MinistryOfJusticeOrdinance => 5,
            M3Ministry::MinistryOfForeignAffairsOrdinance => 6,
            M3Ministry::MinistryOfFinanceOrdinance => 7,
            M3Ministry::MinistryOfEducationOrdinance => 8,
            M3Ministry::MinistryOfHealthAndWelfareOrdinance => 9,
            M3Ministry::MinistryOfAgricultureAndForestryOrdinance => 10,
            M3Ministry::MinistryOfCommerceAndIndustryOrdinance => 11,
            M3Ministry::MinistryOfTransportOrdinance => 12,
            M3Ministry::MinistryOfCommunicationsOrdinance => 13,
            M3Ministry::FirstMinisterialOrdinanceForDemobilization => 14,
            M3Ministry::SecondMinisterialOrdinanceForDemobilization => 15,
            M3Ministry::PriceAgencyOrdinance => 16,
            M3Ministry::CentralLaborRelationsCommissionRules => 21,
        }
    }

    fn from_int(n: usize) -> (r: Option<Self>) {
        match n {
            1 => Some(M3Ministry::CabinetOrder),
            2 => Some(M3Ministry::ImperialHouseholdOrdinance),
            3 => Some(M3Ministry::EconomicStabilityHeadquartersOrdinance),
            4 => Some(M3Ministry::MinistryOfTheInteriorOrdinance),
            5 => Some(M3Ministry::MinistryOfJusticeOrdinance),
            6 => Some(M3Ministry::MinistryOfForeignAffairsOrdinance),
            7 => Some(M3Ministry::MinistryOfFinanceOrdinance),
            8 => Some(M3Ministry::MinistryOfEducationOrdinance),
            9 => Some(M3Ministry::MinistryOfHealthAndWelfareOrdinance),
            10 => Some(M3Ministry::MinistryOfAgricultureAndForestryOrdinance),
            11 => Some(M3Ministry::MinistryOfCommerceAndIndustryOrdinance),
            12 => Some(M3Ministry::MinistryOfTransportOrdinance),
            13 => Some(M3Ministry::MinistryOfCommunicationsOrdinance),
            14 => Some(M3Ministry::FirstMinisterialOrdinanceForDemobilization),
            15 => Some(M3Ministry::SecondMinisterialOrdinanceForDemobilization),
            16 => Some(M3Ministry::PriceAgencyOrdinance),
            21 => Some(M3Ministry::CentralLaborRelationsCommissionRules),
            _ => None,
        }
    }
}

/// An issuing ministry or agency of the fourth ministry generation (3 May 1947 to 31 May 1949).
#[derive(Debug, Clone, Copy, PartialEq, Eq, Hash, Structural)]
pub enum M4Ministry {
    LegalAffairsAgencyOrdinance,
    PrimeMinistersOfficeOrdinance,
    EconomicStabilityHeadquartersOrdinance,
    MinistryOfTheInteriorOrdinance,
    MinistryOfJusticeOrdinance,
    MinistryOfForeignAffairsOrdinance,
    MinistryOfFinanceOrdinance,
    MinistryOfEducationOrdinance,
    MinistryOfHealthAndWelfareOrdinance,
    MinistryOfAgricultureAndForestryOrdinance,
    MinistryOfInternationalTradeAndIndustryOrdinance,
    MinistryOfTransportOrdinance,
    MinistryOfCommunicationsOrdinance,
    MinistryOfLaborOrdinance,
    MinistryOfConstructionOrdinance,
    PriceAgencyOrdinance,
    MinistryOfCommerceAndIndustryOrdinance,
    CentralLaborRelationsCommissionRules,
    FairTradeCommissionRules,
    NationalPublicSafetyCommissionRegulations,
}

impl MinistryContents for M4Ministry {
    open spec fn spec_code(&self) -> u32 {
        match self {
            M4Ministry::LegalAffairsAgencyOrdinance => 1,
            M4Ministry::PrimeMinistersOfficeOrdinance => 2,
            M4Ministry::EconomicStabilityHeadquartersOrdinance => 3,
            M4Ministry::MinistryOfTheInteriorOrdinance => 4,
            M4Ministry::MinistryOfJusticeOrdinance => 5,
            M4Ministry::MinistryOfForeignAffairsOrdinance => 6,
            M4Ministry::MinistryOfFinanceOrdinance => 7,
            M4Ministry::MinistryOfEducationOrdinance => 8,
            M4Ministry::MinistryOfHealthAndWelfareOrdinance => 9,
            M4Ministry::MinistryOfAgricultureAndForestryOrdinance => 10,
            M4Ministry::MinistryOfInternationalTradeAndIndustryOrdinance => 11,
            M4Ministry::MinistryOfTransportOrdinance => 12,
            M4Ministry::MinistryOfCommunicationsOrdinance => 13,
            M4Ministry::MinistryOfLaborOrdinance => 14,
            M4Ministry::MinistryOfConstructionOrdinance => 15,
            M4Ministry::PriceAgencyOrdinance => 16,
            M4Ministry::MinistryOfCommerceAndIndustryOrdinance => 17,
            M4Ministry::CentralLaborRelationsCommissionRules => 21,
            M4Ministry::FairTradeCommissionRules => 22,
            M4Ministry::NationalPublicSafetyCommissionRegulations => 23,
        }
    }

    open spec fn valid_code(c: u32) -> bool {
        1 <= c <= 17 || 21 <= c <= 23
    }

    proof fn lemma_code_facts(&self) {
    }

    proof fn lemma_code_injective(a: Self, b: Self) {
    }

    fn to_int(&self) -> (n: usize) {
        match self {
            M4Ministry::LegalAffairsAgencyOrdinance => 1,
            M4Ministry::PrimeMinistersOfficeOrdinance => 2,
            M4Ministry::EconomicStabilityHeadquartersOrdinance => 3,
            M4Ministry::MinistryOfTheInteriorOrdinance => 4,
            M4Ministry::MinistryOfJusticeOrdinance => 5,
            M4Ministry::MinistryOfForeignAffairsOrdinance => 6,
            M4Ministry::MinistryOfFinanceOrdinance => 7,
            M4Ministry::MinistryOfEducationOrdinance => 8,
            M4Ministry::MinistryOfHealthAndWelfareOrdinance => 9,
            M4Ministry::MinistryOfAgricultureAndForestryOrdinance => 10,
            M4Ministry::MinistryOfInternationalTradeAndIndustryOrdinance => 11,
            M4Ministry::MinistryOfTransportOrdinance => 12,
            M4Ministry::MinistryOfCommunicationsOrdinance => 13,
            M4Ministry::MinistryOfLaborOrdinance => 14,
            M4Ministry::MinistryOfConstructionOrdinance => 15,
            M4Ministry::PriceAgencyOrdinance => 16,
            M4Ministry::MinistryOfCommerceAndIndustryOrdinance => 17,
            M4Ministry::CentralLaborRelationsCommissionRules => 21,
            M4Ministry::FairTradeCommissionRules => 22,
            M4Ministry::NationalPublicSafetyCommissionRegulations => 23,
        }
    }

    fn from_int(n: usize) -> (r: Option<Self>) {
        match n {
            1 => Some(M4Ministry::LegalAffairsAgencyOrdinance),
            2 => Some(M4Ministry::PrimeMinistersOfficeOrdinance),
            3 => Some(M4Ministry::EconomicStabilityHeadquartersOrdinance),
            4 => Some(M4Ministry::MinistryOfTheInteriorOrdinance),
            5 => Some(M4Ministry::MinistryOfJusticeOrdinance),
            6 => Some(M4Ministry::MinistryOfForeignAffairsOrdinance),
            7 => Some(M4Ministry::MinistryOfFinanceOrdinance),
            8 => Some(M4Ministry::MinistryOfEducationOrdinance),
            9 => Some(M4Ministry::MinistryOfHealthAndWelfareOrdinance),
            10 => Some(M4Ministry::MinistryOfAgricultureAndForestryOrdinance),
            11 => Some(M4Ministry::MinistryOfInternationalTradeAndIndustryOrdinance),
            12 => Some(M4Ministry::MinistryOfTransportOrdinance),
            13 => Some(M4Ministry::MinistryOfCommunicationsOrdinance),
            14 => Some(M4Ministry::MinistryOfLaborOrdinance),
            15 => Some(M4Ministry::MinistryOfConstructionOrdinance),
            16 => Some(M4Ministry::PriceAgencyOrdinance),
            17 => Some(M4Ministry::MinistryOfCommerceAndIndustryOrdinance),
            21 => Some(M4Ministry::CentralLaborRelationsCommissionRules),
            22 => Some(M4Ministry::FairTradeCommissionRules),
            23 => Some(M4Ministry::NationalPublicSafetyCommissionRegulations),
            _ => None,
        }
    }
}

/// An issuing ministry or agency of the fifth ministry generation (1 June 1949 to 15 January 2001).
#[derive(Debug, Clone, Copy, PartialEq, Eq, Hash, Structural)]
pub enum M5Ministry {
    LegalAffairsAgencyOrdinance,
    PrimeMinistersOfficeOrdinance,
    EconomicStabilityHeadquartersOrdinance,
    MinistryOfHomeAffairsOrdinance,
    MinistryOfJusticeOrdinance,
    MinistryOfForeignAffairsOrdinance,
    MinistryOfFinanceOrdinance,
    MinistryOfEducationOrdinance,
    MinistryOfHealthAndWelfareOrdinance,
    MinistryOfAgricultureAndForestryAndFisheriesOrdinance,
    MinistryOfInternationalTradeAndIndustryOrdinance,
    MinistryOfTransportOrdinance,
    MinistryOfPostsAndTelecommunicationsOrdinance,
    MinistryOfLaborOrdinance,
    MinistryOfConstructionOrdinance,
    PriceAgencyOrdinance,
    MinistryOfAgricultureAndForestryOrdinance,
    TelecommunicationsMinisterialOrdinance,
    CentralMinistriesAndAgenciesReformPromotionHeadquartersOrdinance,
    RadioRegulatoryCommissionRules,
    CentralLaborRelationsCommissionRules,
    FairTradeCommissionRules,
    NationalPublicSafetyCommissionRegulations,
    PollutionAdjustmentCommitteeRules,
    PublicSafetyReviewCommitteeRules,
}

impl MinistryContents for M5Ministry {
    open spec fn spec_code(&self) -> u32 {
        match self {
            M5Ministry::LegalAffairsAgencyOrdinance => 1,
            M5Ministry::PrimeMinistersOfficeOrdinance => 2,
            M5Ministry::EconomicStabilityHeadquartersOrdinance => 3,
            M5Ministry::MinistryOfHomeAffairsOrdinance => 4,
            M5Ministry::MinistryOfJusticeOrdinance => 5,
            M5Ministry::MinistryOfForeignAffairsOrdinance => 6,
            M5Ministry::MinistryOfFinanceOrdinance => 7,
            M5Ministry::MinistryOfEducationOrdinance => 8,
            M5Ministry::MinistryOfHealthAndWelfareOrdinance => 9,
            M5Ministry::MinistryOfAgricultureAndForestryAndFisheriesOrdinance => 10,
            M5Ministry::MinistryOfInternationalTradeAndIndustryOrdinance => 11,
            M5Ministry::MinistryOfTransportOrdinance => 12,
            M5Ministry::MinistryOfPostsAndTelecommunicationsOrdinance => 13,
            M5Ministry::MinistryOfLaborOrdinance => 14,
            M5Ministry::MinistryOfConstructionOrdinance => 15,
            M5Ministry::PriceAgencyOrdinance => 16,
            M5Ministry::MinistryOfAgricultureAndForestryOrdinance => 17,
            M5Ministry::TelecommunicationsMinisterialOrdinance => 18,
            M5Ministry::CentralMinistriesAndAgenciesReformPromotionHeadquartersOrdinance => 19,
            M5Ministry::RadioRegulatoryCommissionRules => 20,
            M5Ministry::CentralLaborRelationsCommissionRules => 21,
            M5Ministry::FairTradeCommissionRules => 22,
            M5Ministry::NationalPublicSafetyCommissionRegulations => 23,
            M5Ministry::PollutionAdjustmentCommitteeRules => 24,
            M5Ministry::PublicSafetyReviewCommitteeRules => 25,
        }
    }

    open spec fn valid_code(c: u32) -> bool {
        1 <= c <= 25
    }

    proof fn lemma_code_facts(&self) {
    }

    proof fn lemma_code_injective(a: Self, b: Self) {
    }

    fn to_int(&self) -> (n: usize) {
        match self {
            M5Ministry::LegalAffairsAgencyOrdinance => 1,
            M5Ministry::PrimeMinistersOfficeOrdinance => 2,
            M5Ministry::EconomicStabilityHeadquartersOrdinance => 3,
            M5Ministry::MinistryOfHomeAffairsOrdinance => 4,
            M5Ministry::MinistryOfJusticeOrdinance => 5,
            M5Ministry::MinistryOfForeignAffairsOrdinance => 6,
            M5Ministry::MinistryOfFinanceOrdinance => 7,
            M5Ministry::MinistryOfEducationOrdinance => 8,
            M5Ministry::MinistryOfHealthAndWelfareOrdinance => 9,
            M5Ministry::MinistryOfAgricultureAndForestryAndFisheriesOrdinance => 10,
            M5Ministry::MinistryOfInternationalTradeAndIndustryOrdinance => 11,
            M5Ministry::MinistryOfTransportOrdinance => 12,
            M5Ministry::MinistryOfPostsAndTelecommunicationsOrdinance => 13,
            M5Ministry::MinistryOfLaborOrdinance => 14,
            M5Ministry::MinistryOfConstructionOrdinance => 15,
            M5Ministry::PriceAgencyOrdinance => 16,
            M5Ministry::MinistryOfAgricultureAndForestryOrdinance => 17,
            M5Ministry::TelecommunicationsMinisterialOrdinance => 18,
            M5Ministry::CentralMinistriesAndAgenciesReformPromotionHeadquartersOrdinance => 19,
            M5Ministry::RadioRegulatoryCommissionRules => 20,
            M5Ministry::CentralLaborRelationsCommissionRules => 21,
            M5Ministry::FairTradeCommissionRules => 22,
            M5Ministry::NationalPublicSafetyCommissionRegulations => 23,
            M5Ministry::PollutionAdjustmentCommitteeRules => 24,
            M5Ministry::PublicSafetyReviewCommitteeRules => 25,
        }
    }

    fn from_int(n: usize) -> (r: Option<Self>) {
        match n {
            1 => Some(M5Ministry::LegalAffairsAgencyOrdinance),
            2 => Some(M5Ministry::PrimeMinistersOfficeOrdinance),
            3 => Some(M5Ministry::EconomicStabilityHeadquartersOrdinance),
            4 => Some(M5Ministry::MinistryOfHomeAffairsOrdinance),
            5 => Some(M5Ministry::MinistryOfJusticeOrdinance),
            6 => Some(M5Ministry::MinistryOfForeignAffairsOrdinance),
            7 => Some(M5Ministry::MinistryOfFinanceOrdinance),
            8 => Some(M5Ministry::MinistryOfEducationOrdinance),
            9 => Some(M5Ministry::MinistryOfHealthAndWelfareOrdinance),
            10 => Some(M5Ministry::MinistryOfAgricultureAndForestryAndFisheriesOrdinance),
            11 => Some(M5Ministry::MinistryOfInternationalTradeAndIndustryOrdinance),
            12 => Some(M5Ministry::MinistryOfTransportOrdinance),
            13 => Some(M5Ministry::MinistryOfPostsAndTelecommunicationsOrdinance),
            14 => Some(M5Ministry::MinistryOfLaborOrdinance),
            15 => Some(M5Ministry::MinistryOfConstructionOrdinance),
            16 => Some(M5Ministry::PriceAgencyOrdinance),
            17 => Some(M5Ministry::MinistryOfAgricultureAndForestryOrdinance),
            18 => Some(M5Ministry::TelecommunicationsMinisterialOrdinance),
            19 => Some(M5Ministry::CentralMinistriesAndAgenciesReformPromotionHeadquartersOrdinance),
            20 => Some(M5Ministry::RadioRegulatoryCommissionRules),
            21 => Some(M5Ministry::CentralLaborRelationsCommissionRules),
            22 => Some(M5Ministry::FairTradeCommissionRules),
            23 => Some(M5Ministry::NationalPublicSafetyCommissionRegulations),
            24 => Some(M5Ministry::PollutionAdjustmentCommitteeRules),
            25 => Some(M5Ministry::PublicSafetyReviewCommitteeRules),
            _ => None,
        }
    }
}

/// An issuing ministry or agency of the sixth ministry generation (16 January 2001 onwards).
#[derive(Debug, Clone, Copy, PartialEq, Eq, Hash, Structural)]
pub enum M6Ministry {
    CabinetSecretariatOrdinance,
    PrimeMinistersOfficeOrdinance,
    ReconstructionAgencyOrdinance,
    MinistryOfHomeAffairsOrdinance,
    MinistryOfJusticeOrdinance,
    MinistryOfForeignAffairsOrdinance,
    MinistryOfFinanceOrdinance,
    MinistryOfEducationAndCultureAndSportsAndScienceAndTechnologyOrdinance,
    MinistryOfHealthAndLaborAndWelfareOrdinance,
    MinistryOfAgricultureAndForestryAndFisheriesOrdinance,
    MinistryOfEconomyAndTradeAndIndustryOrdinance,
    MinistryOfLandAndInfrastructureAndTransportAndTourismOrdinance,
    MinistryOfTheEnvironmentOrdinance,
    MinistryOfDefenseOrdinance,
    DigitalAgencyOrdinance,
    SpecificPersonalInformationProtectionCommissionRules,
    JapanTransportSafetyBoardRegulations,
    NuclearRegulationAuthorityRegulations,
    CentralLaborRelationsCommissionRules,
    FairTradeCommissionRules,
    NationalPublicSafetyCommissionRegulations,
    PollutionAdjustmentCommitteeRules,
    PublicSafetyReviewCommitteeRules,
    CasinoManagementCommitteeRules,
}

impl MinistryContents for M6Ministry {
    open spec fn spec_code(&self) -> u32 {
        match self {
            M6Ministry::CabinetSecretariatOrdinance => 1,
            M6Ministry::PrimeMinistersOfficeOrdinance => 2,
            M6Ministry::ReconstructionAgencyOrdinance => 3,
            M6Ministry::MinistryOfHomeAffairsOrdinance => 4,
            M6Ministry::MinistryOfJusticeOrdinance => 5,
            M6Ministry::MinistryOfForeignAffairsOrdinance => 6,
            M6Ministry::MinistryOfFinanceOrdinance => 7,
            M6Ministry::MinistryOfEducationAndCultureAndSportsAndScienceAndTechnologyOrdinance => 8,
            M6Ministry::MinistryOfHealthAndLaborAndWelfareOrdinance => 9,
            M6Ministry::MinistryOfAgricultureAndForestryAndFisheriesOrdinance => 10,
            M6Ministry::MinistryOfEconomyAndTradeAndIndustryOrdinance => 11,
            M6Ministry::MinistryOfLandAndInfrastructureAndTransportAndTourismOrdinance => 12,
            M6Ministry::MinistryOfTheEnvironmentOrdinance => 13,
            M6Ministry::MinistryOfDefenseOrdinance => 14,
            M6Ministry::DigitalAgencyOrdinance => 15,
            M6Ministry::SpecificPersonalInformationProtectionCommissionRules => 18,
            M6Ministry::JapanTransportSafetyBoardRegulations => 19,
            M6Ministry::NuclearRegulationAuthorityRegulations => 20,
            M6Ministry::CentralLaborRelationsCommissionRules => 21,
            M6Ministry::FairTradeCommissionRules => 22,
            M6Ministry::NationalPublicSafetyCommissionRegulations => 23,
            M6Ministry::PollutionAdjustmentCommitteeRules => 24,
            M6Ministry::PublicSafetyReviewCommitteeRules => 25,
            M6Ministry::CasinoManagementCommitteeRules => 26,
        }
    }

    open spec fn valid_code(c: u32) -> bool {
        1 <= c <= 15 || 18 <= c <= 26
    }

    proof fn lemma_code_facts(&self) {
    }

    proof fn lemma_code_injective(a: Self, b: Self) {
    }

    fn to_int(&self) -> (n: usize) {
        match self {
            M6Ministry::CabinetSecretariatOrdinance => 1,
            M6Ministry::PrimeMinistersOfficeOrdinance => 2,
            M6Ministry::ReconstructionAgencyOrdinance => 3,
            M6Ministry::MinistryOfHomeAffairsOrdinance => 4,
            M6Ministry::MinistryOfJusticeOrdinance => 5,
            M6Ministry::MinistryOfForeignAffairsOrdinance => 6,
            M6Ministry::MinistryOfFinanceOrdinance => 7,
            M6Ministry::MinistryOfEducationAndCultureAndSportsAndScienceAndTechnologyOrdinance => 8,
            M6Ministry::MinistryOfHealthAndLaborAndWelfareOrdinance => 9,
            M6Ministry::MinistryOfAgricultureAndForestryAndFisheriesOrdinance => 10,
            M6Ministry::MinistryOfEconomyAndTradeAndIndustryOrdinance => 11,
            M6Ministry::MinistryOfLandAndInfrastructureAndTransportAndTourismOrdinance => 12,
            M6Ministry::MinistryOfTheEnvironmentOrdinance => 13,
            M6Ministry::MinistryOfDefenseOrdinance => 14,
            M6Ministry::DigitalAgencyOrdinance => 15,
            M6Ministry::SpecificPersonalInformationProtectionCommissionRules => 18,
            M6Ministry::JapanTransportSafetyBoardRegulations => 19,
            M6Ministry::NuclearRegulationAuthorityRegulations => 20,
            M6Ministry::CentralLaborRelationsCommissionRules => 21,
            M6Ministry::FairTradeCommissionRules => 22,
            M6Ministry::NationalPublicSafetyCommissionRegulations => 23,
            M6Ministry::PollutionAdjustmentCommitteeRules => 24,
            M6Ministry::PublicSafetyReviewCommitteeRules => 25,
            M6Ministry::CasinoManagementCommitteeRules => 26,
        }
    }

    fn from_int(n: usize) -> (r: Option<Self>) {
        match n {
            1 => Some(M6Ministry::CabinetSecretariatOrdinance),
            2 => Some(M6Ministry::PrimeMinistersOfficeOrdinance),
            3 => Some(M6Ministry::ReconstructionAgencyOrdinance),
            4 => Some(M6Ministry::MinistryOfHomeAffairsOrdinance),
            5 => Some(M6Ministry::MinistryOfJusticeOrdinance),
            6 => Some(M6Ministry::MinistryOfForeignAffairsOrdinance),
            7 => Some(M6Ministry::MinistryOfFinanceOrdinance),
            8 => Some(M6Ministry::MinistryOfEducationAndCultureAndSportsAndScienceAndTechnologyOrdinance),
            9 => Some(M6Ministry::MinistryOfHealthAndLaborAndWelfareOrdinance),
            10 => Some(M6Ministry::MinistryOfAgricultureAndForestryAndFisheriesOrdinance),
            11 => Some(M6Ministry::MinistryOfEconomyAndTradeAndIndustryOrdinance),
            12 => Some(M6Ministry::MinistryOfLandAndInfrastructureAndTransportAndTourismOrdinance),
            13 => Some(M6Ministry::MinistryOfTheEnvironmentOrdinance),
            14 => Some(M6Ministry::MinistryOfDefenseOrdinance),
            15 => Some(M6Ministry::DigitalAgencyOrdinance),
            18 => Some(M6Ministry::SpecificPersonalInformationProtectionCommissionRules),
            19 => Some(M6Ministry::JapanTransportSafetyBoardRegulations),
            20 => Some(M6Ministry::NuclearRegulationAuthorityRegulations),
            21 => Some(M6Ministry::CentralLaborRelationsCommissionRules),
            22 => Some(M6Ministry::FairTradeCommissionRules),
            23 => Some(M6Ministry::NationalPublicSafetyCommissionRegulations),
            24 => Some(M6Ministry::PollutionAdjustmentCommitteeRules),
            25 => Some(M6Ministry::PublicSafetyReviewCommitteeRules),
            26 => Some(M6Ministry::CasinoManagementCommitteeRules),
            _ => None,
        }
    }
}

/// The set of ministries jointly issuing a ministerial order, tagged by the
/// registry generation the codes belong to.
#[derive(Debug, Clone, PartialEq, Eq, Hash)]
pub enum Ministry {
    M1(Vec<M1Ministry>),
    M2(Vec<M2Ministry>),
    M3(Vec<M3Ministry>),
    M4(Vec<M4Ministry>),
    M5(Vec<M5Ministry>),
    M6(Vec<M6Ministry>),
}

/// Whether generation `g` (a digit `'1'` to `'6'`) defines code `c`.
pub open spec fn gen_valid_code(g: char, c: u32) -> bool {
    if g == '1' {
        M1Ministry::valid_code(c)
    } else if g == '2' {
        M2Ministry::valid_code(c)
    } else if g == '3' {
        M3Ministry::valid_code(c)
    } else if g == '4' {
        M4Ministry::valid_code(c)
    } else if g == '5' {
        M5Ministry::valid_code(c)
    } else if g == '6' {
        M6Ministry::valid_code(c)
    } else {
        false
    }
}

/// Whether every set bit of the mask `m` is a code that generation `g`
/// defines.
pub open spec fn gen_mask_ok(g: char, m: u32) -> bool {
    forall|c: u32| 1 <= c <= 28 && #[trigger] mask_bit(m, (c - 1) as u32) ==> gen_valid_code(g, c)
}

impl Ministry {
    /// The generation digit of the identifier tag.
    pub open spec fn gen_char(&self) -> char {
        match self {
            Ministry::M1(_) => '1',
            Ministry::M2(_) => '2',
            Ministry::M3(_) => '3',
            Ministry::M4(_) => '4',
            Ministry::M5(_) => '5',
            Ministry::M6(_) => '6',
        }
    }

    /// The 28-bit mask of the ministry codes.
    pub open spec fn spec_mask(&self) -> u32 {
        match self {
            Ministry::M1(l) => mask_of(codes_seq(l@)),
            Ministry::M2(l) => mask_of(codes_seq(l@)),
            Ministry::M3(l) => mask_of(codes_seq(l@)),
            Ministry::M4(l) => mask_of(codes_seq(l@)),
            Ministry::M5(l) => mask_of(codes_seq(l@)),
            Ministry::M6(l) => mask_of(codes_seq(l@)),
        }
    }

    /// The canonical form the decoder produces: codes strictly decreasing.
    pub open spec fn wf(&self) -> bool {
        match self {
            Ministry::M1(l) => list_wf(l@),
            Ministry::M2(l) => list_wf(l@),
            Ministry::M3(l) => list_wf(l@),
            Ministry::M4(l) => list_wf(l@),
            Ministry::M5(l) => list_wf(l@),
            Ministry::M6(l) => list_wf(l@),
        }
    }

    /// The mask is always below `2^28`.
    pub proof fn lemma_mask_bound(&self)
        ensures
            self.spec_mask() < 0x10000000,
    {
        match self {
            Ministry::M1(l) => {
                lemma_codes_seq_range(l@);
                lemma_mask_of_bound(codes_seq(l@));
            },
            Ministry::M2(l) => {
                lemma_codes_seq_range(l@);
                lemma_mask_of_bound(codes_seq(l@));
            },
            Ministry::M3(l) => {
                lemma_codes_seq_range(l@);
                lemma_mask_of_bound(codes_seq(l@));
            },
            Ministry::M4(l) => {
                lemma_codes_seq_range(l@);
                lemma_mask_of_bound(codes_seq(l@));
            },
            Ministry::M5(l) => {
                lemma_codes_seq_range(l@);
                lemma_mask_of_bound(codes_seq(l@));
            },
            Ministry::M6(l) => {
                lemma_codes_seq_range(l@);
                lemma_mask_of_bound(codes_seq(l@));
            },
        }
    }

    /// The 28-bit mask of the ministry codes.
    pub fn mask(&self) -> (m: u32)
        ensures
            m == self.spec_mask(),
            m < 0x10000000,
    {
        proof {
            self.lemma_mask_bound();
        }
        match self {
            Ministry::M1(l) => ministry_list_to_usize(l.as_slice()) as u32,
            Ministry::M2(l) => ministry_list_to_usize(l.as_slice()) as u32,
            Ministry::M3(l) => ministry_list_to_usize(l.as_slice()) as u32,
            Ministry::M4(l) => ministry_list_to_usize(l.as_slice()) as u32,
            Ministry::M5(l) => ministry_list_to_usize(l.as_slice()) as u32,
            Ministry::M6(l) => ministry_list_to_usize(l.as_slice()) as u32,
        }
    }

    /// The canonical ministry set of generation `g` with mask `m`: the codes
    /// of the set bits, largest first. Fails when some set bit is not a code
    /// the generation defines, or `g` is not a generation digit.
    pub fn from_gen_mask(g: char, m: u32) -> (r: Result<Ministry, ()>)
        requires
            m < 0x10000000,
        ensures
            r is Ok <==> ((g == '1' || g == '2' || g == '3' || g == '4' || g == '5' || g == '6')
                && gen_mask_ok(g, m)),
            r matches Ok(min) ==> min.wf() && min.gen_char() == g && min.spec_mask() == m,
    {
        proof {
            lemma_mask_of_codes_of(m);
        }
        if g == '1' {
            match list_from_mask::<M1Ministry>(m) {
                Ok(v) => Ok(Ministry::M1(v)),
                Err(_) => Err(()),
            }
        } else if g == '2' {
            match list_from_mask::<M2Ministry>(m) {
                Ok(v) => Ok(Ministry::M2(v)),
                Err(_) => Err(()),
            }
        } else if g == '3' {
            match list_from_mask::<M3Ministry>(m) {
                Ok(v) => Ok(Ministry::M3(v)),
                Err(_) => Err(()),
            }
        } else if g == '4' {
            match list_from_mask::<M4Ministry>(m) {
                Ok(v) => Ok(Ministry::M4(v)),
                Err(_) => Err(()),
            }
        } else if g == '5' {
            match list_from_mask::<M5Ministry>(m) {
                Ok(v) => Ok(Ministry::M5(v)),
                Err(_) => Err(()),
            }
        } else if g == '6' {
            match list_from_mask::<M6Ministry>(m) {
                Ok(v) => Ok(Ministry::M6(v)),
                Err(_) => Err(()),
            }
        } else {
            Err(())
        }
    }
}

proof fn lemma_adjacent_chain(s: Seq<u32>, i: int, j: int)
    requires
        forall|k: int| 0 <= k < s.len() - 1 ==> s[k] > #[trigger] s[k + 1],
        0 <= i < j < s.len(),
    ensures
        s[i] > s[j],
    decreases j - i,
{
    if j > i + 1 {
        lemma_adjacent_chain(s, i, j - 1);
        assert(s[j - 1] > s[(j - 1) + 1]);
    } else {
        assert(s[i] > s[i + 1]);
    }
}

/// Whether a ministry list is in canonical form: codes strictly decreasing,
/// as the mask decoder produces them.
pub fn list_is_canonical<T: MinistryContents>(l: &[T]) -> (b: bool)
    ensures
        b == list_wf(l@),
{
    let n = l.len();
    let mut i: usize = 1;
    while i < n
        invariant
            1 <= i,
            n == l@.len(),
            forall|k: int| 0 <= k < i - 1 ==> codes_seq(l@)[k] > #[trigger] codes_seq(l@)[k + 1],
        decreases n - i,
    {
        let prev = l[i - 1].to_int();
        let cur = l[i].to_int();
        proof {
            assert(codes_seq(l@)[i - 1] == l@[i - 1].spec_code());
            assert(codes_seq(l@)[i as int] == l@[i as int].spec_code());
        }
        if prev <= cur {
            proof {
                assert(!strictly_decreasing(codes_seq(l@)));
            }
            return false;
        }
        i = i + 1;
    }
    proof {
        let s = codes_seq(l@);
        assert forall|a: int, b: int| 0 <= a < b < s.len() implies s[a] > s[b] by {
            lemma_adjacent_chain(s, a, b);
        }
    }
    true
}

impl Ministry {
    /// Whether the ministry set is in canonical form.
    pub fn is_canonical(&self) -> (b: bool)
        ensures
            b == self.wf(),
    {
        match self {
            Ministry::M1(l) => list_is_canonical(l.as_slice()),
            Ministry::M2(l) => list_is_canonical(l.as_slice()),
            Ministry::M3(l) => list_is_canonical(l.as_slice()),
            Ministry::M4(l) => list_is_canonical(l.as_slice()),
            Ministry::M5(l) => list_is_canonical(l.as_slice()),
            Ministry::M6(l) => list_is_canonical(l.as_slice()),
        }
    }
}

/// The 28-bit mask with bit `code - 1` set for each ministry of the list.
pub fn ministry_list_to_usize<T: MinistryContents>(l: &[T]) -> (n: usize)
    ensures
        n as u32 == mask_of(codes_seq(l@)),
        n < 0x10000000,
{
    let mut mask: u32 = 0;
    let mut i: usize = 0;
    proof {
        lemma_codes_seq_range(l@);
        assert(codes_seq(l@.take(0)) =~= Seq::<u32>::empty());
    }
    while i < l.len()
        invariant
            i <= l@.len(),
            mask == mask_of(codes_seq(l@.take(i as int))),
            mask < 0x10000000,
            forall|k: int| 0 <= k < l@.len() ==> 1 <= #[trigger] codes_seq(l@)[k] <= 28,
        decreases l@.len() - i,
    {
        let c = l[i].to_int();
        proof {
            assert(codes_seq(l@)[i as int] == l@[i as int].spec_code());
            lemma_or_bound(mask, (c - 1) as u32);
            lemma_or_bit(mask, (c - 1) as u32, 0);
            let pre = codes_seq(l@.take(i as int));
            let post = codes_seq(l@.take(i + 1));
            assert(post.drop_last() =~= pre);
            assert(post.last() == l@[i as int].spec_code());
        }
        mask = mask | (1u32 << ((c as u32) - 1));
        i = i + 1;
    }
    proof {
        assert(l@.take(l@.len() as int) =~= l@);
    }
    mask as usize
}

/// The ministries named by a string of 28 mask bits, `'1'` at position `i`
/// (from the left) naming code `28 - i`. Fails when a named code is not one
/// the generation defines, or a character is neither `'0'` nor `'1'`.
pub fn list_from_str<T: MinistryContents>(s: &str) -> (r: Result<Vec<T>, ()>)
    requires
        s@.len() == 28,
    ensures
        r is Ok <==> (forall|i: int|
            0 <= i < 28 ==> (#[trigger] s@[i] == '0' || (s@[i] == '1' && T::valid_code(
                (28 - i) as u32,
            )))),
        r matches Ok(v) ==> list_wf(v@) && (forall|x: u32|
            codes_seq(v@).contains(x) <==> (1 <= x <= 28 && s@[28 - x] == '1')),
{
    let mut v: Vec<T> = Vec::new();
    let mut i: usize = 0;
    while i < 28
        invariant
            i <= 28,
            s@.len() == 28,
            forall|j: int|
                0 <= j < i ==> (#[trigger] s@[j] == '0' || (s@[j] == '1' && T::valid_code(
                    (28 - j) as u32,
                ))),
            strictly_decreasing(codes_seq(v@)),
            forall|k: int|
                0 <= k < v@.len() ==> 28 - i < #[trigger] codes_seq(v@)[k] <= 28,
            forall|x: u32|
                codes_seq(v@).contains(x) <==> (28 - i < x <= 28 && s@[28 - x] == '1'),
        decreases 28 - i,
    {
        let c = s.get_char(i);
        let ghost pre = codes_seq(v@);
        if c == '1' {
            match T::from_int(28 - i) {
                Some(t) => {
                    proof {
                        t.lemma_code_facts();
                        let post = codes_seq(v@.push(t));
                        assert(post.drop_last() =~= pre);
                        assert(post.last() == t.spec_code());
                        assert(forall|k: int|
                            0 <= k < pre.len() ==> #[trigger] post[k] == pre[k]);
                    }
                    v.push(t);
                    proof {
                        let post = codes_seq(v@);
                        assert(post[post.len() - 1] == (28 - i) as u32);
                        assert forall|x: u32|
                            post.contains(x) <==> (28 - (i + 1) < x <= 28 && s@[28 - x]
                                == '1') by {
                            if post.contains(x) {
                                let k = choose|k: int| 0 <= k < post.len() && post[k] == x;
                                if k < post.len() - 1 {
                                    assert(pre[k] == x);
                                    assert(pre.contains(x));
                                } else {
                                    assert(x == (28 - i) as u32);
                                    assert(s@[28 - x] == '1');
                                }
                            }
                            if 28 - (i + 1) < x <= 28 && s@[28 - x] == '1' {
                                if x == (28 - i) as u32 {
                                    assert(post.contains(x));
                                } else {
                                    assert(28 - i < x <= 28);
                                    assert(pre.contains(x));
                                    let k = choose|k: int| 0 <= k < pre.len() && pre[k] == x;
                                    assert(post[k] == x);
                                }
                            }
                        }
                    }
                },
                None => {
                    return Err(());
                },
            }
        } else if c != '0' {
            return Err(());
        } else {
            proof {
                assert forall|x: u32|
                    codes_seq(v@).contains(x) <==> (28 - (i + 1) < x <= 28 && s@[28 - x]
                        == '1') by {
                    if x == (28 - i) as u32 {
                        assert(s@[28 - x] == '0');
                    }
                }
            }
        }
        i = i + 1;
    }
    Ok(v)
}

/// The ministries named by the set bits of a 28-bit mask, largest code
/// first. Fails when a set bit's code is not one the generation defines.
pub fn list_from_mask<T: MinistryContents>(m: u32) -> (r: Result<Vec<T>, ()>)
    requires
        m < 0x10000000,
    ensures
        r is Ok <==> (forall|c: u32|
            1 <= c <= 28 && #[trigger] mask_bit(m, (c - 1) as u32) ==> T::valid_code(c)),
        r matches Ok(v) ==> codes_seq(v@) == codes_of(m, 28) && list_wf(v@),
{
    let mut v: Vec<T> = Vec::new();
    let mut c: u32 = 28;
    proof {
        assert(codes_seq(v@) + codes_of(m, 28) =~= codes_of(m, 28));
    }
    while c > 0
        invariant
            c <= 28,
            m < 0x10000000,
            codes_seq(v@) + codes_of(m, c) == codes_of(m, 28),
            forall|x: u32| c < x <= 28 && #[trigger] mask_bit(m, (x - 1) as u32) ==> T::valid_code(x),
        decreases c,
    {
        if (m >> (c - 1)) & 1 == 1 {
            assert(mask_bit(m, (c - 1) as u32));
            match T::from_int(c as usize) {
                Some(t) => {
                    let ghost pre = codes_seq(v@);
                    proof {
                        let post = codes_seq(v@.push(t));
                        assert(post.drop_last() =~= pre);
                        assert(post.last() == t.spec_code());
                        assert(post =~= pre + seq![c]);
                        assert(codes_of(m, c) =~= seq![c] + codes_of(m, (c - 1) as u32));
                        assert((pre + seq![c]) + codes_of(m, (c - 1) as u32) =~= pre + (seq![c]
                            + codes_of(m, (c - 1) as u32)));
                    }
                    v.push(t);
                },
                None => {
                    return Err(());
                },
            }
        }
        c = c - 1;
    }
    proof {
        assert(codes_seq(v@) + codes_of(m, 0) =~= codes_seq(v@));
        lemma_codes_of_sorted(m, 28);
    }
    Ok(v)
}

} // verus!
