//! The flat registry of non-ministerial issuing bodies.
//!
//! Institution codes are small integers with gaps. Code 17 is a known
//! duplicate: by convention it is never emitted, but on decode it names the
//! same body as code 8, so `from_int` maps both 8 and 17 to
//! [`Institution::BarExaminationManagementCommittee`] while `to_int` only
//! ever returns 8.

use vstd::prelude::*;

verus! {

/// A non-ministerial body that can issue a regulation.
#[derive(Debug, Clone, Copy, PartialEq, Eq, Hash, Structural)]
pub enum Institution {
    BoardOfAudit,
    CoastGuard,
    ScienceCouncilOfJapan,
    LandAdjustmentCommittee,
    FinancialReconstructionCommittee,
    MetropolitanAreaDevelopmentCommittee,
    LocalFinanceCommittee,
    BarExaminationManagementCommittee,
    CertifiedPublicAccountantManagementCommittee,
    ForeignInvestmentCommittee,
    CulturalPropertiesProtectionCommittee,
    JapaneseNationalCommissionForUNESCO,
    SupremeCourt,
    HouseOfRepresentatives,
    HouseOfCouncilors,
    SeafarersCentralLaborCommittee,
    RadioRegulatoryCommission,
    CasinoManagementCommittee,
}

/// Whether a decoded institution field value names an institution; this
/// includes the duplicate code 17.
pub open spec fn inst_field_ok(n: int) -> bool {
    1 <= n <= 19
}

/// The canonical code an institution field value names: 17 is an alias of 8.
pub open spec fn inst_canon(n: int) -> int {
    if n == 17 {
        8
    } else {
        n
    }
}

impl Institution {
    /// The canonical registry code of this institution: between 1 and 19
    /// and never the alias 17.
    pub open spec fn spec_code(&self) -> u32 {
        match self {
            Institution::BoardOfAudit => 1,
            Institution::CoastGuard => 2,
            Institution::ScienceCouncilOfJapan => 3,
            Institution::LandAdjustmentCommittee => 4,
            Institution::FinancialReconstructionCommittee => 5,
            Institution::MetropolitanAreaDevelopmentCommittee => 6,
            Institution::LocalFinanceCommittee => 7,
            Institution::BarExaminationManagementCommittee => 8,
            Institution::CertifiedPublicAccountantManagementCommittee => 9,
            Institution::ForeignInvestmentCommittee => 10,
            Institution::CulturalPropertiesProtectionCommittee => 11,
            Institution::JapaneseNationalCommissionForUNESCO => 12,
            Institution::SupremeCourt => 13,
            Institution::HouseOfRepresentatives => 14,
            Institution::HouseOfCouncilors => 15,
            Institution::SeafarersCentralLaborCommittee => 16,
            Institution::RadioRegulatoryCommission => 18,
            Institution::CasinoManagementCommittee => 19,
        }
    }

    /// A canonical code names at most one institution.
    pub proof fn lemma_code_injective(a: Self, b: Self)
        requires
            a.spec_code() == b.spec_code(),
        ensures
            a == b,
    {
    }

    /// The canonical code is a defined field value other than 17.
    pub proof fn lemma_code_facts(&self)
        ensures
            1 <= self.spec_code() <= 19,
            self.spec_code() != 17,
    {
    }

    /// The canonical registry code of this institution.
    pub fn to_int(&self) -> (n: usize)
        ensures
            n as u32 == self.spec_code(),
            1 <= n <= 19,
            n != 17,
    {
        match self {
            Institution::BoardOfAudit => 1,
            Institution::CoastGuard => 2,
            Institution::ScienceCouncilOfJapan => 3,
            Institution::LandAdjustmentCommittee => 4,
            Institution::FinancialReconstructionCommittee => 5,
            Institution::MetropolitanAreaDevelopmentCommittee => 6,
            Institution::LocalFinanceCommittee => 7,
            Institution::BarExaminationManagementCommittee => 8,
            Institution::CertifiedPublicAccountantManagementCommittee => 9,
            Institution::ForeignInvestmentCommittee => 10,
            Institution::CulturalPropertiesProtectionCommittee => 11,
            Institution::JapaneseNationalCommissionForUNESCO => 12,
            Institution::SupremeCourt => 13,
            Institution::HouseOfRepresentatives => 14,
            Institution::HouseOfCouncilors => 15,
            Institution::SeafarersCentralLaborCommittee => 16,
            Institution::RadioRegulatoryCommission => 18,
            Institution::CasinoManagementCommittee => 19,
        }
    }

    /// The institution a decoded field value names, or `None` when the
    /// registry does not define it. The duplicate code 17 names the same
    /// institution as 8.
    pub fn from_int(n: usize) -> (r: Option<Self>)
        ensures
            r is Some <==> inst_field_ok(n as int),
            r matches Some(i) ==> i.spec_code() as int == inst_canon(n as int),
    {
        match n {
            1 => Some(Institution::BoardOfAudit),
            2 => Some(Institution::CoastGuard),
            3 => Some(Institution::ScienceCouncilOfJapan),
            4 => Some(Institution::LandAdjustmentCommittee),
            5 => Some(Institution::FinancialReconstructionCommittee),
            6 => Some(Institution::MetropolitanAreaDevelopmentCommittee),
            7 => Some(Institution::LocalFinanceCommittee),
            8 => Some(Institution::BarExaminationManagementCommittee),
            9 => Some(Institution::CertifiedPublicAccountantManagementCommittee),
            10 => Some(Institution::ForeignInvestmentCommittee),
            11 => Some(Institution::CulturalPropertiesProtectionCommittee),
            12 => Some(Institution::JapaneseNationalCommissionForUNESCO),
            13 => Some(Institution::SupremeCourt),
            14 => Some(Institution::HouseOfRepresentatives),
            15 => Some(Institution::HouseOfCouncilors),
            16 => Some(Institution::SeafarersCentralLaborCommittee),
            17 => Some(Institution::BarExaminationManagementCommittee),
            18 => Some(Institution::RadioRegulatoryCommission),
            19 => Some(Institution::CasinoManagementCommittee),
            _ => None,
        }
    }
}

} // verus!
