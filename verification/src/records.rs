//! Plain data records that the analysis pipelines exchange: replacement
//! rules, abbreviations, precedent metadata and municipal-ordinance
//! metadata. They carry strings and dates; the only computation here is
//! building a precedent's file name.

use vstd::prelude::*;

use crate::era::Date;

verus! {

/// A term-replacement rule read out of a law text: the replaced words and
/// the word that replaces them.
#[derive(Debug, Clone, PartialEq, Eq, Hash)]
pub struct YomikaeInfo {
    /// The words being replaced.
    pub before_words: Vec<String>,
    /// The word that replaces them.
    pub after_word: String,
}

/// Why a replacement rule could not be read.
#[derive(Debug, Clone, Copy, PartialEq, Eq, Hash, Structural)]
pub enum YomikaeError {
    /// The rule sits in a table, which is not analysed.
    ContentsOfTable,
    /// The parentheses of the sentence do not match.
    UnmatchedParen,
    /// Parallel words appeared where none were expected.
    UnexpectedParallelWords,
    /// No replacement sentence was found.
    NotFoundYomikae,
}

impl YomikaeError {
    /// The error's message text.
    pub fn message(&self) -> (r: &'static str)
        ensures
            self is ContentsOfTable ==> r@ == "Do not analysis table contents"@,
            self is UnmatchedParen ==> r@ == "Unmatched parentheses"@,
            self is UnexpectedParallelWords ==> r@ == "Unexpected parallel words"@,
            self is NotFoundYomikae ==> r@ == "Not found yomikae sentence"@,
    {
        match self {
            YomikaeError::ContentsOfTable => "Do not analysis table contents",
            YomikaeError::UnmatchedParen => "Unmatched parentheses",
            YomikaeError::UnexpectedParallelWords => "Unexpected parallel words",
            YomikaeError::NotFoundYomikae => "Not found yomikae sentence",
        }
    }
}

/// An abbreviation and the formal name it stands for.
#[derive(Debug, Clone, PartialEq, Eq, Hash)]
pub struct Ryakusyou {
    /// The abbreviated name.
    pub ryakusyou: String,
    /// The formal name.
    pub seishiki: String,
}

/// The published abbreviations of one law.
#[derive(Debug, Clone, PartialEq, Eq, Hash)]
pub struct AbbInfo {
    /// The promulgation number text of the law.
    pub num: String,
    /// Its known abbreviations.
    pub abbs: Vec<String>,
}

/// The court level or case category of a precedent.
#[derive(Debug, Clone, Copy, PartialEq, Eq, Hash, Structural)]
pub enum TrialType {
    SupremeCourt,
    HighCourt,
    LowerCourt,
    AdministrativeCase,
    LaborCase,
    IPCase,
}

/// The name of a precedent category, as it appears inside file names.
pub open spec fn trial_label(t: TrialType) -> Seq<char> {
    match t {
        TrialType::SupremeCourt => "SupremeCourt"@,
        TrialType::HighCourt => "HighCourt"@,
        TrialType::LowerCourt => "LowerCourt"@,
        TrialType::AdministrativeCase => "AdministrativeCase"@,
        TrialType::LaborCase => "LaborCase"@,
        TrialType::IPCase => "IPCase"@,
    }
}

impl TrialType {
    /// The name of the category, as it appears inside file names.
    pub fn label(&self) -> (r: &'static str)
        ensures
            r@ == trial_label(*self),
    {
        match self {
            TrialType::SupremeCourt => "SupremeCourt",
            TrialType::HighCourt => "HighCourt",
            TrialType::LowerCourt => "LowerCourt",
            TrialType::AdministrativeCase => "AdministrativeCase",
            TrialType::LaborCase => "LaborCase",
            TrialType::IPCase => "IPCase",
        }
    }
}

/// The index entry of one precedent.
#[derive(Debug, Clone, PartialEq, Eq, Hash)]
pub struct PrecedentInfo {
    /// The case number.
    pub case_number: String,
    /// The court, division and bench.
    pub court_name: String,
    /// The court level or case category.
    pub trial_type: TrialType,
    /// The decision date.
    pub date: Date,
    /// The identifier the case carries.
    pub lawsuit_id: String,
}

impl PrecedentInfo {
    /// The name of the file that holds the precedent's data: case number,
    /// court name, category label and lawsuit identifier joined by
    /// underscores, with a `.json` ending.
    pub fn file_name(&self) -> (r: String)
        ensures
            r@ == self.case_number@ + "_"@ + self.court_name@ + "_"@ + trial_label(self.trial_type)
                + "_"@ + self.lawsuit_id@ + ".json"@,
    {
        let mut s = String::new();
        s.append(self.case_number.as_str());
        s.append("_");
        s.append(self.court_name.as_str());
        s.append("_");
        s.append(self.trial_type.label());
        s.append("_");
        s.append(self.lawsuit_id.as_str());
        s.append(".json");
        s
    }
}

/// The full record of one precedent.
#[derive(Debug, Clone, PartialEq, Eq, Hash)]
pub struct PrecedentData {
    /// The court level or case category.
    pub trial_type: TrialType,
    /// The decision date.
    pub date: Date,
    /// The case number.
    pub case_number: String,
    /// The case name.
    pub case_name: String,
    /// The court, division and bench.
    pub court_name: String,
    /// The kind of right contested.
    pub right_type: Option<String>,
    /// The lawsuit category.
    pub lawsuit_type: Option<String>,
    /// The kind of decision.
    pub result_type: Option<String>,
    /// The outcome.
    pub result: Option<String>,
    /// Volume, number and page of the reporter.
    pub article_info: Option<String>,
    /// The court of the original instance.
    pub original_court_name: Option<String>,
    /// The case number of the original instance.
    pub original_case_number: Option<String>,
    /// The decision date of the original instance.
    pub original_date: Option<Date>,
    /// The outcome of the original instance.
    pub original_result: Option<String>,
    /// The field of law.
    pub field: Option<String>,
    /// The gist of the matters decided.
    pub gist: Option<String>,
    /// The gist of the decision.
    pub case_gist: Option<String>,
    /// The statutes referred to.
    pub ref_law: Option<String>,
    /// The identifier the case carries.
    pub lawsuit_id: String,
    /// The page that holds the details.
    pub detail_page_link: String,
    /// The link to the full decision text.
    pub full_pdf_link: String,
    /// The full decision text.
    pub contents: Option<String>,
}

/// The index entry of one municipal ordinance.
#[derive(Debug, Clone, PartialEq, Eq, Hash)]
pub struct JoreiInfo {
    /// The title.
    pub title: String,
    /// The identifier that also names the data file.
    pub id: String,
    /// The identifier in the statute-collection service.
    pub reiki_id: String,
    /// The prefecture.
    pub prefecture: Option<String>,
    /// The municipality.
    pub city: Option<String>,
    /// The promulgation date.
    pub announcement_date: Option<Date>,
    /// The date of the last amendment.
    pub updated_date: Option<Date>,
}

/// The full record of one municipal ordinance.
#[derive(Debug, Clone, PartialEq, Eq, Hash)]
pub struct JoreiData {
    /// The collections the record was gathered into.
    pub collection: Vec<String>,
    /// The dates of gathering, as text.
    pub collected_date: Vec<String>,
    /// The amendment dates.
    pub updated_date: Vec<Date>,
    /// The municipality code.
    pub municipality_id: String,
    /// The prefecture.
    pub prefecture: Option<String>,
    /// The municipality.
    pub city: Option<String>,
    /// The prefecture reading.
    pub prefecture_kana: Option<String>,
    /// The municipality reading.
    pub city_kana: Option<String>,
    /// The kind of municipality.
    pub municipality_type: String,
    /// The region.
    pub area: String,
    /// The identifier that also names the data file.
    pub id: String,
    /// The identifier in the statute-collection service.
    pub reiki_id: String,
    /// The page heading.
    pub h1: Option<String>,
    /// The title.
    pub title: String,
    /// The promulgation date.
    pub announcement_date: Option<Date>,
    /// The kind of ordinance.
    pub jorei_type: String,
    /// The date of the last amendment.
    pub last_updated_date: Option<Date>,
    /// The dates listed by the statute-collection service.
    pub reiki_dates: Option<Vec<String>>,
    /// The numbers listed by the statute-collection service.
    pub reiki_numbers: Option<Vec<String>>,
    /// The source page.
    pub original_url: Option<String>,
    /// The statute-collection page.
    pub reiki_url: Option<String>,
    /// Whether older versions exist.
    pub has_version: bool,
    /// The format of the source file.
    pub file_type: String,
    /// The kinds of headings the text uses.
    pub h_type: Vec<String>,
    /// The text.
    pub content: Option<String>,
    /// The gathering date, as text.
    pub collected_date_s: Option<String>,
    /// The promulgation date, as text.
    pub announcement_date_s: Option<String>,
    /// The last amendment date, as text.
    pub last_updated_date_s: Option<String>,
    /// The amendment dates, as text.
    pub updated_date_s: Option<String>,
}

} // verus!
