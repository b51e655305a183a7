use jplaw_types::chapter::{next_chapter, Chapter, ChapterEvent};
use jplaw_types::era::{Date, Era};
use jplaw_types::logging::{end_log, error_log, info_log, start_log, wran_log};
use jplaw_types::records::{PrecedentInfo, TrialType, YomikaeError};

#[test]
fn precedent_file_name() {
    let info = PrecedentInfo {
        case_number: "001".to_string(),
        court_name: "court".to_string(),
        trial_type: TrialType::SupremeCourt,
        date: Date::new(Era::Reiwa, 1, Some(5), Some(1)),
        lawsuit_id: "90001".to_string(),
    };
    assert_eq!(info.file_name(), "001_court_SupremeCourt_90001.json");
}

#[test]
fn yomikae_error_messages() {
    assert_eq!(YomikaeError::ContentsOfTable.message(), "Do not analysis table contents");
    assert_eq!(YomikaeError::UnmatchedParen.message(), "Unmatched parentheses");
    assert_eq!(YomikaeError::UnexpectedParallelWords.message(), "Unexpected parallel words");
    assert_eq!(YomikaeError::NotFoundYomikae.message(), "Not found yomikae sentence");
}

#[test]
fn log_lines() {
    assert_eq!(start_log("job", "42"), "[START] job: 42");
    assert_eq!(end_log("job", "42"), "[END] job: 42");
    assert_eq!(info_log("job", "42"), "[INFO] job: 42");
    assert_eq!(wran_log("job", "42"), "[WARNING] job: 42");
    assert_eq!(error_log("job", "42"), "[ERROR] job: 42");
}

#[test]
fn chapter_transitions() {
    let start = Chapter::default();
    // A first part opens: its counter starts at 1.
    let c = next_chapter(start, ChapterEvent::Part);
    assert_eq!(c.part, Some(1));
    assert_eq!(c.chapter, None);
    // A chapter, a section, and an article inside it.
    let c = next_chapter(c, ChapterEvent::Chapter);
    let c = next_chapter(c, ChapterEvent::Section);
    let c = next_chapter(c, ChapterEvent::Article("3".to_string()));
    assert_eq!(c.part, Some(1));
    assert_eq!(c.chapter, Some(1));
    assert_eq!(c.section, Some(1));
    assert_eq!(c.article, "3");
    // A second chapter clears the section but keeps the part.
    let c = next_chapter(c, ChapterEvent::Chapter);
    assert_eq!(c.chapter, Some(2));
    assert_eq!(c.section, None);
    assert_eq!(c.article, "3");
    // A paragraph, an item and a sub-item nest below the article.
    let c = next_chapter(c, ChapterEvent::Paragraph("1".to_string()));
    let c = next_chapter(c, ChapterEvent::Item("2".to_string()));
    let c = next_chapter(c, ChapterEvent::SubItem(1, "a".to_string()));
    assert_eq!(c.paragraph, Some("1".to_string()));
    assert_eq!(c.item, Some("2".to_string()));
    assert_eq!(c.sub_item, Some((1, "a".to_string())));
    // A new item clears the sub-item.
    let c = next_chapter(c, ChapterEvent::Item("3".to_string()));
    assert_eq!(c.item, Some("3".to_string()));
    assert_eq!(c.sub_item, None);
    // A supplementary provision starts a fresh position with the amending
    // law's number.
    let c = next_chapter(c, ChapterEvent::SupplProvision(Some("no. 9".to_string())));
    assert_eq!(c.part, None);
    assert_eq!(c.article, "");
    assert_eq!(c.suppl_provision_title, Some("no. 9".to_string()));
}
