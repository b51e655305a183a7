//! Position tracking inside a law document.
//!
//! A law XML document is a stream of nested openings: parts, chapters,
//! sections, subsections, divisions, then articles, paragraphs, items and
//! sub-items, with supplementary provisions starting the numbering afresh.
//! [`Chapter`] is the current position; [`next_chapter`] is the transition
//! a single opening makes, exactly as the streaming reader applies it: an
//! opening at one level steps its counter and clears every deeper level.

use vstd::prelude::*;

verus! {

/// Why an article position could not be read from the document.
#[derive(Debug, Clone, PartialEq, Eq)]
pub enum GetArticleError {
    /// A text node could not be decoded; carries the position and the raw
    /// bytes.
    Encoding(Chapter, Vec<u8>),
    /// An expected attribute was missing; carries the position and the
    /// attribute name.
    NotFoundAttribute(Chapter, String),
    /// An attribute could not be read at all.
    AttributeError,
}

/// The positions of the matching passages of one law.
#[derive(Debug, Clone, PartialEq, Eq, PartialOrd, Ord, Hash)]
pub struct LawParagraph {
    /// The promulgation number text of the law.
    pub num: String,
    /// The heading position of each matching passage.
    pub chapter_data: Vec<Chapter>,
}

/// A position inside a law document: the counters of the structural levels
/// above the current text.
#[derive(Debug, Clone, PartialEq, Eq, PartialOrd, Ord, Hash, Default)]
pub struct Chapter {
    /// The part counter.
    pub part: Option<usize>,
    /// The chapter counter.
    pub chapter: Option<usize>,
    /// The section counter.
    pub section: Option<usize>,
    /// The subsection counter.
    pub subsection: Option<usize>,
    /// The division counter.
    pub division: Option<usize>,
    /// The article number text.
    pub article: String,
    /// The paragraph number text.
    pub paragraph: Option<String>,
    /// The item number text.
    pub item: Option<String>,
    /// The sub-item depth and number text.
    pub sub_item: Option<(usize, String)>,
    /// The amending law's number, inside a supplementary provision.
    pub suppl_provision_title: Option<String>,
}

/// One structural opening read from the document.
#[derive(Debug, Clone, PartialEq, Eq)]
pub enum ChapterEvent {
    /// A part opens.
    Part,
    /// A chapter opens.
    Chapter,
    /// A section opens.
    Section,
    /// A subsection opens.
    Subsection,
    /// A division opens.
    Division,
    /// An article opens, with its number text.
    Article(String),
    /// A paragraph opens, with its number text.
    Paragraph(String),
    /// An item opens, with its number text.
    Item(String),
    /// A sub-item opens, with its depth and number text.
    SubItem(usize, String),
    /// A supplementary provision opens, with the amending law's number if
    /// the document names one.
    SupplProvision(Option<String>),
}

/// The counter an event steps, after the step: one more than before, or 1
/// where no counter was set.
pub open spec fn stepped(c: Option<usize>) -> Option<usize> {
    match c {
        Some(n) => Some((n + 1) as usize),
        None => Some(1usize),
    }
}

/// The position after one structural opening: a counter at the opening's
/// level steps and every deeper level clears; an article, paragraph, item
/// or sub-item records its number; a supplementary provision starts a
/// fresh position carrying only the amending law's number.
pub fn next_chapter(cur: Chapter, ev: ChapterEvent) -> (r: Chapter)
    requires
        ev is Part ==> (cur.part matches Some(n) ==> n < usize::MAX),
        ev is Chapter ==> (cur.chapter matches Some(n) ==> n < usize::MAX),
        ev is Section ==> (cur.section matches Some(n) ==> n < usize::MAX),
        ev is Subsection ==> (cur.subsection matches Some(n) ==> n < usize::MAX),
        ev is Division ==> (cur.division matches Some(n) ==> n < usize::MAX),
    ensures
        ev is Part ==> r == (Chapter {
            part: stepped(cur.part),
            chapter: None,
            section: None,
            subsection: None,
            division: None,
            article: cur.article,
            paragraph: None,
            item: None,
            sub_item: None,
            suppl_provision_title: cur.suppl_provision_title,
        }),
        ev is Chapter ==> r == (Chapter {
            chapter: stepped(cur.chapter),
            section: None,
            subsection: None,
            division: None,
            paragraph: None,
            item: None,
            sub_item: None,
            ..cur
        }),
        ev is Section ==> r == (Chapter {
            section: stepped(cur.section),
            subsection: None,
            division: None,
            paragraph: None,
            item: None,
            sub_item: None,
            ..cur
        }),
        ev is Subsection ==> r == (Chapter {
            subsection: stepped(cur.subsection),
            division: None,
            paragraph: None,
            item: None,
            sub_item: None,
            ..cur
        }),
        ev is Division ==> r == (Chapter {
            division: stepped(cur.division),
            paragraph: None,
            item: None,
            sub_item: None,
            ..cur
        }),
        ev matches ChapterEvent::Article(num) ==> r == (Chapter {
            article: num,
            paragraph: None,
            item: None,
            sub_item: None,
            ..cur
        }),
        ev matches ChapterEvent::Paragraph(num) ==> r == (Chapter {
            paragraph: Some(num),
            item: None,
            sub_item: None,
            ..cur
        }),
        ev matches ChapterEvent::Item(num) ==> r == (Chapter {
            item: Some(num),
            sub_item: None,
            ..cur
        }),
        ev matches ChapterEvent::SubItem(depth, num) ==> r == (Chapter {
            sub_item: Some((depth, num)),
            ..cur
        }),
        ev matches ChapterEvent::SupplProvision(title) ==> ({
            &&& r.part is None
            &&& r.chapter is None
            &&& r.section is None
            &&& r.subsection is None
            &&& r.division is None
            &&& r.article@ == Seq::<char>::empty()
            &&& r.paragraph is None
            &&& r.item is None
            &&& r.sub_item is None
            &&& r.suppl_provision_title == title
        }),
{
    match ev {
        ChapterEvent::Part => Chapter {
            part: match cur.part {
                Some(n) => Some(n + 1),
                None => Some(1),
            },
            chapter: None,
            section: None,
            subsection: None,
            division: None,
            article: cur.article,
            paragraph: None,
            item: None,
            sub_item: None,
            suppl_provision_title: cur.suppl_provision_title,
        },
        ChapterEvent::Chapter => Chapter {
            chapter: match cur.chapter {
                Some(n) => Some(n + 1),
                None => Some(1),
            },
            section: None,
            subsection: None,
            division: None,
            paragraph: None,
            item: None,
            sub_item: None,
            ..cur
        },
        ChapterEvent::Section => Chapter {
            section: match cur.section {
                Some(n) => Some(n + 1),
                None => Some(1),
            },
            subsection: None,
            division: None,
            paragraph: None,
            item: None,
            sub_item: None,
            ..cur
        },
        ChapterEvent::Subsection => Chapter {
            subsection: match cur.subsection {
                Some(n) => Some(n + 1),
                None => Some(1),
            },
            division: None,
            paragraph: None,
            item: None,
            sub_item: None,
            ..cur
        },
        ChapterEvent::Division => Chapter {
            division: match cur.division {
                Some(n) => Some(n + 1),
                None => Some(1),
            },
            paragraph: None,
            item: None,
            sub_item: None,
            ..cur
        },
        ChapterEvent::Article(num) => Chapter {
            article: num,
            paragraph: None,
            item: None,
            sub_item: None,
            ..cur
        },
        ChapterEvent::Paragraph(num) => Chapter {
            paragraph: Some(num),
            item: None,
            sub_item: None,
            ..cur
        },
        ChapterEvent::Item(num) => Chapter { item: Some(num), sub_item: None, ..cur },
        ChapterEvent::SubItem(depth, num) => Chapter { sub_item: Some((depth, num)), ..cur },
        ChapterEvent::SupplProvision(title) => Chapter {
            part: None,
            chapter: None,
            section: None,
            subsection: None,
            division: None,
            article: String::new(),
            paragraph: None,
            item: None,
            sub_item: None,
            suppl_provision_title: title,
        },
    }
}

} // verus!
