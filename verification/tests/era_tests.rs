use core::cmp::Ordering;
use jplaw_types::era::{Date, Era};

#[test]
fn era_boundaries() {
    let d = Date::gen_from_ad(1912, 7, 29);
    assert_eq!((d.era, d.year), (Era::Meiji, 45));
    let d = Date::gen_from_ad(1912, 7, 30);
    assert_eq!((d.era, d.year), (Era::Taisho, 1));
    let d = Date::gen_from_ad(1989, 1, 7);
    assert_eq!((d.era, d.year), (Era::Showa, 64));
    let d = Date::gen_from_ad(1989, 1, 8);
    assert_eq!((d.era, d.year), (Era::Heisei, 1));
    let d = Date::gen_from_ad(2019, 4, 30);
    assert_eq!((d.era, d.year), (Era::Heisei, 31));
    let d = Date::gen_from_ad(2019, 5, 1);
    assert_eq!((d.era, d.year), (Era::Reiwa, 1));
}

#[test]
fn gen_from_ad_keeps_month_and_day() {
    let d = Date::gen_from_ad(1970, 4, 1);
    assert_eq!(d, Date { era: Era::Showa, year: 45, month: Some(4), day: Some(1) });
}

#[test]
fn get_ad_inverts_gen_from_ad() {
    for (y, m, dy) in [(1870, 1, 2), (1920, 6, 15), (1950, 12, 31), (2001, 1, 16), (2023, 7, 4)] {
        let d = Date::gen_from_ad(y, m, dy);
        assert_eq!(d.get_ad(), y);
    }
}

#[test]
fn date_order_is_by_composite_key() {
    let a = Date::new(Era::Showa, 45, Some(4), Some(1));
    let b = Date::new(Era::Showa, 45, Some(4), Some(2));
    assert_eq!(a.cmp(&b), Ordering::Less);
    assert_eq!(b.cmp(&a), Ordering::Greater);
    assert_eq!(a.cmp(&a), Ordering::Equal);
    // A date without month and day sorts before any full date of the same
    // era-year.
    let bare = Date::new(Era::Showa, 45, None, None);
    assert_eq!(bare.cmp(&a), Ordering::Less);
    // The last Meiji day sorts before the first Taisho day.
    let m = Date::gen_from_ad(1912, 7, 29);
    let t = Date::gen_from_ad(1912, 7, 30);
    assert_eq!(m.cmp(&t), Ordering::Less);
}
