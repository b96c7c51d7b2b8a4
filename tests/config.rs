use std::collections::{BTreeMap, HashMap};
use ficwright::config::{CookieConfig, Fanfiction, FicDetails, FicMeta, FicTags};
use ficwright::model::{AgeRating, ArchiveWarning, FileFormat};

fn pair(n: &str, v: &str) -> (String, String) {
    (n.to_string(), v.to_string())
}

#[test]
fn default_tags_hold_the_sentinel_warning() {
    let t = FicTags::default();
    assert_eq!(t.rating, AgeRating::NotRated);
    assert_eq!(t.warnings, vec![ArchiveWarning::CNTUAW]);
    assert!(t.fandoms.is_empty() && t.categories.is_empty() && t.other.is_empty());
}

#[test]
fn default_details_and_meta_are_empty() {
    let d = FicDetails::default();
    assert_eq!(d.title, "");
    assert!(d.summary.is_none() && d.co_authors.is_empty());
    let m = FicMeta::default();
    assert_eq!(m.format, FileFormat::Markdown);
    assert_eq!(m.total_chapters, 0);
}

#[test]
fn template_is_an_untitled_work_with_two_chapters() {
    let f = Fanfiction::template();
    assert_eq!(f.fic.title, "Untitled");
    assert_eq!(f.fic.file.as_deref(), Some("untitled.md"));
    assert_eq!(f.fic.summary.as_deref(), Some("Presented without summary"));
    assert_eq!(f.fic.start_note.as_deref(), Some(""));
    assert_eq!(f.chapters.len(), 2);
    assert_eq!(f.chapters[0].0, "01");
    assert_eq!(f.chapters[1].0, "02");
    assert!(f.remix.is_none());
}

#[test]
fn later_cookie_with_a_name_wins() {
    let c = CookieConfig::new(vec![pair("a", "1"), pair("b", "2"), pair("a", "3")]);
    let mut pairs = c.iter();
    pairs.sort();
    assert_eq!(pairs, vec![pair("a", "3"), pair("b", "2")]);
}

#[test]
fn cookies_handed_out_collect_to_the_same_set() {
    let c = CookieConfig::new(vec![pair("_otwarchive_session", "abc"), pair("user_credentials", "1")]);
    let again = CookieConfig::new(c.iter());
    let mut a = c.iter();
    let mut b = again.iter();
    a.sort();
    b.sort();
    assert_eq!(a, b);
    assert!(CookieConfig::new(Vec::new()).iter().is_empty());
}

#[test]
fn cookie_set_survives_the_cookie_file_format() {
    let c = CookieConfig::new(vec![pair("_otwarchive_session", "abc=="), pair("remember", "yes")]);
    let mut file: BTreeMap<String, HashMap<String, String>> = BTreeMap::new();
    file.insert("cookies".to_string(), c.iter().into_iter().collect());
    let text = toml::to_string_pretty(&file).unwrap();
    let mut read: BTreeMap<String, HashMap<String, String>> = toml::from_str(&text).unwrap();
    let loaded = CookieConfig::new(read.remove("cookies").unwrap().into_iter().collect());
    let mut a = c.iter();
    let mut b = loaded.iter();
    a.sort();
    b.sort();
    assert_eq!(a, b);
}
