use citations::bib::Bib;
use citations::entry::Entry;
use citations::entry_type::EntryType;

fn entry(key: &str) -> Entry {
    Entry::new(key, EntryType::Misc)
}

#[test]
fn add_entry_returns_position_and_modifies() {
    let mut bib = Bib::default();
    assert!(!bib.modified());
    assert_eq!(bib.add_entry(entry("a")), 0);
    assert_eq!(bib.add_entry(entry("b")), 1);
    assert_eq!(bib.n_items(), 2);
    assert!(bib.modified());
    assert_eq!(bib.item(1).unwrap().citation_key(), "b");
    assert!(bib.item(2).is_none());
}

#[test]
fn add_at_pos_clamps() {
    let mut bib = Bib::default();
    bib.add_entry(entry("a"));
    bib.add_entry_at_pos(entry("z"), 10);
    bib.add_entry_at_pos(entry("m"), 1);
    let keys: Vec<String> = (0..3).map(|i| bib.item(i).unwrap().citation_key()).collect();
    assert_eq!(keys, vec!["a", "m", "z"]);
}

#[test]
fn remove_then_insert_restores() {
    let mut bib = Bib::default();
    bib.add_entry(entry("a"));
    bib.add_entry(entry("b"));
    bib.add_entry(entry("c"));
    let before = bib.serialize();
    let removed = bib.item(1).unwrap();
    bib.remove_pos(1);
    assert_eq!(bib.n_items(), 2);
    bib.add_entry_at_pos(removed, 1);
    assert_eq!(bib.serialize(), before);
}

#[test]
fn find_and_remove_by_key() {
    let mut bib = Bib::default();
    bib.add_entry(entry("a"));
    bib.add_entry(entry("b"));
    assert!(bib.key_exists("b"));
    assert!(!bib.key_exists("c"));
    assert_eq!(bib.find_pos(&entry("b")), Some(1));
    assert_eq!(bib.find_pos(&entry("c")), None);
    bib.set_modified(false);
    bib.remove_entry("c");
    assert!(bib.modified());
    assert_eq!(bib.n_items(), 2);
    bib.remove_entry("a");
    assert!(!bib.key_exists("a"));
    assert_eq!(bib.n_items(), 1);
}

#[test]
fn edits_mark_modified() {
    let mut bib = Bib::default();
    bib.add_entry(entry("a"));
    assert!(bib.set_modified(false));
    assert!(!bib.set_modified(false));
    assert!(!bib.set_tag(0, "custom", "x"));
    assert!(!bib.modified());
    assert!(bib.set_tag(0, "title", "x"));
    assert!(bib.modified());
    bib.set_modified(false);
    assert!(!bib.set_entry_type(0, EntryType::Misc));
    assert!(bib.set_entry_type(0, EntryType::Book));
    assert!(bib.modified());
    bib.set_modified(false);
    bib.set_other_entry_type(0, "x");
    assert!(!bib.modified());
    assert!(bib.set_citation_key(0, "b"));
    assert_eq!(bib.item(0).unwrap().citation_key(), "b");
}

#[test]
fn parse_and_serialize() {
    let mut bib = Bib::default();
    bib.parse("@book{k, title = {T}}\n@misc{m, year = {1}}").unwrap();
    assert_eq!(bib.n_items(), 2);
    assert!(!bib.modified());
    assert_eq!(
        bib.serialize(),
        "@book{k,\n    title = {T},\n}\n\n@misc{m,\n    year = {1},\n}"
    );
    assert!(bib.parse("@book{k, title = {T}").is_err());
    assert_eq!(bib.n_items(), 2);
}

#[test]
fn x_abstract_sets_the_abstract_tag() {
    let mut bib = Bib::default();
    bib.add_entry(entry("a"));
    bib.set_modified(false);
    assert!(bib.set_tag(0, "x-abstract", "Summary"));
    assert!(bib.modified());
    assert_eq!(bib.item(0).unwrap().get("abstract"), "Summary");
    assert_eq!(bib.item(0).unwrap().get("x-abstract"), "");
    bib.set_modified(false);
    assert!(!bib.set_tag(0, "x-abstract", "Summary"));
    assert!(!bib.modified());
}

#[test]
fn parse_refuses_cyclic_string_abbreviations() {
    let mut bib = Bib::default();
    let err = bib.parse("@string{a = a}\n@misc{k, title = a}\n").unwrap_err();
    assert!(matches!(err, citations::error::Error::CyclicStrings));
    assert_eq!(bib.n_items(), 0);
    let err = bib.parse("@string{a = b}\n@string{b = a}\n").unwrap_err();
    assert!(matches!(err, citations::error::Error::CyclicStrings));
}

#[test]
fn parse_expands_chained_string_abbreviations() {
    let mut bib = Bib::default();
    let text = "@string{a = \"x\"}\n@string{b = a # \"y\"}\n@misc{k, t = b}\n";
    assert!(bib.parse(text).is_ok());
    assert_eq!(bib.n_items(), 1);
    assert_eq!(bib.item(0).unwrap().get("t"), "xy");
}

#[test]
fn parse_expands_plain_string_abbreviations() {
    let mut bib = Bib::default();
    assert!(bib.parse("@string{pub = \"ACM\"}\n@misc{k, publisher = pub}\n").is_ok());
    assert_eq!(bib.n_items(), 1);
    assert_eq!(bib.item(0).unwrap().get("publisher"), "ACM");
}

#[test]
fn parse_does_not_panic_on_open_values_at_the_end() {
    let mut bib = Bib::default();
    assert!(bib.parse("@misc{k, title = {").is_err());
    assert!(bib.parse("@misc{k, title = \"").is_err());
    assert!(bib.parse("@misc{k, title = {é").is_err());
    assert_eq!(bib.n_items(), 0);
}

#[test]
fn parse_reads_a_text_ending_in_a_non_ascii_comment() {
    let mut bib = Bib::default();
    assert!(bib.parse("@misc{k, title = {T}}\nfin é").is_ok());
    assert_eq!(bib.n_items(), 1);
}
