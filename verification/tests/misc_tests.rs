use citations::citation::{template, use_book_format, Template, AMS_ARTICLE_TEMPLATE, AMS_BOOK_TEMPLATE};
use citations::entry::Entry;
use citations::entry_page::{
    is_eprint_field, key_change_allowed, new_entry_bibtex, other_entry_type_row, pretty_author,
    pretty_text, pretty_title,
};
use citations::entry_type::EntryType;
use citations::bib::Bib;
use citations::selection::{EntryList, Selection, INVALID_LIST_POSITION};
use citations::text::normalize_whitespace;
use citations::utils::{
    add_recent_file, bibliography_path_string, build_arxiv_url, build_google_schoolar_url,
    doi_query, doi_url, eprint_url, generate_key, open_action_name, pdf_filename,
    label_is_fixed_exec, recent_file_subtitle, rekey_bibtex, remove_recent_file, sanitize_key,
    translated_key,
};
use citations::window::{NewEntryOutcome, Window};

#[test]
fn test_generate_key() {
    assert_eq!(generate_key("a", "1", "1234567"), "a1123456");
    assert_eq!(generate_key("a, b", "1", "12345678"), "a1123456");
    assert_eq!(generate_key("a, b, c", "1", "1234569"), "a1123456");
    assert_eq!(generate_key("A, b, c", "1", "1234569"), "a1123456");
    assert_eq!(generate_key("A, b, c", "1", "z"), "a1z");
}

#[test]
fn test_sanitize_key() {
    assert_eq!(sanitize_key("a b'"), "a_b_");
}

#[test]
fn sanitize_key_is_idempotent() {
    let once = sanitize_key("x{y}(z),\"'=#%\\");
    assert_eq!(once, "x_y__z________");
    assert_eq!(sanitize_key(&once), once);
}

#[test]
fn entry_type_names_round_trip() {
    for i in 0..16 {
        let t = EntryType::from_i32(i);
        assert_eq!(t.to_i32(), i);
        assert_eq!(EntryType::from_name(&t.to_string()), t);
    }
    assert_eq!(EntryType::from_i32(99), EntryType::Other);
    assert_eq!(EntryType::from_name("InProceedings"), EntryType::InProceedings);
    assert_eq!(EntryType::from_name("ARTICLE"), EntryType::Article);
    assert_eq!(EntryType::from_name("thesis"), EntryType::Other);
    assert_eq!(EntryType::default(), EntryType::Other);
}

#[test]
fn entry_type_properties() {
    assert!(EntryType::Article.uses_abstract());
    assert!(!EntryType::Book.uses_abstract());
    assert!(EntryType::Book.uses_book_format());
    assert!(!EntryType::Article.uses_book_format());
    assert_eq!(EntryType::Manual.fields(), vec!["organization", "address"]);
    assert!(EntryType::Other.fields().is_empty());
    for i in 0..16 {
        for field in EntryType::from_i32(i).fields() {
            let _ = translated_key(&field);
        }
    }
    assert_eq!(translated_key("issn"), "ISSN");
    assert_eq!(translated_key("url"), "url");
}

#[test]
fn pdf_names() {
    assert_eq!(pdf_filename("key"), "key.pdf");
    assert_eq!(pdf_filename("a/b:c"), "abc.pdf");
}

#[test]
fn links() {
    assert!(eprint_url("").is_err());
    assert_eq!(eprint_url("2101.00001").unwrap(), "https://arxiv.org/abs/2101.00001");
    assert_eq!(
        eprint_url("arxiv.org/abs/2101.00001").unwrap(),
        "https://arxiv.org/abs/2101.00001"
    );
    assert_eq!(eprint_url("https://example.org/x").unwrap(), "https://example.org/x");
    assert_eq!(doi_url("10.1000/xyz").unwrap(), "https://doi.org/10.1000/xyz");
    assert_eq!(doi_url("doi.org/10.1000/xyz").unwrap(), "https://doi.org/10.1000/xyz");
    assert_eq!(
        doi_url("").unwrap_err().message(),
        "String is empty"
    );
    assert!(doi_url("http://").is_err());
    assert_eq!(doi_query("https://doi.org/10.1/a"), "10.1/a");
    let scholar = build_google_schoolar_url("x and y", "T").unwrap();
    assert!(scholar.starts_with("https://scholar.google.com/scholar?q=x,%20and%20y%20T&"));
    let arxiv = build_arxiv_url("x", "T").unwrap();
    assert!(arxiv.starts_with("https://arxiv.org/search/advanced?advanced=&terms-0-operator=AND&terms-0-term=T&"));
}

#[test]
fn rekey_fetched_bibtex() {
    let data = "@article{Some2020, author = {Lamport, Leslie}, year = {1991}, title = {LaTeX A Document}}";
    let out = rekey_bibtex(data).unwrap();
    assert!(out.starts_with("@article{lamport1991LaTeX_,\n"));
    assert!(rekey_bibtex("").is_err());
}

#[test]
fn recent_files() {
    let files = vec!["/a".to_string(), "/b".to_string(), "/a".to_string()];
    assert_eq!(remove_recent_file(&files, "/a"), vec!["/b".to_string()]);
    assert_eq!(add_recent_file(&files, "/b"), files);
    assert_eq!(add_recent_file(&files, "/c").len(), 4);
    assert_eq!(recent_file_subtitle("/run/user/1000/doc/x.bib"), None);
    assert_eq!(recent_file_subtitle("/home/x.bib"), Some("/home/x.bib".to_string()));
    assert_eq!(open_action_name("/x.bib"), "win.open::/x.bib");
    assert_eq!(
        bibliography_path_string(Some("/home/u/Documents/Bibliography"), "/home/u"),
        "~/Documents/Bibliography"
    );
    assert_eq!(bibliography_path_string(None, "/home/u"), "~/Documents/Bibliography");
}

#[test]
fn templates() {
    assert_eq!(template(Template::Ams, false, "c"), AMS_ARTICLE_TEMPLATE);
    assert_eq!(template(Template::Ams, true, "c"), AMS_BOOK_TEMPLATE);
    assert_eq!(template(Template::Custom, true, "c"), "c");
    assert!(use_book_format(Some(EntryType::InBook)));
    assert!(!use_book_format(None));
    for i in 0..7 {
        assert_eq!(Template::from_i32(i).to_i32(), i);
    }
    assert_eq!(Template::from_i32(-1), Template::Mla);
    assert_eq!(Template::Apa.to_translatable_string(), "APA");
}

#[test]
fn entry_page_helpers() {
    assert_eq!(pretty_text("", "none"), "<i>none</i>");
    assert_eq!(pretty_text(r"{\o}", "none"), "\u{f8}");
    assert_eq!(normalize_whitespace("  a \t b\n c "), "a b c");
    assert!(is_eprint_field("ePrint"));
    assert!(!is_eprint_field("url"));
    assert_eq!(new_entry_bibtex("key", 2), "@book{key,}");
    let mut e = Entry::new("k", EntryType::Other);
    assert_eq!(other_entry_type_row(&e), (true, "other".to_string()));
    e.set_other_entry_type("thesis");
    assert_eq!(other_entry_type_row(&e), (true, "thesis".to_string()));
    e.set_entry_type(EntryType::Book);
    assert_eq!(other_entry_type_row(&e), (false, String::new()));
    let mut bib = Bib::default();
    bib.add_entry(Entry::new("a", EntryType::Book));
    bib.add_entry(Entry::new("b", EntryType::Book));
    assert!(key_change_allowed(&bib, "a", "a"));
    assert!(key_change_allowed(&bib, "a", "c"));
    assert!(!key_change_allowed(&bib, "a", "b"));
}

#[test]
fn selection_follows_its_item() {
    let model = vec![10, 20, 30];
    let mut sel = Selection::new();
    assert_eq!(sel.set_selected_position(&model, 1), Some((1, 1)));
    assert!(sel.is_selected(1));
    assert!(!sel.is_selected(0));
    let model2 = vec![5, 6, 10, 20, 30];
    sel.model_items_changed(&model2, 0, 0, 2);
    assert_eq!(sel.selected_item_pos(), 3);
    let model3 = vec![5, 6, 10, 30];
    sel.model_items_changed(&model3, 3, 1, 0);
    assert_eq!(sel.selected_item_pos(), INVALID_LIST_POSITION);
    let model4 = vec![5, 6, 10, 20, 30];
    sel.model_items_changed(&model4, 3, 0, 1);
    assert_eq!(sel.selected_item_pos(), 3);
    assert_eq!(sel.set_hide_selection(true), (true, Some(3)));
    assert!(!sel.is_selected(3));
    assert_eq!(sel.selection_in_range(), None);
    assert_eq!(sel.set_selected_item(&model4, Some(5)), None);
    assert_eq!(sel.selected_item_pos(), 0);
}

#[test]
fn navigation() {
    let model = vec![1, 2, 3];
    let mut list = EntryList::new();
    assert_eq!(list.navigate_next(&model), Some(0));
    assert_eq!(list.navigate_next(&model), Some(1));
    assert_eq!(list.navigate_next(&model), Some(2));
    assert_eq!(list.navigate_next(&model), None);
    assert_eq!(list.navigate_previous(&model), Some(1));
    list.unselect(&model);
    assert_eq!(list.navigate_previous(&model), Some(2));
    list.hide_selection();
    assert!(list.selection.hide_selection);
    list.show_selection();
    assert_eq!(list.set_selected(&model, 0), 0);
    assert!(list.selection.is_selected(0));
}

#[test]
fn window_flow() {
    let mut w = Window::new();
    assert!(!w.actions_enabled());
    let files = vec!["/a.bib".to_string()];
    assert_eq!(
        w.open("@book{k, title = {T}}", &files, Some("/b.bib")).unwrap(),
        vec!["/a.bib".to_string(), "/b.bib".to_string()]
    );
    assert!(w.actions_enabled());
    assert!(!w.close_request());
    assert_eq!(
        w.new_entry("@misc{n, year = {1}}").unwrap(),
        NewEntryOutcome::Added(1)
    );
    assert_eq!(
        w.new_entry("@misc{n, year = {2}}").unwrap(),
        NewEntryOutcome::KeyExists
    );
    assert!(w.new_entry("").is_err());
    assert!(w.close_request());
    let before = w.save();
    let k = w.bib.as_ref().unwrap().item(0).unwrap();
    assert_eq!(w.delete_entry(&k), Some(0));
    assert_eq!(w.bib.as_ref().unwrap().n_items(), 1);
    w.undo_delete();
    assert_eq!(w.save(), before);
    w.mark_saved();
    assert!(!w.close_request());
    assert!(w.search_google_schoolar_entry(None).is_err());
    assert!(w.search_arxiv_entry(Some(&k)).is_ok());
    w.bib.as_mut().unwrap().set_tag(0, "title", "X");
    w.force_close();
    assert!(!w.close_request());
}

#[test]
fn window_open_failure_keeps_nothing_open() {
    let mut w = Window::new();
    assert!(w.open("@book{k, title = {T}", &Vec::new(), Some("/a.bib")).is_err());
    assert!(w.bib.is_none());
    assert!(!w.actions_enabled());
}

#[test]
fn window_open_keeps_a_known_recent_file_once() {
    let mut w = Window::new();
    let files = vec!["/a.bib".to_string(), "/b.bib".to_string()];
    assert_eq!(w.open("@book{k, title = {T}}", &files, Some("/a.bib")).unwrap(), files);
}

#[test]
fn window_open_without_path_keeps_recent_files() {
    let mut w = Window::new();
    let files = vec!["/a.bib".to_string()];
    assert_eq!(w.open("", &files, None).unwrap(), files);
}

#[test]
fn field_lists_are_distinct_lowercase_and_labelled() {
    let shown_apart = ["author", "title", "year", "doi", "abstract", "notes"];
    for i in 0..16 {
        let fields = EntryType::from_i32(i).fields();
        for (a, f) in fields.iter().enumerate() {
            assert!(!f.is_empty() && f.chars().all(|c| c.is_ascii_lowercase()));
            assert!(!shown_apart.contains(&f.as_str()));
            assert!(!translated_key(f).is_empty());
            assert!(fields[a + 1..].iter().all(|g| g != f));
        }
    }
}

#[test]
fn navigation_selects_the_item_at_the_new_position() {
    let model = vec![7, 8, 9];
    let mut list = EntryList::new();
    list.hide_selection();
    assert_eq!(list.navigate_next(&model), Some(0));
    assert_eq!(list.selection.item, Some(7));
    assert!(list.selection.hide_selection);
    assert_eq!(list.navigate_next(&model), Some(1));
    assert_eq!(list.selection.item, Some(8));
    assert_eq!(list.navigate_previous(&model), Some(0));
    assert_eq!(list.selection.item, Some(7));
}

#[test]
fn items_changed_leaves_a_stale_position_without_item() {
    let mut sel = Selection { item: None, item_position: 5, hide_selection: false };
    sel.model_items_changed(&vec![1, 2], 0, 0, 2);
    assert_eq!(sel.selected_item_pos(), 5);
    assert_eq!(sel.selected_item(), None);
}

#[test]
fn labels_are_message_ids() {
    assert_eq!(EntryType::PhdThesis.to_translatable_string(), "PhD Thesis");
    assert_eq!(Template::Chicago.to_translatable_string(), "Chicago");
    assert_eq!(Template::Custom.menu_name(), "Custom\u{2026}");
    assert_eq!(Template::Mla.menu_name(), "MLA");
    assert_eq!(translated_key("booktitle"), "Book Title");
    assert!(label_is_fixed_exec("isbn"));
    assert!(!label_is_fixed_exec("note"));
    assert_eq!(pretty_author(""), "<i>Author not set</i>");
    assert_eq!(pretty_title("{T}itle"), "Title");
}

#[test]
fn entry_type_names_read_back_in_any_case() {
    for i in 0..16 {
        let t = EntryType::from_i32(i);
        assert_eq!(EntryType::from_name(&t.to_string().to_uppercase()), t);
    }
    assert_eq!(EntryType::from_name("thesis"), EntryType::Other);
    assert_eq!(EntryType::from_i32(16), EntryType::Other);
    assert_eq!(EntryType::from_i32(-1), EntryType::Other);
}

#[test]
fn first_entry_agrees_with_parsing_the_whole_text() {
    let text = "@book{a, title = {T}}\n@misc{b, year = {1}}\n";
    let mut bib = Bib::default();
    bib.parse(text).unwrap();
    let first = Entry::from_bibtex(text).unwrap();
    let b0 = bib.item(0).unwrap();
    assert_eq!(first.citation_key(), b0.citation_key());
    assert_eq!(first.entry_type(), b0.entry_type());
    assert_eq!(first.get("title"), b0.get("title"));
    assert!(Entry::from_bibtex("").is_err());
}
