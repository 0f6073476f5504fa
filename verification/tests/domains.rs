use domainhdlr::domains::{add_domain, add_message, contains_domain, delete_domain, delete_message, domain_line_text, list_domains};
use domainhdlr::entry::Entry;

fn entry(name: &str, activated: bool, txt: Option<&str>) -> Entry {
    Entry {
        name: name.to_string(),
        token: format!("tok-{}", name),
        activated,
        txt: txt.map(|t| t.to_string()),
    }
}

fn names(entries: &Vec<Entry>) -> Vec<String> {
    entries.iter().map(|e| e.name.clone()).collect()
}

#[test]
fn add_appends_with_default_activation() {
    let mut entries = vec![entry("a", false, None)];
    let added = add_domain(&mut entries, &"b".to_string(), &"secret".to_string(), None, None);
    assert!(added);
    assert_eq!(names(&entries), vec!["a", "b"]);
    assert_eq!(entries[1].token, "secret");
    assert!(entries[1].activated);
    assert_eq!(entries[1].txt, None);
}

#[test]
fn add_keeps_requested_activation_and_txt() {
    let mut entries = Vec::new();
    let added = add_domain(&mut entries, &"x".to_string(), &"t".to_string(), Some(false), Some("hello".to_string()));
    assert!(added);
    assert!(!entries[0].activated);
    assert_eq!(entries[0].txt.as_deref(), Some("hello"));
}

#[test]
fn add_refuses_existing_name() {
    let mut entries = vec![entry("a", true, None), entry("b", true, None)];
    let added = add_domain(&mut entries, &"b".to_string(), &"other".to_string(), Some(false), None);
    assert!(!added);
    assert_eq!(names(&entries), vec!["a", "b"]);
    assert_eq!(entries[1].token, "tok-b");
    assert!(entries[1].activated);
}

#[test]
fn add_twice_second_refused() {
    let mut entries = Vec::new();
    assert!(add_domain(&mut entries, &"d".to_string(), &"t".to_string(), None, None));
    assert!(!add_domain(&mut entries, &"d".to_string(), &"t".to_string(), None, None));
    assert_eq!(entries.len(), 1);
}

#[test]
fn delete_removes_every_entry_of_the_name() {
    let mut entries = vec![entry("a", true, None), entry("b", true, None), entry("a", false, None), entry("c", true, None)];
    let deleted = delete_domain(&mut entries, &"a".to_string());
    assert!(deleted);
    assert_eq!(names(&entries), vec!["b", "c"]);
}

#[test]
fn delete_missing_name_reports_not_found() {
    let mut entries = vec![entry("a", true, None)];
    let deleted = delete_domain(&mut entries, &"zzz".to_string());
    assert!(!deleted);
    assert_eq!(names(&entries), vec!["a"]);
}

#[test]
fn delete_on_empty_list() {
    let mut entries: Vec<Entry> = Vec::new();
    assert!(!delete_domain(&mut entries, &"a".to_string()));
    assert!(entries.is_empty());
}

#[test]
fn delete_undoes_add_concrete() {
    let mut entries = vec![entry("a", true, None), entry("b", false, Some("x"))];
    assert!(add_domain(&mut entries, &"new".to_string(), &"t".to_string(), None, None));
    assert!(delete_domain(&mut entries, &"new".to_string()));
    assert_eq!(names(&entries), vec!["a", "b"]);
    assert_eq!(entries[1].txt.as_deref(), Some("x"));
}

#[test]
fn delete_twice_is_delete_once() {
    let mut entries = vec![entry("a", true, None), entry("b", true, None)];
    assert!(delete_domain(&mut entries, &"a".to_string()));
    assert!(!delete_domain(&mut entries, &"a".to_string()));
    assert_eq!(names(&entries), vec!["b"]);
}

#[test]
fn names_stay_unique() {
    let mut entries = Vec::new();
    for n in ["a", "b", "a", "c", "b"] {
        add_domain(&mut entries, &n.to_string(), &"t".to_string(), None, None);
    }
    assert_eq!(names(&entries), vec!["a", "b", "c"]);
    delete_domain(&mut entries, &"b".to_string());
    assert_eq!(names(&entries), vec!["a", "c"]);
}

#[test]
fn contains_domain_finds_names() {
    let entries = vec![entry("a", true, None), entry("b", true, None)];
    assert!(contains_domain(&entries, &"b".to_string()));
    assert!(!contains_domain(&entries, &"B".to_string()));
}

#[test]
fn listing_lines() {
    let entries = vec![entry("home.duckdns.org", true, None), entry("lab", false, Some("v=1"))];
    let lines = list_domains(&entries);
    assert_eq!(
        lines,
        vec![
            "- home.duckdns.org (active: true, txt: None)".to_string(),
            "- lab (active: false, txt: v=1)".to_string(),
        ]
    );
    assert_eq!(domain_line_text(&entries[1]), "- lab (active: false, txt: v=1)");
    assert!(list_domains(&Vec::new()).is_empty());
}

#[test]
fn messages() {
    assert_eq!(add_message("a.org", true), "Domain 'a.org' added.");
    assert_eq!(
        add_message("a.org", false),
        "Domain 'a.org' already exists. Use delete first if you want to replace it."
    );
    assert_eq!(delete_message("a.org", true), "Domain 'a.org' deleted.");
    assert_eq!(delete_message("a.org", false), "Domain 'a.org' not found.");
}

#[test]
fn entry_display_text() {
    assert_eq!(entry("a", true, Some("t")).to_display_string(), "Name: a, Activated:true, txt: t \n");
    assert_eq!(entry("a", false, None).to_display_string(), "Name: a, Activated:false, txt:  \n");
}

#[test]
fn entry_clone_keeps_fields() {
    let e = entry("c.org", false, Some("v"));
    let c = e.clone();
    assert_eq!(c.name, "c.org");
    assert_eq!(c.token, "tok-c.org");
    assert!(!c.activated);
    assert_eq!(c.txt.as_deref(), Some("v"));
}
