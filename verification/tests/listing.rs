use imfile::DirEntry;
use imfile::entry::entry_le_exec;
use imfile::entry::is_hidden_exec;
use imfile::entry::lex_le_exec;
use imfile::listing::visible_entries;
use imfile::sort::sort_entries;

fn entry(name: &str, is_dir: bool) -> DirEntry {
    DirEntry { name: String::from(name), is_dir }
}

fn names(entries: &[DirEntry]) -> Vec<String> {
    entries.iter().map(|e| e.name.clone()).collect()
}

#[test]
fn lex_order_basics() {
    assert!(lex_le_exec("", "a"));
    assert!(lex_le_exec("", ""));
    assert!(!lex_le_exec("a", ""));
    assert!(lex_le_exec("a", "b"));
    assert!(!lex_le_exec("b", "a"));
    assert!(lex_le_exec("abc", "abd"));
    assert!(lex_le_exec("ab", "abc"));
    assert!(!lex_le_exec("abc", "ab"));
    assert!(lex_le_exec(".hidden", "b.txt"));
    assert!(lex_le_exec("A", "a"));
    assert!(lex_le_exec("same", "same"));
}

#[test]
fn entry_order_dirs_before_files() {
    let d = entry("zzz", true);
    let f = entry("aaa", false);
    assert!(entry_le_exec(&d, &f));
    assert!(!entry_le_exec(&f, &d));
    let d2 = entry("aaa", true);
    assert!(entry_le_exec(&d2, &d));
    assert!(!entry_le_exec(&d, &d2));
}

#[test]
fn hidden_names() {
    assert!(is_hidden_exec(".hidden"));
    assert!(is_hidden_exec("."));
    assert!(!is_hidden_exec("visible"));
    assert!(!is_hidden_exec(""));
    assert!(!is_hidden_exec("not.hidden"));
}

#[test]
fn filter_hides_dot_names() {
    let listing = vec![entry("b.txt", false), entry("A", true), entry(".hidden", false)];
    let shown = visible_entries(&listing, false);
    assert_eq!(names(&shown), vec!["b.txt".to_string(), "A".to_string()]);
    let all = visible_entries(&listing, true);
    assert_eq!(
        names(&all),
        vec!["b.txt".to_string(), "A".to_string(), ".hidden".to_string()]
    );
}

#[test]
fn filter_superset_when_hidden_shown() {
    let listing = vec![
        entry(".a", false),
        entry("b", false),
        entry(".c", true),
        entry("d", true),
    ];
    let hidden_off = visible_entries(&listing, false);
    let hidden_on = visible_entries(&listing, true);
    for e in &hidden_off {
        assert!(hidden_on.iter().any(|x| x == e));
    }
    assert_eq!(hidden_off.len(), 2);
    assert_eq!(hidden_on.len(), 4);
}

#[test]
fn sort_partitions_dirs_before_files() {
    let listing = vec![
        entry("zeta", false),
        entry("beta", true),
        entry("alpha", false),
        entry("delta", true),
    ];
    let sorted = sort_entries(listing);
    assert_eq!(
        names(&sorted),
        vec![
            "beta".to_string(),
            "delta".to_string(),
            "alpha".to_string(),
            "zeta".to_string()
        ]
    );
    assert!(sorted[0].is_dir && sorted[1].is_dir);
    assert!(!sorted[2].is_dir && !sorted[3].is_dir);
}

#[test]
fn sort_is_deterministic() {
    let make = || {
        vec![
            entry("c", false),
            entry("a", true),
            entry("b", false),
            entry("a", false),
        ]
    };
    let first = sort_entries(make());
    let second = sort_entries(make());
    assert_eq!(names(&first), names(&second));
    assert_eq!(
        names(&first),
        vec!["a".to_string(), "a".to_string(), "b".to_string(), "c".to_string()]
    );
}

#[test]
fn example_listing_order() {
    let listing = vec![entry("b.txt", false), entry("A", true), entry(".hidden", false)];
    let shown = sort_entries(visible_entries(&listing, false));
    assert_eq!(names(&shown), vec!["A".to_string(), "b.txt".to_string()]);
    assert!(shown[0].is_dir);
    assert!(!shown[1].is_dir);

    let listing = vec![entry("b.txt", false), entry("A", true), entry(".hidden", false)];
    let all = sort_entries(visible_entries(&listing, true));
    assert_eq!(
        names(&all),
        vec!["A".to_string(), ".hidden".to_string(), "b.txt".to_string()]
    );
}
