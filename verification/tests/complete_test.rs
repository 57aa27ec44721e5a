use scribe::cli::complete::{first_chars, parse_entity, run_complete, slug_candidates, sort_candidates, CompleteEntity};
use scribe::ops::projects::new_project;
use scribe::ops::ProjectOps;
use scribe::ops::{InboxOps, TodoOps};
use scribe::store::Store;

#[test]
fn parse_entity_ignores_case() {
    assert_eq!(parse_entity("Projects").unwrap(), CompleteEntity::Projects);
    assert_eq!(parse_entity("entries").unwrap(), CompleteEntity::Entries);
    let e = parse_entity("widgets").unwrap_err();
    assert_eq!(
        e.to_string(),
        "unknown entity 'widgets'; valid values: projects, tasks, todos, reminders, captures, entries"
    );
}

#[test]
fn sort_candidates_orders_by_slug() {
    let v = vec![
        ("b".to_owned(), "2".to_owned()),
        ("a".to_owned(), "1".to_owned()),
        ("ab".to_owned(), "3".to_owned()),
        ("a".to_owned(), "4".to_owned()),
    ];
    let s = sort_candidates(v);
    let slugs: Vec<&str> = s.iter().map(|p| p.0.as_str()).collect();
    assert_eq!(slugs, vec!["a", "a", "ab", "b"]);
    assert_eq!(s[0].1, "1");
    assert_eq!(s[1].1, "4");
}

#[test]
fn first_chars_counts_characters() {
    assert_eq!(first_chars("héllo", 2), "hé");
    assert_eq!(first_chars("abc", 10), "abc");
}

#[test]
fn complete_lists_open_items() {
    let mut store = Store::new(1_700_000_000);
    let todos = TodoOps::new();
    let a = todos.create(&mut store, "quick-capture", "Zeta").expect("todo");
    let b = todos.create(&mut store, "quick-capture", "Alpha").expect("todo");
    todos.mark_done(&mut store, &a.slug).expect("done");
    let c = run_complete(&store, CompleteEntity::Todos);
    assert_eq!(c.len(), 1);
    assert_eq!(c[0].0, b.slug);
    assert_eq!(c[0].1, "Alpha");
    let p = run_complete(&store, CompleteEntity::Projects);
    assert_eq!(p, vec![("quick-capture".to_owned(), "Quick Capture".to_owned())]);
    let long = "x".repeat(80);
    InboxOps::new().capture(&mut store, &long).expect("capture");
    let caps = run_complete(&store, CompleteEntity::Captures);
    assert_eq!(caps[0].1.chars().count(), 60);
}

#[test]
fn slug_candidates_match_prefix_without_case() {
    let mut store = Store::new(1_700_000_000);
    let projects = ProjectOps::new();
    projects.create_project(&mut store, new_project("payments")).expect("p");
    projects.create_project(&mut store, new_project("payroll")).expect("p");
    projects.create_project(&mut store, new_project("home")).expect("p");
    let found = slug_candidates(&store, CompleteEntity::Projects, "PAY");
    let slugs: Vec<&str> = found.iter().map(|p| p.0.as_str()).collect();
    assert_eq!(slugs, vec!["payments", "payroll"]);
    assert!(slug_candidates(&store, CompleteEntity::Projects, "zzz").is_empty());
    assert_eq!(slug_candidates(&store, CompleteEntity::Projects, "").len(), 4);
}
