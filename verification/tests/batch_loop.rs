use fetchlist::batch::fetch_and_save;
use fetchlist::batch::run_batch;
use fetchlist::batch::Directory;
use fetchlist::batch::FetchResult;
use fetchlist::batch::Outcome;
use fetchlist::config::parse_configs;
use fetchlist::config::Config;

fn entry(title: &str, url: &str) -> Config {
    Config { title: title.to_string(), url: url.to_string() }
}

#[test]
fn directory_write_and_read_back() {
    let mut dir = Directory::new();
    assert!(dir.read(&"a.txt".to_string()).is_none());
    dir.write("a.txt".to_string(), vec![1, 2, 3]);
    assert_eq!(*dir.read(&"a.txt".to_string()).unwrap(), vec![1, 2, 3]);
    assert!(dir.read(&"b.txt".to_string()).is_none());
}

#[test]
fn second_save_under_same_title_overwrites_the_first() {
    let mut dir = Directory::new();
    let first = entry("A", "http://example/one");
    let second = entry("A", "http://example/two");
    let o1 = fetch_and_save(&mut dir, &first, FetchResult::Body(vec![1, 1, 1]));
    let o2 = fetch_and_save(&mut dir, &second, FetchResult::Body(vec![2, 2]));
    assert!(matches!(o1, Outcome::Saved(ref n) if n == "A.txt"));
    assert!(matches!(o2, Outcome::Saved(ref n) if n == "A.txt"));
    assert_eq!(*dir.read(&"A.txt".to_string()).unwrap(), vec![2, 2]);
}

#[test]
fn failed_fetch_leaves_directory_unchanged() {
    let mut dir = Directory::new();
    dir.write("old.txt".to_string(), vec![9]);
    let c = entry("old", "http://example/x");
    let o = fetch_and_save(&mut dir, &c, FetchResult::Failed("connection refused".to_string()));
    assert!(matches!(o, Outcome::Failed(ref m) if m == "connection refused"));
    assert_eq!(*dir.read(&"old.txt".to_string()).unwrap(), vec![9]);
}

#[test]
fn middle_failure_does_not_stop_the_batch() {
    let mut dir = Directory::new();
    let configs = vec![
        entry("One", "http://example/1"),
        entry("Two", "http://example/2"),
        entry("Three", "http://example/3"),
    ];
    let fetches = vec![
        FetchResult::Body(vec![1]),
        FetchResult::Failed("timed out".to_string()),
        FetchResult::Body(vec![3]),
    ];
    let outcomes = run_batch(&mut dir, &configs, fetches);
    assert_eq!(outcomes.len(), 3);
    assert!(matches!(outcomes[0], Outcome::Saved(ref n) if n == "One.txt"));
    assert!(matches!(outcomes[1], Outcome::Failed(ref m) if m == "timed out"));
    assert!(matches!(outcomes[2], Outcome::Saved(ref n) if n == "Three.txt"));
    assert_eq!(*dir.read(&"One.txt".to_string()).unwrap(), vec![1]);
    assert!(dir.read(&"Two.txt".to_string()).is_none());
    assert_eq!(*dir.read(&"Three.txt".to_string()).unwrap(), vec![3]);
}

#[test]
fn end_to_end_single_entry() {
    let text = r#"[{"title":"Doc One","url":"http://example/a"}]"#;
    let configs = parse_configs(text).unwrap();
    assert_eq!(configs.len(), 1);
    assert_eq!(configs[0].url, "http://example/a");
    let mut dir = Directory::new();
    let outcomes = run_batch(&mut dir, &configs, vec![FetchResult::Body(b"hello".to_vec())]);
    assert!(matches!(outcomes[0], Outcome::Saved(ref n) if n == "Doc_One.txt"));
    assert_eq!(*dir.read(&"Doc_One.txt".to_string()).unwrap(), b"hello".to_vec());
}

#[test]
fn duplicate_titles_in_one_batch_keep_the_last_body() {
    let mut dir = Directory::new();
    let configs = vec![entry("A", "http://example/one"), entry("A", "http://example/two")];
    let fetches = vec![FetchResult::Body(vec![1]), FetchResult::Body(vec![2])];
    let outcomes = run_batch(&mut dir, &configs, fetches);
    assert_eq!(outcomes.len(), 2);
    assert_eq!(*dir.read(&"A.txt".to_string()).unwrap(), vec![2]);
}
