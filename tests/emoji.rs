use slack_emoji::emoji::{
    Emoji, EmojiCollection, EmojiExistenceKind, EmojiPager, EmojiStreamParameters, Timestamp,
    DEFAULT_NUM_EMOJIS_PER_PAGE, DEFAULT_STARTING_PAGE,
};

fn emoji(name: &str, alias_for: &str) -> Emoji {
    Emoji {
        name: name.to_string(),
        url: format!("https://e.example/T/{}/x.png", name),
        added_by: "someone".to_string(),
        alias_for: alias_for.to_string(),
        created: Timestamp { secs: 0, nanos: 0 },
    }
}

/// Drives a pager against a remote that reports `total` pages and returns
/// the pages fetched and the names handed on.
fn run(params: Option<EmojiStreamParameters>, total: u16) -> (Vec<u16>, Vec<String>) {
    let mut pager = EmojiPager::new(params);
    let mut fetched = Vec::new();
    let mut names = Vec::new();
    while let Some(page) = pager.next_request() {
        fetched.push(page);
        let records = if page <= total { vec![emoji(&format!("p{}", page), "")] } else { Vec::new() };
        for e in pager.accept_page(records, total) {
            names.push(e.name);
        }
    }
    (fetched, names)
}

#[test]
fn single_page_remote_yields_page_one_and_stops() {
    let (fetched, names) = run(None, 1);
    assert_eq!(fetched, vec![1]);
    assert_eq!(names, vec!["p1".to_string()]);
}

#[test]
fn zero_page_remote_yields_nothing() {
    let (fetched, names) = run(None, 0);
    assert_eq!(fetched, vec![1]);
    assert!(names.is_empty());
}

#[test]
fn zero_pages_drop_records_sent_anyway() {
    let mut pager = EmojiPager::new(None);
    assert_eq!(pager.next_request(), Some(1));
    let out = pager.accept_page(vec![emoji("stray", "")], 0);
    assert!(out.is_empty());
    assert_eq!(pager.next_request(), None);
}

#[test]
fn zero_page_remote_from_page_zero_yields_nothing() {
    let mut pager = EmojiPager::new(Some(EmojiStreamParameters::new(0, 10, None)));
    assert_eq!(pager.next_request(), Some(0));
    assert!(pager.accept_page(vec![emoji("stray", "")], 0).is_empty());
    assert_eq!(pager.next_request(), None);
}

#[test]
fn start_beyond_total_still_yields_the_fetched_page() {
    let mut pager = EmojiPager::new(Some(EmojiStreamParameters::new(5, 10, None)));
    assert_eq!(pager.next_request(), Some(5));
    let out = pager.accept_page(vec![emoji("late", "")], 3);
    assert_eq!(out.len(), 1);
    assert_eq!(out[0].name, "late");
    assert_eq!(pager.next_request(), None);
}

#[test]
fn page_limit_caps_fetches() {
    let (fetched, names) = run(Some(EmojiStreamParameters::new(1, 100, Some(2))), 10);
    assert_eq!(fetched, vec![1, 2]);
    assert_eq!(names.len(), 2);
}

#[test]
fn starting_page_is_honoured() {
    let (fetched, _) = run(Some(EmojiStreamParameters::new(3, 10, None)), 5);
    assert_eq!(fetched, vec![3, 4, 5]);
}

#[test]
fn zero_limit_fetches_nothing() {
    let (fetched, _) = run(Some(EmojiStreamParameters::new(1, 10, Some(0))), 5);
    assert!(fetched.is_empty());
}

#[test]
fn largest_page_count_terminates() {
    let (fetched, _) = run(Some(EmojiStreamParameters::new(65534, 10, None)), 65535);
    assert_eq!(fetched, vec![65534, 65535]);
}

#[test]
fn failure_ends_enumeration() {
    let mut pager = EmojiPager::new(None);
    assert_eq!(pager.next_request(), Some(1));
    pager.fail();
    assert_eq!(pager.next_request(), None);
}

#[test]
fn default_parameters() {
    let p = EmojiStreamParameters::default();
    assert_eq!(p.starting_page_number, DEFAULT_STARTING_PAGE);
    assert_eq!(p.num_emojis_per_page, DEFAULT_NUM_EMOJIS_PER_PAGE);
    assert_eq!(p.limit_num_pages, None);
    assert_eq!(EmojiPager::new(None).page_size(), 100);
}

#[test]
fn existence_status_distinguishes_aliases() {
    let mut c = EmojiCollection::new();
    assert!(c.insert(emoji("a", "")).is_none());
    assert!(c.insert(emoji("b", "a")).is_none());
    assert!(matches!(c.get_existence_status("a"), EmojiExistenceKind::Exists));
    match c.get_existence_status("b") {
        EmojiExistenceKind::ExistsAsAliasFor(t) => assert_eq!(t, "a"),
        _ => panic!("expected an alias"),
    }
    assert!(matches!(c.get_existence_status("c"), EmojiExistenceKind::DoesNotExist));
}

#[test]
fn insert_replaces_same_name() {
    let mut c = EmojiCollection::from_emojis(vec![emoji("a", "")]);
    let old = c.insert(emoji("a", "z")).unwrap();
    assert_eq!(old.alias_for, "");
    match c.get_existence_status("a") {
        EmojiExistenceKind::ExistsAsAliasFor(t) => assert_eq!(t, "z"),
        _ => panic!("expected the newer record"),
    }
}
