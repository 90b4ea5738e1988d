use slack_emoji::actions::{plan_download, DownloadDecision};
use slack_emoji::archive::{EmojiDirectory, EmojiFile, KnownNames};
use slack_emoji::emoji::{Emoji, Timestamp};
use slack_emoji::error::SyncError;

fn emoji(name: &str, url: &str) -> Emoji {
    Emoji {
        name: name.to_string(),
        url: url.to_string(),
        added_by: "someone".to_string(),
        alias_for: String::new(),
        created: Timestamp { secs: 1595443479, nanos: 0 },
    }
}

#[test]
fn test_generate_filename_from_url() {
    assert_eq!(
        EmojiFile::generate_filename_from_url("https://sub.slack.com/T03C6/zuck/6f285f21ac5f972b.png"),
        String::from("zuck-6f285f21ac5f972b.png")
    );
}

#[test]
fn filename_with_a_single_slash() {
    assert_eq!(EmojiFile::generate_filename_from_url("dir/file.png"), "dir-file.png");
}

#[test]
fn from_emoji_refuses_url_without_slash() {
    let r = EmojiFile::from_emoji(emoji("x", "no-slash-here"));
    assert!(matches!(r, Err(SyncError::Decode(_))));
}

#[test]
fn from_emoji_derives_filename() {
    let f = EmojiFile::from_emoji(emoji("zuck", "https://e.example/T03/zuck/abc.png")).ok().unwrap();
    assert_eq!(f.filename, "zuck-abc.png");
    assert_eq!(f.emoji.name, "zuck");
}

#[test]
fn inner_paths_join_with_one_separator() {
    let d = EmojiDirectory::new("emojis");
    assert_eq!(d.get_inner_filepath("a.png"), "emojis/a.png");
    assert_eq!(d.get_metadata_filepath(), "emojis/metadata.ndjson");
    let d2 = EmojiDirectory::new("emojis/");
    assert_eq!(d2.get_inner_filepath("a.png"), "emojis/a.png");
    let d3 = EmojiDirectory::new("");
    assert_eq!(d3.get_inner_filepath("a.png"), "a.png");
    assert_eq!(d.get_inner_filepath("/abs/a.png"), "/abs/a.png");
}

#[test]
fn emoji_filepath_uses_derived_filename() {
    let d = EmojiDirectory::new("/tmp/arch");
    let f = EmojiFile::from_emoji(emoji("zuck", "https://e.example/T03/zuck/abc.png")).ok().unwrap();
    assert_eq!(d.get_emoji_filepath(&f), "/tmp/arch/zuck-abc.png");
}

#[test]
fn known_names_lookup() {
    let mut k = KnownNames::new();
    assert!(!k.contains("a"));
    k.insert("a".to_string());
    k.insert("b".to_string());
    assert!(k.contains("a"));
    assert!(k.contains("b"));
    assert!(!k.contains("c"));
}

#[test]
fn known_names_replayed_from_log() {
    let log = vec![
        EmojiFile::from_emoji(emoji("a", "https://e.example/T/a/1.png")).ok().unwrap(),
        EmojiFile::from_emoji(emoji("b", "https://e.example/T/b/2.png")).ok().unwrap(),
    ];
    let k = KnownNames::from_log(&log);
    assert!(k.contains("a"));
    assert!(k.contains("b"));
    assert!(!k.contains("c"));
}

#[test]
fn download_twice_fetches_nothing_the_second_time() {
    let remote = vec![
        ("one", "https://e.example/T/one/1.png"),
        ("two", "https://e.example/T/two/2.png"),
        ("three", "https://e.example/T/three/3.png"),
    ];
    let mut known = KnownNames::new();
    known.insert("two".to_string());
    let mut log: Vec<String> = Vec::new();
    for (n, u) in &remote {
        match plan_download(&known, emoji(n, u)).ok().unwrap() {
            DownloadDecision::Fetch(f) => log.push(f.emoji.name),
            DownloadDecision::Skip(_) => {}
        }
    }
    assert_eq!(log, vec!["one".to_string(), "three".to_string()]);
    for n in &log {
        known.insert(n.clone());
    }
    for (n, u) in &remote {
        assert!(matches!(plan_download(&known, emoji(n, u)).ok().unwrap(), DownloadDecision::Skip(_)));
    }
}
