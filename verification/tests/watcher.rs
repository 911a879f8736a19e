use rl_bc_uploader::watcher::{
    is_replay_name, pick_newest, replay_baseline, wait_is_over, Candidate, Stamp,
};

fn file(name: &str, stamp: Stamp) -> Candidate {
    Candidate { name: name.to_string(), stamp }
}

#[test]
fn replay_extension_as_path_extension_finds_it() {
    for name in ["a.replay", "x.y.replay", ".replay", "replay", "a.Replay", "a.replay.bak", "..", "a.", "."] {
        let expected = std::path::Path::new(name).extension().and_then(|e| e.to_str()) == Some("replay");
        assert_eq!(is_replay_name(name), expected, "{name:?}");
    }
    assert!(is_replay_name("ABCDEF0123.replay"));
    assert!(!is_replay_name(".replay"));
}

#[test]
fn newest_replay_after_baseline_is_picked() {
    let files = vec![
        file("old.replay", Stamp::Known(50)),
        file("notes.txt", Stamp::Known(900)),
        file("a.replay", Stamp::Known(200)),
        file("b.replay", Stamp::Known(300)),
        file("c.replay", Stamp::Known(300)),
        file("d.replay", Stamp::NoMetadata),
    ];
    assert_eq!(pick_newest(&files, 100), Ok(Some(3)));
    assert_eq!(pick_newest(&files, 300), Ok(None));
    assert_eq!(pick_newest(&files, 299), Ok(Some(3)));
}

#[test]
fn nothing_new_means_keep_waiting() {
    let files = vec![file("a.replay", Stamp::Known(10)), file("b.txt", Stamp::NoTime)];
    assert_eq!(pick_newest(&files, 10), Ok(None));
    assert_eq!(pick_newest(&Vec::new(), 0), Ok(None));
}

#[test]
fn unreadable_time_of_a_replay_fails_the_look() {
    let files = vec![
        file("a.replay", Stamp::Known(500)),
        file("b.replay", Stamp::NoTime),
        file("c.replay", Stamp::NoTime),
    ];
    assert_eq!(pick_newest(&files, 0), Err(1));
}

#[test]
fn baseline_and_deadline() {
    assert_eq!(replay_baseline(10_000_000_000), 5_000_000_000);
    assert_eq!(replay_baseline(0), -5_000_000_000);
    assert!(!wait_is_over(299_999_999_999, 300));
    assert!(wait_is_over(300_000_000_000, 300));
    assert!(wait_is_over(0, 0));
    assert!(!wait_is_over(u128::from(u64::MAX), u64::MAX));
}
