use wasmbl::path::FsPath;
use wasmbl::watch::{
    is_hidden, is_relevant_path, Debouncer, Input, WatchEvent, DEFAULT_WINDOW_MS,
};

fn path(parts: &[&str]) -> FsPath {
    FsPath::from_parts(parts.iter().map(|p| p.to_string()).collect())
}

fn output() -> FsPath {
    path(&["/", "work", "build"])
}

fn cache() -> FsPath {
    path(&["/", "work", "target"])
}

#[test]
fn default_window_is_two_seconds() {
    assert_eq!(DEFAULT_WINDOW_MS, 2000);
}

#[test]
fn source_change_counts() {
    let p = path(&["/", "work", "src", "lib.rs"]);
    assert!(is_relevant_path(&p, &output(), &cache()));
    assert!(WatchEvent::Modified(p).is_relevant(&output(), &cache()));
}

#[test]
fn change_under_output_directory_does_not_count() {
    assert!(!is_relevant_path(&path(&["/", "work", "build", "app.js"]), &output(), &cache()));
    assert!(!is_relevant_path(&path(&["/", "work", "build"]), &output(), &cache()));
    assert!(!is_relevant_path(&path(&["/", "work", "build", "a", "b.css"]), &output(), &cache()));
}

#[test]
fn change_under_cache_directory_does_not_count() {
    let p = path(&["/", "work", "target", "debug", "x.d"]);
    assert!(!is_relevant_path(&p, &output(), &cache()));
    assert!(!WatchEvent::Created(p).is_relevant(&output(), &cache()));
}

#[test]
fn directory_with_a_similar_name_is_not_the_output_directory() {
    assert!(is_relevant_path(&path(&["/", "work", "build2", "x.rs"]), &output(), &cache()));
    assert!(is_relevant_path(&path(&["/", "work", "targets", "x.rs"]), &output(), &cache()));
}

#[test]
fn hidden_entries_do_not_count() {
    assert!(is_hidden(&path(&["/", "work", "src", ".lib.rs.swp"])));
    assert!(is_hidden(&path(&[".git"])));
    assert!(!is_hidden(&path(&["/", "work", ".config", "a.rs"])));
    assert!(!is_hidden(&path(&["/", "work", "a.b"])));
    assert!(!is_hidden(&FsPath::new()));
    assert!(!is_relevant_path(&path(&["/", "work", "src", ".lib.rs.swp"]), &output(), &cache()));
}

#[test]
fn renaming_is_judged_by_the_new_path() {
    let into_sources = WatchEvent::Renamed(
        path(&["/", "work", "build", "a.rs"]),
        path(&["/", "work", "src", "a.rs"]),
    );
    assert!(into_sources.is_relevant(&output(), &cache()));
    let to_hidden = WatchEvent::Renamed(
        path(&["/", "work", "src", "a.rs"]),
        path(&["/", "work", "src", ".a.rs"]),
    );
    assert!(!to_hidden.is_relevant(&output(), &cache()));
}

#[test]
fn every_kind_of_change_counts() {
    let p = || path(&["/", "work", "src", "a.rs"]);
    assert!(WatchEvent::Created(p()).is_relevant(&output(), &cache()));
    assert!(WatchEvent::Modified(p()).is_relevant(&output(), &cache()));
    assert!(WatchEvent::Removed(p()).is_relevant(&output(), &cache()));
}

#[test]
fn rescan_never_counts() {
    let p = path(&["/", "work", "src", "a.rs"]);
    assert!(is_relevant_path(&p, &output(), &cache()));
    assert!(!WatchEvent::Rescan(p).is_relevant(&output(), &cache()));
    let mut d = Debouncer::new(2000);
    let rescan = WatchEvent::Rescan(path(&["/", "work", "src"]));
    assert!(!d.observe(&rescan, 0, &output(), &cache()));
    assert_eq!(d.pending, None);
    assert!(!d.tick(10_000));
}

#[test]
fn burst_of_events_gives_one_signal() {
    let mut d = Debouncer::new(2000);
    let mut signals = 0;
    for at in [0u64, 500, 1000, 2500, 4499] {
        if d.event(at) {
            signals += 1;
        }
    }
    assert_eq!(signals, 0);
    assert_eq!(d.deadline(), Some(6499));
    assert!(!d.tick(6498));
    assert!(d.tick(6499));
    assert!(!d.tick(10_000));
    assert_eq!(d.pending, None);
}

#[test]
fn events_spaced_apart_give_a_signal_each() {
    let mut d = Debouncer::new(2000);
    let mut signals = 0;
    for at in [0u64, 2000, 4500, 10_000] {
        if d.event(at) {
            signals += 1;
        }
    }
    if d.tick(12_000) {
        signals += 1;
    }
    assert_eq!(signals, 4);
}

#[test]
fn ticks_between_events_deliver_each_burst_once() {
    let mut d = Debouncer::new(2000);
    let inputs = [
        Input::Event(0),
        Input::Tick(1000),
        Input::Event(1500),
        Input::Tick(3499),
        Input::Tick(3500),
        Input::Tick(3600),
        Input::Event(9000),
        Input::Event(9100),
        Input::Tick(11_100),
    ];
    let delivered: Vec<bool> = inputs.iter().map(|i| d.feed(*i)).collect();
    assert_eq!(delivered, vec![false, false, false, false, true, false, false, false, true]);
}

#[test]
fn event_inside_the_window_restarts_the_wait() {
    let mut d = Debouncer::new(2000);
    d.event(0);
    d.event(1999);
    assert!(!d.tick(2000));
    assert!(!d.tick(3998));
    assert!(d.tick(3999));
}

#[test]
fn nothing_is_due_while_nothing_is_pending() {
    let mut d = Debouncer::new(2000);
    assert_eq!(d.deadline(), None);
    assert!(!d.due(1_000_000));
    assert!(!d.tick(1_000_000));
}

#[test]
fn deadline_saturates() {
    let mut d = Debouncer::new(2000);
    d.event(u64::MAX - 5);
    assert_eq!(d.deadline(), Some(u64::MAX));
    assert!(!d.tick(u64::MAX));
}

#[test]
fn clock_that_runs_backwards_delivers_nothing() {
    let mut d = Debouncer::new(2000);
    d.event(5000);
    assert!(!d.tick(100));
    assert_eq!(d.pending, Some(5000));
}

#[test]
fn filtered_change_never_signals_and_changes_nothing() {
    let mut d = Debouncer::new(2000);
    d.event(0);
    let before = d;
    let change = WatchEvent::Modified(path(&["/", "work", "build", "app.js"]));
    assert!(!d.observe(&change, 10_000, &output(), &cache()));
    assert_eq!(d, before);
    let hidden = WatchEvent::Modified(path(&["/", "work", "src", ".x"]));
    assert!(!d.observe(&hidden, 20_000, &output(), &cache()));
    assert_eq!(d, before);
}

#[test]
fn relevant_change_is_taken_in_as_an_event() {
    let mut d = Debouncer::new(2000);
    let change = WatchEvent::Modified(path(&["/", "work", "src", "lib.rs"]));
    assert!(!d.observe(&change, 100, &output(), &cache()));
    assert_eq!(d.pending, Some(100));
    assert!(d.observe(&change, 5000, &output(), &cache()));
    assert_eq!(d.pending, Some(5000));
}

#[test]
fn zero_window_delivers_at_once() {
    let mut d = Debouncer::new(0);
    assert!(!d.event(7));
    assert!(d.tick(7));
}

#[test]
fn what_a_build_writes_does_not_trigger_a_rebuild() {
    let styles = path(&["/", "work", "styles"]);
    let source = path(&["/", "work", "styles", "sub", "a.scss"]);
    let css = wasmbl::styles::css_output_path(&output(), &styles, &source).unwrap();
    assert_eq!(css.parts, vec!["/", "work", "build", "sub", "a.css"]);
    assert!(!is_relevant_path(&css, &output(), &cache()));
    assert!(is_relevant_path(&source, &output(), &cache()));
    for name in ["app.js", "app_bg.wasm", "index.html"] {
        assert!(!is_relevant_path(&output().join(name), &output(), &cache()));
    }
}
