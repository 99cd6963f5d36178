//! Behavior of the general-purpose helpers and the path model.

use std::sync::Arc;

use showcore::path::{FilePath, PathExt, PathSeg};
use showcore::util::{ArcExt, OptionExt, RangeExt, SliceExt, StrExt};

#[test]
fn group_yields_runs_of_equal_elements() {
    let data = [1, 1, 2, 2, 2, 3];
    let mut runs = data.group();
    assert_eq!(runs.next(), Some((&1, 2)));
    assert_eq!(runs.next(), Some((&2, 3)));
    assert_eq!(runs.next(), Some((&3, 1)));
    assert_eq!(runs.next(), None);
    let empty: [u32; 0] = [];
    assert_eq!(empty.group().next(), None);
}

#[test]
fn group_by_key_yields_runs_with_equal_keys() {
    let data = [10, 12, 21, 23, 30];
    let mut runs = data.group_by_key(|n: &i32| *n / 10);
    assert_eq!(runs.next(), Some((1, &data[0..2])));
    assert_eq!(runs.next(), Some((2, &data[2..4])));
    assert_eq!(runs.next(), Some((3, &data[4..5])));
    assert_eq!(runs.next(), None);
}

#[test]
fn utf16_length_counts_code_units() {
    assert_eq!("".len_utf16(), 0);
    assert_eq!("abc".len_utf16(), 3);
    // A supplementary-plane character takes two UTF-16 code units.
    assert_eq!("a\u{1D11E}".len_utf16(), 3);
    assert_eq!("\u{e9}\u{10000}".len_utf16(), 3);
}

#[test]
fn set_min_keeps_the_smaller_value() {
    let mut slot: Option<u32> = None;
    slot.set_min(4);
    assert_eq!(slot, Some(4));
    slot.set_min(7);
    assert_eq!(slot, Some(4));
    slot.set_min(2);
    assert_eq!(slot, Some(2));
}

#[test]
fn set_max_keeps_the_larger_value() {
    let mut slot: Option<u32> = None;
    slot.set_max(4);
    assert_eq!(slot, Some(4));
    slot.set_max(2);
    assert_eq!(slot, Some(4));
    slot.set_max(9);
    assert_eq!(slot, Some(9));
}

#[test]
fn take_returns_the_shared_value() {
    let sole = Arc::new(5u64);
    assert_eq!(sole.take(), 5);
    let shared = Arc::new(vec![1, 2, 3]);
    let other = shared.clone();
    assert_eq!(shared.take(), vec![1, 2, 3]);
    assert_eq!(*other, vec![1, 2, 3]);
}

#[test]
fn locate_steers_a_binary_search() {
    assert_eq!([1..2, 2..7, 7..10].binary_search_by(|r| r.locate(5)), Ok(1));
    assert_eq!((2..7).locate(1), std::cmp::Ordering::Greater);
    assert_eq!((2..7).locate(2), std::cmp::Ordering::Equal);
    assert_eq!((2..7).locate(7), std::cmp::Ordering::Less);
}

fn segs(names: &[&str]) -> Vec<PathSeg> {
    names.iter().map(|s| PathSeg::Normal(s.to_string())).collect()
}

#[test]
fn normalize_resolves_dot_and_dotdot_lexically() {
    let path = FilePath {
        absolute: true,
        segments: vec![
            PathSeg::Normal("proj".to_string()),
            PathSeg::Normal("sub".to_string()),
            PathSeg::Parent,
            PathSeg::Current,
            PathSeg::Normal("a.typ".to_string()),
        ],
    };
    let normalized = path.normalize();
    assert!(normalized.absolute);
    assert_eq!(normalized.segments, segs(&["proj", "a.typ"]));
}

#[test]
fn normalize_keeps_leading_parent_segments() {
    let path = FilePath {
        absolute: false,
        segments: vec![
            PathSeg::Parent,
            PathSeg::Parent,
            PathSeg::Normal("x".to_string()),
        ],
    };
    let normalized = path.normalize();
    assert!(!normalized.absolute);
    assert_eq!(
        normalized.segments,
        vec![PathSeg::Parent, PathSeg::Parent, PathSeg::Normal("x".to_string())]
    );
}

#[test]
fn join_appends_relative_and_replaces_with_absolute() {
    let base = FilePath { absolute: true, segments: segs(&["proj"]) };
    let relative = FilePath { absolute: false, segments: segs(&["sub", "a.typ"]) };
    let joined = base.join(&relative);
    assert!(joined.absolute);
    assert_eq!(joined.segments, segs(&["proj", "sub", "a.typ"]));

    let absolute = FilePath { absolute: true, segments: segs(&["etc"]) };
    let replaced = base.join(&absolute);
    assert!(replaced.absolute);
    assert_eq!(replaced.segments, segs(&["etc"]));
}

#[test]
fn parent_drops_the_last_segment() {
    let path = FilePath { absolute: true, segments: segs(&["proj", "b.typ"]) };
    let dir = path.parent().unwrap();
    assert!(dir.absolute);
    assert_eq!(dir.segments, segs(&["proj"]));
    let empty = FilePath { absolute: false, segments: vec![] };
    assert!(empty.parent().is_none());
}
