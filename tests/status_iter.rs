use splop::{IterStatusExt, Status, WithStatus};
use splop::with_status::{hint_plus_one, len_plus_one};

fn flags(s: &Status) -> (bool, bool) {
    (s.is_first(), s.is_last())
}

fn drain<I: Iterator>(mut w: WithStatus<I>) -> Vec<(I::Item, Status)> {
    let mut out = Vec::new();
    while let Some(p) = w.next() {
        out.push(p);
    }
    out
}

#[test]
fn empty_sequence_yields_nothing() {
    let v: Vec<u32> = Vec::new();
    let mut w = v.into_iter().with_status();
    assert!(w.next().is_none());
    assert!(w.next().is_none());
}

#[test]
fn single_item_is_first_and_last() {
    let (x, status) = [27].iter().with_status().next().unwrap();
    assert_eq!(*x, 27);
    assert!(status.is_first());
    assert!(status.is_last());
    assert!(!status.is_first_only());
    assert!(!status.is_last_only());
    assert!(!status.is_in_between());
}

#[test]
fn four_items_get_positions() {
    let got: Vec<(u32, (bool, bool))> = drain(vec![10u32, 20, 30, 40].into_iter().with_status())
        .into_iter()
        .map(|(x, s)| (x, flags(&s)))
        .collect();
    assert_eq!(
        got,
        vec![
            (10, (true, false)),
            (20, (false, false)),
            (30, (false, false)),
            (40, (false, true)),
        ]
    );
}

#[test]
fn collect_vec_keeps_items_in_order() {
    let got = vec!['a', 'b', 'c', 'd', 'e'].into_iter().with_status().collect_vec();
    let items: Vec<char> = got.iter().map(|p| p.0).collect();
    assert_eq!(items, vec!['a', 'b', 'c', 'd', 'e']);
    let between: Vec<bool> = got.iter().map(|p| p.1.is_in_between()).collect();
    assert_eq!(between, vec![false, true, true, true, false]);
}

#[test]
fn is_first_over_range() {
    let v: Vec<(i32, bool)> = drain((0..4).with_status())
        .into_iter()
        .map(|(i, s)| (i, s.is_first()))
        .collect();
    assert_eq!(v, [(0, true), (1, false), (2, false), (3, false)]);
}

#[test]
fn is_first_only_over_range() {
    let v: Vec<(i32, bool)> = drain((0..4).with_status())
        .into_iter()
        .map(|(i, s)| (i, s.is_first_only()))
        .collect();
    assert_eq!(v, [(0, true), (1, false), (2, false), (3, false)]);
}

#[test]
fn is_last_over_range() {
    let v: Vec<(i32, bool)> = drain((0..4).with_status())
        .into_iter()
        .map(|(i, s)| (i, s.is_last()))
        .collect();
    assert_eq!(v, [(0, false), (1, false), (2, false), (3, true)]);
}

#[test]
fn is_last_only_over_range() {
    let v: Vec<(i32, bool)> = drain((0..4).with_status())
        .into_iter()
        .map(|(i, s)| (i, s.is_last_only()))
        .collect();
    assert_eq!(v, [(0, false), (1, false), (2, false), (3, true)]);
}

#[test]
fn is_in_between_over_range() {
    let v: Vec<(i32, bool)> = drain((0..4).with_status())
        .into_iter()
        .map(|(i, s)| (i, s.is_in_between()))
        .collect();
    assert_eq!(v, [(0, false), (1, true), (2, true), (3, false)]);
}

#[test]
fn two_items_first_then_last() {
    let got = vec![1u8, 2].into_iter().with_status().collect_vec();
    assert_eq!(flags(&got[0].1), (true, false));
    assert_eq!(flags(&got[1].1), (false, true));
    assert!(got[0].1.is_first_only());
    assert!(got[1].1.is_last_only());
}

#[test]
fn statuses_follow_positions_for_many_lengths() {
    for n in 0..8usize {
        let got = (0..n).with_status().collect_vec();
        assert_eq!(got.len(), n);
        for (i, (x, s)) in got.iter().enumerate() {
            assert_eq!(*x, i);
            assert_eq!(s.is_first(), i == 0);
            assert_eq!(s.is_last(), i + 1 == n);
            assert!(!(s.is_first_only() && s.is_last_only()));
        }
        assert_eq!(got.iter().filter(|p| p.1.is_first()).count(), if n == 0 { 0 } else { 1 });
        assert_eq!(got.iter().filter(|p| p.1.is_last()).count(), if n == 0 { 0 } else { 1 });
        if n >= 3 {
            assert!(got.iter().any(|p| p.1.is_in_between()));
        }
    }
}

#[test]
fn exhausted_wrapper_stays_exhausted() {
    let mut w = vec![5u32].into_iter().with_status();
    assert!(w.next().is_some());
    for _ in 0..5 {
        assert!(w.next().is_none());
    }
    assert_eq!(w.len(), 0);
    assert_eq!(w.size_hint(), (0, Some(0)));
}

#[test]
fn len_follows_remaining_items() {
    let mut w = vec![1u32, 2, 3].into_iter().with_status();
    assert_eq!(w.len(), 3);
    assert_eq!(w.size_hint(), (3, Some(3)));
    w.next();
    assert_eq!(w.len(), 2);
    assert_eq!(w.size_hint(), (2, Some(2)));
    w.next();
    assert_eq!(w.len(), 1);
    w.next();
    assert_eq!(w.len(), 0);
    assert_eq!(w.size_hint(), (0, Some(0)));
}

#[test]
fn size_hint_counts_the_held_item_with_open_bound() {
    let mut w = (0u64..).filter(|x| x % 2 == 0).take(3).with_status();
    assert_eq!(w.size_hint(), (0, Some(3)));
    w.next();
    assert_eq!(w.size_hint(), (1, Some(2)));
    let mut u = (0u64..).with_status();
    u.next();
    assert_eq!(u.size_hint(), (usize::MAX, None));
}

#[test]
fn look_ahead_pulls_one_item_early() {
    let mut pulled = 0u32;
    {
        let counting = (1..=3).inspect(|_| pulled += 1);
        let mut w = counting.with_status();
        let (x, s) = w.next().unwrap();
        assert_eq!(x, 1);
        assert!(s.is_first_only());
        drop(w);
    }
    assert_eq!(pulled, 2);
}

#[test]
fn comma_separated_names() {
    let mut s = String::new();
    let names = ["anna", "peter", "bob"];
    let mut w = names.iter().with_status();
    while let Some((name, status)) = w.next() {
        if !status.is_first() {
            s += ", ";
        }
        s += name;
    }
    assert_eq!(s, "anna, peter, bob");
}

#[test]
fn hint_plus_one_raises_both_bounds() {
    assert_eq!(hint_plus_one((0, Some(0))), (1, Some(1)));
    assert_eq!(hint_plus_one((3, Some(7))), (4, Some(8)));
    assert_eq!(hint_plus_one((2, None)), (3, None));
    assert_eq!(hint_plus_one((usize::MAX, Some(usize::MAX))), (usize::MAX, None));
}

#[test]
fn len_plus_one_saturates() {
    assert_eq!(len_plus_one(0), 1);
    assert_eq!(len_plus_one(41), 42);
    assert_eq!(len_plus_one(usize::MAX), usize::MAX);
}
