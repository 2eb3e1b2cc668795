use allen_intervals::{Interval, Relation};

#[test]
fn test_interval_new() {
    let interval = Interval::new(1, 2);
    assert_eq!(interval.lesser, 1);
    assert_eq!(interval.greater, 2);
}

#[test]
fn test_relate() {
    let y = Interval::new(4, 8);
    assert_eq!(Relation::Before, Interval::new(1, 3).relate(&y));
    assert_eq!(Relation::Meets, Interval::new(2, 4).relate(&y));
    assert_eq!(Relation::Overlaps, Interval::new(3, 5).relate(&y));
    assert_eq!(Relation::FinishedBy, Interval::new(3, 8).relate(&y));
    assert_eq!(Relation::Contains, Interval::new(3, 9).relate(&y));
    assert_eq!(Relation::Starts, Interval::new(4, 6).relate(&y));
    assert_eq!(Relation::Equal, Interval::new(4, 8).relate(&y));
    assert_eq!(Relation::StartedBy, Interval::new(4, 9).relate(&y));
    assert_eq!(Relation::During, Interval::new(5, 7).relate(&y));
    assert_eq!(Relation::Finishes, Interval::new(6, 8).relate(&y));
    assert_eq!(Relation::OverlappedBy, Interval::new(7, 9).relate(&y));
    assert_eq!(Relation::MetBy, Interval::new(8, 10).relate(&y));
    assert_eq!(Relation::After, Interval::new(9, 11).relate(&y));
}

#[test]
fn test_is_empty() {
    assert_eq!(Interval::new(1, 1).is_empty(), true);
    assert_eq!(Interval::new(1, 2).is_empty(), false);
}

#[test]
fn test_is_non_empty() {
    assert_eq!(Interval::new(1, 1).is_non_empty(), false);
    assert_eq!(Interval::new(1, 2).is_non_empty(), true);
}

#[test]
fn test_invert() {
    assert_eq!(Relation::Before, Relation::After.invert());
    assert_eq!(Relation::After, Relation::Before.invert());
    assert_eq!(Relation::During, Relation::Contains.invert());
    assert_eq!(Relation::Contains, Relation::During.invert());
    assert_eq!(Relation::Equal, Relation::Equal.invert());
    assert_eq!(Relation::Finishes, Relation::FinishedBy.invert());
    assert_eq!(Relation::FinishedBy, Relation::Finishes.invert());
    assert_eq!(Relation::MetBy, Relation::Meets.invert());
    assert_eq!(Relation::Meets, Relation::MetBy.invert());
    assert_eq!(Relation::Overlaps, Relation::OverlappedBy.invert());
    assert_eq!(Relation::OverlappedBy, Relation::Overlaps.invert());
    assert_eq!(Relation::Starts, Relation::StartedBy.invert());
    assert_eq!(Relation::StartedBy, Relation::Starts.invert());
}

fn all_relations() -> Vec<Relation> {
    vec![
        Relation::Before,
        Relation::Meets,
        Relation::Overlaps,
        Relation::FinishedBy,
        Relation::Contains,
        Relation::Starts,
        Relation::Equal,
        Relation::StartedBy,
        Relation::During,
        Relation::Finishes,
        Relation::OverlappedBy,
        Relation::MetBy,
        Relation::After,
    ]
}

#[test]
fn test_invert_involution() {
    for r in all_relations() {
        assert_eq!(r.invert().invert(), r);
    }
}

#[test]
fn test_relate_inverse_views() {
    let y = Interval::new(4, 8);
    assert_eq!(Relation::After, y.relate(&Interval::new(1, 3)));
    assert_eq!(Relation::MetBy, y.relate(&Interval::new(2, 4)));
    assert_eq!(Relation::OverlappedBy, y.relate(&Interval::new(3, 5)));
    assert_eq!(Relation::Finishes, y.relate(&Interval::new(3, 8)));
    assert_eq!(Relation::During, y.relate(&Interval::new(3, 9)));
    assert_eq!(Relation::StartedBy, y.relate(&Interval::new(4, 6)));
}

#[test]
fn test_relate_symmetry() {
    let samples = [(1, 3), (2, 4), (3, 5), (3, 8), (3, 9), (4, 6), (4, 8), (5, 7), (9, 11), (4, 4)];
    for &(a, b) in samples.iter() {
        for &(c, d) in samples.iter() {
            let x = Interval::new(a, b);
            let y = Interval::new(c, d);
            assert_eq!(x.relate(&y).invert(), y.relate(&x));
        }
    }
}

#[test]
fn test_relate_reflexive() {
    for &(a, b) in [(4, 8), (0, 0), (1, 2), (7, 7)].iter() {
        let x = Interval::new(a, b);
        assert_eq!(Relation::Equal, x.relate(&x));
    }
}

#[test]
fn test_relate_empty_intervals() {
    // Two empty intervals at the same point classify as Equal.
    assert_eq!(Relation::Equal, Interval::new(4, 4).relate(&Interval::new(4, 4)));
    // An empty interval before another empty one is simply Before / After.
    assert_eq!(Relation::Before, Interval::new(2, 2).relate(&Interval::new(5, 5)));
    assert_eq!(Relation::After, Interval::new(5, 5).relate(&Interval::new(2, 2)));
    // An empty interval sitting on an endpoint of a non-empty one falls
    // into the tie rules of the table.
    assert_eq!(Relation::Overlaps, Interval::new(4, 4).relate(&Interval::new(4, 8)));
    assert_eq!(Relation::OverlappedBy, Interval::new(8, 8).relate(&Interval::new(4, 8)));
    assert_eq!(Relation::During, Interval::new(6, 6).relate(&Interval::new(4, 8)));
}

#[test]
fn test_relate_other_endpoint_types() {
    // The algebra is generic over any totally ordered endpoint type.
    let x = Interval::new('a', 'c');
    let y = Interval::new('b', 'd');
    assert_eq!(Relation::Overlaps, x.relate(&y));
    assert_eq!(Relation::OverlappedBy, y.relate(&x));

    let xs = Interval::new((1u8, 2u8), (3u8, 0u8));
    let ys = Interval::new((3u8, 0u8), (9u8, 9u8));
    assert_eq!(Relation::Meets, xs.relate(&ys));

    let big = Interval::new(0u64, u64::MAX);
    assert_eq!(Relation::Contains, big.relate(&Interval::new(1u64, 10)));
}

#[test]
fn test_is_empty_more() {
    assert!(Interval::new(0, 0).is_empty());
    assert!(Interval::new(u32::MAX, u32::MAX).is_empty());
    assert!(!Interval::new(0, 1).is_empty());
    // Emptiness tests only for equal endpoints: a backwards interval is
    // not reported as empty.
    assert!(!Interval::new(3, 1).is_empty());
    assert!(Interval::new(3, 1).is_non_empty());
}
