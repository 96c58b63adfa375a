use crystal_sim::border::{
    bounce_action, filter_border, standard_borders, Axis, BorderShape, BorderSpec, BorderType,
    BounceAction, Normal, Offset,
};
use crystal_sim::counters::{CollidableKind, CrossingCounts};
use crystal_sim::ion_region::{ion_region, IonRegion};
use crystal_sim::order::{lexicographic, CoordOrder, LexOrder};
use crystal_sim::selection::{earliest, schedule, NEVER};
use crystal_sim::sign::Sign;

fn key(t: f64) -> u64 {
    t.to_bits()
}

fn shape_of(spec: &BorderSpec, width: Sign, height: Sign) -> BorderShape {
    BorderShape {
        border_type: spec.border_type,
        a_is_one: spec.normal == Normal::X,
        b_is_one: spec.normal == Normal::Y,
        c: match spec.offset {
            Offset::Origin => Sign::Zero,
            Offset::Width => width,
            Offset::Height => height,
        },
    }
}

fn axis_of(spec: &BorderSpec) -> Axis {
    match spec.normal {
        Normal::X => Axis::Vertical,
        Normal::Y => Axis::Horizontal,
    }
}

#[test]
fn standard_borders_are_left_bottom_right_top() {
    let b = standard_borders();
    assert_eq!(b.len(), 4);
    assert_eq!(b[0], BorderSpec { normal: Normal::X, offset: Offset::Origin, border_type: BorderType::Outer });
    assert_eq!(b[1], BorderSpec { normal: Normal::Y, offset: Offset::Origin, border_type: BorderType::Outer });
    assert_eq!(b[2], BorderSpec { normal: Normal::X, offset: Offset::Width, border_type: BorderType::Inner });
    assert_eq!(b[3], BorderSpec { normal: Normal::Y, offset: Offset::Height, border_type: BorderType::Inner });
}

#[test]
fn moving_electron_faces_a_standard_border() {
    let b = standard_borders();
    let signs = [Sign::Negative, Sign::Zero, Sign::Positive];
    for vx in signs.iter() {
        for vy in signs.iter() {
            let faced: Vec<bool> = b
                .iter()
                .map(|s| filter_border(&shape_of(s, Sign::Positive, Sign::Positive), *vx, *vy))
                .collect();
            assert_eq!(faced, vec![*vx == Sign::Negative, *vy == Sign::Negative, *vx == Sign::Positive, *vy == Sign::Positive]);
            if *vx != Sign::Zero || *vy != Sign::Zero {
                assert!(faced.iter().any(|f| *f));
            }
        }
    }
}

#[test]
fn standard_borders_all_respond() {
    let b = standard_borders();
    assert_eq!(bounce_action(b[0].border_type, axis_of(&b[0])), Some(BounceAction::WrapForward));
    assert_eq!(bounce_action(b[1].border_type, axis_of(&b[1])), Some(BounceAction::ReflectY));
    assert_eq!(bounce_action(b[2].border_type, axis_of(&b[2])), Some(BounceAction::WrapBackward));
    assert_eq!(bounce_action(b[3].border_type, axis_of(&b[3])), Some(BounceAction::ReflectY));
}

#[test]
fn oblique_border_has_no_response() {
    assert_eq!(bounce_action(BorderType::Inner, Axis::Oblique), None);
    assert_eq!(bounce_action(BorderType::Outer, Axis::Oblique), None);
}

#[test]
fn ion_region_by_direction() {
    assert_eq!(ion_region(Sign::Positive, Sign::Positive), IonRegion::Quadrant { east: true, north: true });
    assert_eq!(ion_region(Sign::Positive, Sign::Negative), IonRegion::Quadrant { east: true, north: false });
    assert_eq!(ion_region(Sign::Negative, Sign::Positive), IonRegion::Quadrant { east: false, north: true });
    assert_eq!(ion_region(Sign::Negative, Sign::Negative), IonRegion::Quadrant { east: false, north: false });
    assert_eq!(ion_region(Sign::Zero, Sign::Positive), IonRegion::Column { north: true });
    assert_eq!(ion_region(Sign::Zero, Sign::Negative), IonRegion::Column { north: false });
    assert_eq!(ion_region(Sign::Positive, Sign::Zero), IonRegion::Row { east: true });
    assert_eq!(ion_region(Sign::Negative, Sign::Zero), IonRegion::Row { east: false });
    assert_eq!(ion_region(Sign::Zero, Sign::Zero), IonRegion::Nowhere);
    assert_eq!(ion_region(Sign::Unordered, Sign::Positive), IonRegion::Nowhere);
    assert_eq!(ion_region(Sign::Positive, Sign::Unordered), IonRegion::Nowhere);
}

#[test]
fn ion_region_mirrors_with_velocity() {
    assert_eq!(ion_region(Sign::Negative, Sign::Positive), IonRegion::Quadrant { east: false, north: true });
    assert_eq!(ion_region(Sign::Positive, Sign::Positive), IonRegion::Quadrant { east: true, north: true });
    assert_eq!(ion_region(Sign::Positive, Sign::Zero), IonRegion::Row { east: true });
    assert_eq!(ion_region(Sign::Negative, Sign::Zero), IonRegion::Row { east: false });
}

#[test]
fn earliest_takes_first_of_equal_times() {
    let keys = vec![key(3.5), key(0.5), key(7.0), key(0.5), key(f64::INFINITY)];
    assert_eq!(earliest(&keys), 1);
    assert_eq!(earliest(&vec![key(2.0)]), 0);
    assert_eq!(earliest(&vec![key(f64::INFINITY), key(f64::INFINITY)]), 0);
}

#[test]
fn time_keys_follow_time_order() {
    assert!(key(0.449_489_742_783_177_9) < key(0.5));
    assert!(key(0.5) < key(3.5));
    assert!(key(3.5) < key(1.0e300));
    assert!(key(1.0e300) < NEVER);
    assert_eq!(key(f64::INFINITY), NEVER);
}

#[test]
fn schedule_picks_earliest_electron() {
    let candidates = vec![
        vec![key(3.5), key(f64::INFINITY)],
        vec![key(0.5), key(2.0), key(0.5)],
        vec![key(0.5)],
    ];
    let s = schedule(&candidates);
    assert_eq!(s.choices, vec![0, 0, 0]);
    assert_eq!(s.next, Some(1));
}

#[test]
fn schedule_without_any_collision() {
    let candidates = vec![vec![key(f64::INFINITY)], vec![key(f64::INFINITY), key(f64::INFINITY)]];
    let s = schedule(&candidates);
    assert_eq!(s.choices, vec![0, 0]);
    assert_eq!(s.next, None);
}

#[test]
fn schedule_of_no_electrons() {
    let candidates: Vec<Vec<u64>> = Vec::new();
    let s = schedule(&candidates);
    assert!(s.choices.is_empty());
    assert_eq!(s.next, None);
}

#[test]
fn schedule_chooses_within_each_electron() {
    let candidates = vec![vec![key(9.0), key(4.0), key(6.0)], vec![key(8.0), key(5.0)]];
    let s = schedule(&candidates);
    assert_eq!(s.choices, vec![1, 1]);
    assert_eq!(s.next, Some(0));
}

#[test]
fn crossings_counted_by_direction() {
    let mut c = CrossingCounts::new();
    assert_eq!(c, CrossingCounts { elec_left: 0, elec_right: 0 });
    c.record(CollidableKind::Border, Sign::Positive);
    assert_eq!(c, CrossingCounts { elec_left: 1, elec_right: 0 });
    c.record(CollidableKind::Border, Sign::Negative);
    c.record(CollidableKind::Border, Sign::Negative);
    assert_eq!(c, CrossingCounts { elec_left: 1, elec_right: 2 });
    c.record(CollidableKind::Border, Sign::Zero);
    c.record(CollidableKind::Ion, Sign::Positive);
    c.record(CollidableKind::Electron, Sign::Negative);
    assert_eq!(c, CrossingCounts { elec_left: 1, elec_right: 2 });
}

#[test]
fn crossing_count_reaches_its_limit() {
    let mut c = CrossingCounts { elec_left: i32::MAX - 1, elec_right: i32::MAX };
    c.record(CollidableKind::Border, Sign::Positive);
    assert_eq!(c.elec_left, i32::MAX);
    c.record(CollidableKind::Ion, Sign::Negative);
    assert_eq!(c.elec_right, i32::MAX);
}

#[test]
fn lexicographic_first_untied_coordinate_decides() {
    assert_eq!(lexicographic(&vec![CoordOrder::Less, CoordOrder::Greater, CoordOrder::Greater]), LexOrder::Less);
    assert_eq!(lexicographic(&vec![CoordOrder::Tied, CoordOrder::Greater, CoordOrder::Less]), LexOrder::Greater);
    assert_eq!(lexicographic(&vec![CoordOrder::Tied, CoordOrder::Tied, CoordOrder::Less]), LexOrder::Less);
    assert_eq!(lexicographic(&vec![CoordOrder::Tied, CoordOrder::Tied, CoordOrder::Tied]), LexOrder::Equal);
    assert_eq!(lexicographic(&vec![]), LexOrder::Equal);
}

#[test]
fn lexicographic_reverses_when_swapped() {
    assert_eq!(lexicographic(&vec![CoordOrder::Tied, CoordOrder::Less, CoordOrder::Greater]), LexOrder::Less);
    assert_eq!(lexicographic(&vec![CoordOrder::Tied, CoordOrder::Greater, CoordOrder::Less]), LexOrder::Greater);
}
