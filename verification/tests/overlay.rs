use editor_flycam::overlay::{plan_probe, ProbeDraw, Tint, NO_HIT_REACH};

#[test]
fn the_reach_of_a_probe_without_hits() {
    assert_eq!(NO_HIT_REACH, 1000);
}

#[test]
fn a_probe_without_hits_is_one_long_line() {
    let plan = plan_probe(0);
    assert_eq!(plan, vec![ProbeDraw::Reach { length: 1000 }]);
    assert_eq!(plan[0].tint(), Tint::NoHit);
    assert_eq!(plan[0].markers(), 0);
}

#[test]
fn a_probe_with_one_hit() {
    assert_eq!(plan_probe(1), vec![ProbeDraw::Impact { hit: 0 }]);
}

#[test]
fn a_probe_with_hits_is_one_impact_per_hit() {
    let plan = plan_probe(4);
    assert_eq!(
        plan,
        vec![
            ProbeDraw::Impact { hit: 0 },
            ProbeDraw::Impact { hit: 1 },
            ProbeDraw::Impact { hit: 2 },
            ProbeDraw::Impact { hit: 3 },
        ]
    );
    let markers: usize = plan.iter().map(|draw| draw.markers()).sum();
    assert_eq!(markers, 4);
    assert!(plan.iter().all(|draw| draw.tint() == Tint::Hit));
}

#[test]
fn a_long_list_of_hits() {
    let plan = plan_probe(1000);
    assert_eq!(plan.len(), 1000);
    assert_eq!(plan[0], ProbeDraw::Impact { hit: 0 });
    assert_eq!(plan[999], ProbeDraw::Impact { hit: 999 });
}
