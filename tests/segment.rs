use ball_simulation::NEG_CLEARANCE;
use ball_simulation::{
    block_edge, earliest_edge, has_impact, is_forward, plan_contact, ContactPlan, Corner, SegmentMeasures, BLOCK_EDGES,
};

const CLEARANCE: f64 = 0.0001;

fn measures(
    signed_distance: f64,
    normal_velocity: f64,
    projection: f64,
    alpha: f64,
    radius: f64,
) -> SegmentMeasures {
    SegmentMeasures {
        signed_distance: signed_distance.to_bits(),
        normal_velocity: normal_velocity.to_bits(),
        projection: projection.to_bits(),
        alpha: alpha.to_bits(),
        radius: radius.to_bits(),
        inner_radius: (radius - CLEARANCE).to_bits(),
    }
}

#[test]
fn clearance_constant_is_minus_one_ten_thousandth() {
    assert_eq!(NEG_CLEARANCE, (-CLEARANCE).to_bits());
}

#[test]
fn far_ball_heading_into_the_segment_sweeps() {
    // Segment (2,-1)-(6,-1), ball at (8,-4) moving (-1,1) with radius 0.5.
    let m = measures(3.0, -1.0, 1.5, 0.875, 0.5);
    assert_eq!(plan_contact(&m), ContactPlan::Sweep);
}

#[test]
fn far_ball_grazing_before_the_start_goes_to_endpoint_a() {
    // Segment (1,3)-(3,5), ball at (1,1) moving (0,1) with radius 0.5.
    let d = 2.0f64.sqrt();
    let m = measures(d, -1.0 / d, -0.5, -0.5 / (2.0 * d), 0.5);
    assert_eq!(plan_contact(&m), ContactPlan::EndpointA);
}

#[test]
fn far_ball_grazing_past_the_end_goes_to_endpoint_b() {
    let m = measures(2.0, -0.5, 1.4, 1.2, 1.0);
    assert_eq!(plan_contact(&m), ContactPlan::EndpointB);
}

#[test]
fn far_ball_moving_away_has_no_contact() {
    let m = measures(2.0, 0.5, 0.5, 0.5, 1.0);
    assert_eq!(plan_contact(&m), ContactPlan::Separating);
    let parallel = measures(2.0, 0.0, 0.5, f64::INFINITY, 1.0);
    assert_eq!(plan_contact(&parallel), ContactPlan::EndpointB);
}

#[test]
fn ball_behind_the_line_has_no_contact() {
    let m = measures(-0.5, -1.0, 0.5, 0.5, 0.1);
    assert_eq!(plan_contact(&m), ContactPlan::Behind);
}

#[test]
fn near_ball_off_the_ends_goes_to_the_endpoints() {
    // Segment (0,0)-(2,0), ball at (-2,-0.5) moving (1,0) with radius 1.
    let m = measures(0.5, 0.0, -1.0, f64::NAN, 1.0);
    assert_eq!(plan_contact(&m), ContactPlan::EndpointA);
    let m = measures(0.5, 0.0, 1.5, f64::NAN, 1.0);
    assert_eq!(plan_contact(&m), ContactPlan::EndpointB);
}

#[test]
fn touching_ball_approaching_contacts_now() {
    let m = measures(0.49995, -0.3, 0.5, 0.5, 0.5);
    assert_eq!(plan_contact(&m), ContactPlan::Immediate);
}

#[test]
fn touching_ball_leaving_has_no_contact() {
    let m = measures(0.49995, 0.3, 0.5, 0.5, 0.5);
    assert_eq!(plan_contact(&m), ContactPlan::Separating);
    let m = measures(0.49995, 0.0, 0.5, 0.5, 0.5);
    assert_eq!(plan_contact(&m), ContactPlan::Separating);
}

#[test]
fn overlapping_ball_is_reported() {
    let m = measures(0.25, -0.3, 0.5, 0.5, 0.5);
    assert_eq!(plan_contact(&m), ContactPlan::Overlapping);
    let m = measures(-0.00005, -0.3, 0.5, 0.5, 0.5);
    assert_eq!(plan_contact(&m), ContactPlan::Overlapping);
}

#[test]
fn only_impacts_not_before_now_are_kept() {
    assert!(is_forward(0.0f64.to_bits()));
    assert!(is_forward((-0.0f64).to_bits()));
    assert!(is_forward(2.5f64.to_bits()));
    assert!(!is_forward((-1e-9f64).to_bits()));
    assert!(!is_forward(f64::NAN.to_bits()));
}

#[test]
fn impact_needs_approach_and_a_real_root() {
    assert!(has_impact((-1.0f64).to_bits(), 0.5f64.to_bits()));
    assert!(has_impact((-1.0f64).to_bits(), 0.0f64.to_bits()));
    assert!(!has_impact(1.0f64.to_bits(), 0.5f64.to_bits()));
    assert!(!has_impact(0.0f64.to_bits(), 0.5f64.to_bits()));
    assert!(!has_impact((-1.0f64).to_bits(), (-0.5f64).to_bits()));
}

#[test]
fn earliest_edge_takes_the_first_earliest_present() {
    let t = |x: f64| Some(x.to_bits());
    assert_eq!(earliest_edge(&vec![None, t(0.4), t(0.2), t(0.2)]), Some(2));
    assert_eq!(earliest_edge(&vec![t(0.4), None, None, None]), Some(0));
    assert_eq!(earliest_edge(&vec![None, None, None, None]), None);
    assert_eq!(earliest_edge(&vec![t(0.0), t(-0.0)]), Some(0));
    assert_eq!(earliest_edge(&vec![t(-0.0), t(0.0)]), Some(0));
    assert_eq!(earliest_edge(&vec![t(0.0), t(-1e-300)]), Some(1));
}

#[test]
fn block_edges_close_up_around_the_block() {
    assert_eq!(BLOCK_EDGES, 4);
    let edges: Vec<(Corner, Corner)> = (0..BLOCK_EDGES).map(block_edge).collect();
    assert_eq!(
        edges,
        vec![
            (Corner::TopRight, Corner::TopLeft),
            (Corner::TopLeft, Corner::BottomLeft),
            (Corner::BottomLeft, Corner::BottomRight),
            (Corner::BottomRight, Corner::TopRight),
        ]
    );
    for k in 0..BLOCK_EDGES {
        assert_eq!(edges[k].1, edges[(k + 1) % BLOCK_EDGES].0);
    }
}
