//! Case analysis of a disc sweeping towards a segment, and the choice of the
//! earliest impact among a block's edges.
//!
//! The measures of a ball against the segment from `a` to `b` are computed by
//! the caller in binary64 arithmetic and handed over as bit patterns; which
//! kind of contact they lead to is decided here.
use vstd::prelude::*;
use crate::ieee::{float_le, float_lt, time_key, time_rank, value_le, value_lt, ONE, ZERO};

verus! {

/// Bits of `-0.0001`, the clearance below which a ball counts as behind a
/// segment's line rather than touching it.
pub const NEG_CLEARANCE: u64 = 0xBF1A_36E2_EB1C_432D;

/// Measures of a ball against a segment from `a` to `b`, as bit patterns.
#[derive(Clone, Copy, Debug, PartialEq, Eq, Structural)]
pub struct SegmentMeasures {
    /// Signed distance of the ball's center to the segment's line.
    pub signed_distance: u64,
    /// Velocity component along the line's normal (negative: approaching).
    pub normal_velocity: u64,
    /// Projection of the center onto the segment, `0` at `a` and `1` at `b`.
    pub projection: u64,
    /// Where along the segment (`0` at `a`, `1` at `b`) the ball's boundary
    /// first grazes the line.
    pub alpha: u64,
    /// The ball's radius.
    pub radius: u64,
    /// The radius less the clearance.
    pub inner_radius: u64,
}

/// The kind of contact the measures lead to.
#[derive(Clone, Copy, Debug, PartialEq, Eq, Structural)]
pub enum ContactPlan {
    /// The center lies behind the line by more than the clearance: the
    /// segment faces away, no contact.
    Behind,
    /// Contact, if any, is with endpoint `a` (a disc-point impact).
    EndpointA,
    /// Contact, if any, is with endpoint `b` (a disc-point impact).
    EndpointB,
    /// The ball moves away from the line: no contact.
    Separating,
    /// The ball touches the segment now, at its projection.
    Immediate,
    /// The ball will graze the segment at `alpha`.
    Sweep,
    /// The ball overlaps the segment beyond the clearance: the state it came
    /// from was already invalid.
    Overlapping,
}

/// The contact plan: the rules of a disc against a segment.
pub open spec fn contact_plan(m: SegmentMeasures) -> ContactPlan {
    if value_lt(m.signed_distance, NEG_CLEARANCE) {
        ContactPlan::Behind
    } else if value_lt(m.signed_distance, m.radius) {
        if value_lt(m.projection, ZERO) {
            ContactPlan::EndpointA
        } else if value_lt(ONE, m.projection) {
            ContactPlan::EndpointB
        } else if value_lt(m.inner_radius, m.signed_distance) {
            if value_le(ZERO, m.normal_velocity) {
                ContactPlan::Separating
            } else {
                ContactPlan::Immediate
            }
        } else {
            ContactPlan::Overlapping
        }
    } else if value_lt(m.alpha, ZERO) {
        ContactPlan::EndpointA
    } else if value_lt(ONE, m.alpha) {
        ContactPlan::EndpointB
    } else if value_le(ZERO, m.normal_velocity) {
        ContactPlan::Separating
    } else {
        ContactPlan::Sweep
    }
}

/// Decides how a ball meets a segment. A ball within its radius of the line
/// is resolved against the nearest feature (an endpoint when its projection
/// falls outside the segment, else an immediate contact or none); a ball
/// farther away against the point where its boundary first grazes the line.
pub fn plan_contact(m: &SegmentMeasures) -> (r: ContactPlan)
    ensures
        r == contact_plan(*m),
{
    if float_lt(m.signed_distance, NEG_CLEARANCE) {
        ContactPlan::Behind
    } else if float_lt(m.signed_distance, m.radius) {
        if float_lt(m.projection, ZERO) {
            ContactPlan::EndpointA
        } else if float_lt(ONE, m.projection) {
            ContactPlan::EndpointB
        } else if float_lt(m.inner_radius, m.signed_distance) {
            if float_le(ZERO, m.normal_velocity) {
                ContactPlan::Separating
            } else {
                ContactPlan::Immediate
            }
        } else {
            ContactPlan::Overlapping
        }
    } else if float_lt(m.alpha, ZERO) {
        ContactPlan::EndpointA
    } else if float_lt(ONE, m.alpha) {
        ContactPlan::EndpointB
    } else if float_le(ZERO, m.normal_velocity) {
        ContactPlan::Separating
    } else {
        ContactPlan::Sweep
    }
}

/// An impact time is kept only when it is not before now (`0.0 <= t`).
pub fn is_forward(t: u64) -> (r: bool)
    ensures
        r == value_le(ZERO, t),
{
    float_le(ZERO, t)
}

/// Two discs (or a disc and a point) are to meet when they approach (the
/// relative velocity against the relative position, `dot`, is below zero)
/// and the time-of-impact equation has a real root (`discriminant >= 0.0`).
pub fn has_impact(dot: u64, discriminant: u64) -> (r: bool)
    ensures
        r == (value_lt(dot, ZERO) && value_le(ZERO, discriminant)),
{
    float_lt(dot, ZERO) && float_le(ZERO, discriminant)
}

/// Entry `i` holds an impact time, the earliest (`time_rank`: both zeros
/// equal) among those present, and no entry before it holds that time.
pub open spec fn is_earliest_present(s: Seq<Option<u64>>, i: int) -> bool {
    &&& 0 <= i < s.len()
    &&& s[i] is Some
    &&& forall|j: int|
        0 <= j < s.len() && #[trigger] s[j] is Some ==> time_rank(s[j]->0) >= time_rank(s[i]->0)
    &&& forall|j: int| 0 <= j < i && #[trigger] s[j] is Some ==> time_rank(s[j]->0) > time_rank(s[i]->0)
}

/// Index of the first earliest impact among the edges of a block (or any
/// list of optional impact times); none when no entry holds one.
pub fn earliest_edge(times: &Vec<Option<u64>>) -> (r: Option<usize>)
    ensures
        match r {
            None => forall|j: int| 0 <= j < times@.len() ==> #[trigger] times@[j] is None,
            Some(i) => is_earliest_present(times@, i as int),
        },
{
    let mut best: Option<usize> = None;
    let mut best_key: u64 = 0;
    let mut i: usize = 0;
    while i < times.len()
        invariant
            i <= times@.len(),
            match best {
                None => forall|j: int| 0 <= j < i ==> #[trigger] times@[j] is None,
                Some(b) => {
                    &&& b < i
                    &&& times@[b as int] is Some
                    &&& best_key == time_rank(times@[b as int]->0) + 0x8000_0000_0000_0000
                    &&& forall|j: int|
                        0 <= j < i && #[trigger] times@[j] is Some ==> time_rank(times@[j]->0) >= time_rank(
                            times@[b as int]->0,
                        )
                    &&& forall|j: int|
                        0 <= j < b && #[trigger] times@[j] is Some ==> time_rank(times@[j]->0) > time_rank(
                            times@[b as int]->0,
                        )
                },
            },
        decreases times@.len() - i,
    {
        if let Some(t) = times[i] {
            let key = time_key(t);
            match best {
                None => {
                    best = Some(i);
                    best_key = key;
                },
                Some(_) => {
                    if key < best_key {
                        best = Some(i);
                        best_key = key;
                    }
                },
            }
        }
        i = i + 1;
    }
    best
}

} // verus!
