//! Discrete core of an event-driven 2D collision simulator: circular balls
//! moving at constant velocity between events inside a rectangular arena with
//! axis-aligned blocks.
//!
//! Scalars (times, velocity components, distances) reach this crate as
//! IEEE-754 binary64 bit patterns, and every decision the engine takes on them
//! (comparisons, ordering of event times, wall identity, reflection off a wall,
//! the case analysis of a disc sweeping towards a segment, and the choice of
//! the globally earliest event) is made and proved here on those bits, as is
//! the caller's bookkeeping of a round of play.

pub mod block;
pub mod ieee;
pub mod round;
pub mod scheduler;
pub mod segment;
pub mod walls;

pub use block::{BLOCK_EDGES, Corner, block_edge};
pub use ieee::{Sign, float_le, float_lt, negate, order_key, sign_of, time_key};
pub use round::{Reaction, Round};
pub use scheduler::{Candidate, Source, collect_candidates, earliest_event, pick_earliest};
pub use segment::{ContactPlan, NEG_CLEARANCE, SegmentMeasures, earliest_edge, has_impact, is_forward, plan_contact};
pub use walls::{Axis, Velocity, WallHit, WallType, earliest_wall, reflect_off_wall, wall_toward};
