//! The caller's side of a round of play: how each event changes the balls in
//! play, the balls still to launch and the hit points of the blocks, with the
//! hit points kept in lockstep with the engine's block indices.
use vstd::prelude::*;
use crate::scheduler::{candidates, earliest_event, is_earliest, lemma_candidates_refer_to_state, refers_to_state, scheduled, Candidate, Source};
use crate::walls::WallHit;
use crate::walls::WallType;

verus! {

/// Bookkeeping of a round.
pub struct Round {
    /// Balls still to be launched.
    pub balls_left: usize,
    /// Balls in play, the length of the engine's ball list.
    pub balls_in_play: usize,
    /// Balls earned for the next round: one per destroyed block.
    pub balls_earned: usize,
    /// Hit points of each block, by the engine's block index.
    pub block_lives: Vec<usize>,
}

/// What the caller does to its own state and to the engine's after an event.
#[derive(Clone, Copy, Debug, PartialEq, Eq, Structural)]
pub enum Reaction {
    /// Launch a new ball, appended to the engine's ball list.
    Launch,
    /// Remove the ball at this index: it left through the `YNegative` wall.
    RemoveBall(usize),
    /// The block at this index lost a hit point and stays.
    Damage(usize),
    /// The block at this index lost its last hit point: remove it.
    Destroy(usize),
    /// Nothing to do.
    Nothing,
}

/// How the round changes on `event` and the reaction it reports: a custom
/// event launches a ball while any are left, a ball meeting the `YNegative`
/// wall leaves play, a block that is hit loses a hit point and is removed at
/// zero, earning a ball; anything else changes nothing.
pub open spec fn reacts(before: Round, event: Source, after: Round, r: Reaction) -> bool {
    match event {
        Source::Custom(_) => if before.balls_left > 0 {
            &&& r == Reaction::Launch
            &&& after.balls_left == before.balls_left - 1
            &&& after.balls_in_play == before.balls_in_play + 1
            &&& after.balls_earned == before.balls_earned
            &&& after.block_lives@ == before.block_lives@
        } else {
            r == Reaction::Nothing && after == before
        },
        Source::Wall { ball, wall } => if wall == WallType::YNegative {
            &&& r == Reaction::RemoveBall(ball)
            &&& after.balls_left == before.balls_left
            &&& after.balls_in_play == before.balls_in_play - 1
            &&& after.balls_earned == before.balls_earned
            &&& after.block_lives@ == before.block_lives@
        } else {
            r == Reaction::Nothing && after == before
        },
        Source::Block { block, .. } => {
            &&& after.balls_left == before.balls_left
            &&& after.balls_in_play == before.balls_in_play
            &&& if before.block_lives@[block as int] == 1 {
                &&& r == Reaction::Destroy(block)
                &&& after.balls_earned == before.balls_earned + 1
                &&& after.block_lives@ == before.block_lives@.remove(block as int)
            } else {
                &&& r == Reaction::Damage(block)
                &&& after.balls_earned == before.balls_earned
                &&& after.block_lives@ == before.block_lives@.update(
                    block as int,
                    (before.block_lives@[block as int] - 1) as usize,
                )
            }
        },
    }
}

impl Round {
    /// Every block has a hit point left, and the counts that events move
    /// between each other fit in a `usize` together.
    pub open spec fn wf(&self) -> bool {
        &&& forall|i: int| 0 <= i < self.block_lives@.len() ==> #[trigger] self.block_lives@[i] > 0
        &&& self.balls_left + self.balls_in_play <= usize::MAX
        &&& self.balls_earned + self.block_lives.len() <= usize::MAX
    }

    /// A round with `balls` to launch, none in play yet, and blocks of the
    /// given hit points.
    pub fn new(balls: usize, block_lives: Vec<usize>) -> (r: Round)
        requires
            forall|i: int| 0 <= i < block_lives@.len() ==> #[trigger] block_lives@[i] > 0,
        ensures
            r.wf(),
            r.balls_left == balls,
            r.balls_in_play == 0,
            r.balls_earned == 0,
            r.block_lives@ == block_lives@,
    {
        Round { balls_left: balls, balls_in_play: 0, balls_earned: 0, block_lives }
    }

    /// Whether a launch is still pending, so that the caller schedules a
    /// custom event for it.
    pub fn launch_pending(&self) -> (r: bool)
        ensures
            r == (self.balls_left > 0),
    {
        self.balls_left > 0
    }

    /// Reacts to the event the engine reported: a custom event launches a
    /// ball while any are left, a ball meeting the `YNegative` wall leaves
    /// play, a block that is hit loses a hit point and is destroyed at zero
    /// (earning a ball); other walls change nothing.
    pub fn react(&mut self, event: Source) -> (r: Reaction)
        requires
            old(self).wf(),
            event matches Source::Wall { ball, .. } ==> ball < old(self).balls_in_play,
            event matches Source::Block { ball, block } ==> ball < old(self).balls_in_play && block
                < old(self).block_lives@.len(),
        ensures
            final(self).wf(),
            reacts(*old(self), event, *final(self), r),
    {
        match event {
            Source::Custom(_) => {
                if self.balls_left > 0 {
                    self.balls_left = self.balls_left - 1;
                    self.balls_in_play = self.balls_in_play + 1;
                    Reaction::Launch
                } else {
                    Reaction::Nothing
                }
            },
            Source::Wall { ball, wall } => {
                if wall == WallType::YNegative {
                    self.balls_in_play = self.balls_in_play - 1;
                    Reaction::RemoveBall(ball)
                } else {
                    Reaction::Nothing
                }
            },
            Source::Block { block, .. } => {
                let lives = self.block_lives[block];
                if lives == 1 {
                    self.block_lives.remove(block);
                    self.balls_earned = self.balls_earned + 1;
                    Reaction::Destroy(block)
                } else {
                    self.block_lives.set(block, lives - 1);
                    Reaction::Damage(block)
                }
            },
        }
    }

    /// Schedules the next event of the engine's state (given as the
    /// scheduler takes it, with one wall entry and one row of block entries
    /// per ball in play, one block entry per block) and reacts to it. Every
    /// index the reaction names is valid in the state the event came from.
    pub fn advance(&mut self, custom: &Vec<u64>, walls: &Vec<Option<WallHit>>, blocks: &Vec<Vec<Option<u64>>>) -> (r:
        Option<(Candidate, Reaction)>)
        requires
            old(self).wf(),
            walls@.len() == old(self).balls_in_play,
            blocks@.len() == old(self).balls_in_play,
            forall|b: int| 0 <= b < blocks@.len() ==> #[trigger] blocks@[b]@.len() == old(self).block_lives@.len(),
        ensures
            final(self).wf(),
            match r {
                None => {
                    &&& candidates(custom@, walls@, blocks@).len() == 0
                    &&& *final(self) == *old(self)
                },
                Some((c, reaction)) => {
                    &&& scheduled(candidates(custom@, walls@, blocks@), Some(c))
                    &&& reacts(*old(self), c.source, *final(self), reaction)
                },
            },
    {
        match earliest_event(custom, walls, blocks) {
            None => None,
            Some(c) => {
                proof {
                    let s = candidates(custom@, walls@, blocks@);
                    let i = choose|i: int| is_earliest(s, i) && s[i] == c;
                    assert(custom@.len() == custom.len());
                    assert(self.block_lives@.len() == self.block_lives.len());
                    lemma_candidates_refer_to_state(custom@, walls@, blocks@);
                    assert(refers_to_state(custom@, walls@, blocks@, s[i]));
                }
                let reaction = self.react(c.source);
                Some((c, reaction))
            },
        }
    }
}

} // verus!
