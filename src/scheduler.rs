//! The event scheduler: from every candidate event of a state (caller-supplied
//! custom events, the earliest wall impact of each ball, the earliest impact
//! of each ball on each block) it picks the first one of earliest time.
use vstd::prelude::*;
use crate::ieee::{time_key, time_rank};
use crate::walls::{WallHit, WallType};

verus! {

/// What an event is about.
#[derive(Clone, Copy, Debug, PartialEq, Eq, Structural)]
pub enum Source {
    /// The custom event at this index of the caller's list.
    Custom(usize),
    /// Ball `ball` meets a wall.
    Wall { ball: usize, wall: WallType },
    /// Ball `ball` meets block `block`.
    Block { ball: usize, block: usize },
}

/// An event `time` (bit pattern of a binary64 delay from now) away.
#[derive(Clone, Copy, Debug, PartialEq, Eq, Structural)]
pub struct Candidate {
    pub time: u64,
    pub source: Source,
}

/// One candidate per custom event, in the caller's order.
pub open spec fn custom_candidates(custom: Seq<u64>) -> Seq<Candidate> {
    Seq::new(custom.len(), |i: int| Candidate { time: custom[i], source: Source::Custom(i as usize) })
}

/// One candidate per ball that has a wall impact, in ball order.
pub open spec fn wall_candidates(walls: Seq<Option<WallHit>>) -> Seq<Candidate>
    decreases walls.len(),
{
    if walls.len() == 0 {
        seq![]
    } else {
        let rest = wall_candidates(walls.drop_last());
        match walls.last() {
            Some(h) => rest.push(
                Candidate { time: h.time, source: Source::Wall { ball: (walls.len() - 1) as usize, wall: h.wall } },
            ),
            None => rest,
        }
    }
}

/// One candidate per block that ball `ball` has an impact on, in block order.
pub open spec fn block_row_candidates(ball: int, row: Seq<Option<u64>>) -> Seq<Candidate>
    decreases row.len(),
{
    if row.len() == 0 {
        seq![]
    } else {
        let rest = block_row_candidates(ball, row.drop_last());
        match row.last() {
            Some(t) => rest.push(
                Candidate { time: t, source: Source::Block { ball: ball as usize, block: (row.len() - 1) as usize } },
            ),
            None => rest,
        }
    }
}

/// The block candidates of every ball, ball by ball.
pub open spec fn block_candidates(rows: Seq<Vec<Option<u64>>>) -> Seq<Candidate>
    decreases rows.len(),
{
    if rows.len() == 0 {
        seq![]
    } else {
        block_candidates(rows.drop_last()) + block_row_candidates(rows.len() - 1, rows.last()@)
    }
}

/// All candidates of a state, in scheduling order: custom events first, then
/// wall impacts, then block impacts.
pub open spec fn candidates(custom: Seq<u64>, walls: Seq<Option<WallHit>>, blocks: Seq<Vec<Option<u64>>>) -> Seq<
    Candidate,
> {
    custom_candidates(custom) + wall_candidates(walls) + block_candidates(blocks)
}

/// Candidate `i` has the earliest time (`time_rank`: both zeros equal), and
/// no candidate before it has that time.
pub open spec fn is_earliest(s: Seq<Candidate>, i: int) -> bool {
    &&& 0 <= i < s.len()
    &&& forall|j: int| 0 <= j < s.len() ==> time_rank(#[trigger] s[j].time) >= time_rank(s[i].time)
    &&& forall|j: int| 0 <= j < i ==> time_rank(#[trigger] s[j].time) > time_rank(s[i].time)
}

/// `r` is what scheduling picks from `s`: nothing when there is no candidate,
/// else the first candidate of earliest time.
pub open spec fn scheduled(s: Seq<Candidate>, r: Option<Candidate>) -> bool {
    match r {
        None => s.len() == 0,
        Some(c) => exists|i: int| is_earliest(s, i) && s[i] == c,
    }
}

/// Index of the first candidate of earliest time; none when `s` is empty.
pub fn pick_earliest(s: &Vec<Candidate>) -> (r: Option<usize>)
    ensures
        match r {
            None => s@.len() == 0,
            Some(i) => is_earliest(s@, i as int),
        },
{
    if s.len() == 0 {
        return None;
    }
    let mut best: usize = 0;
    let mut best_key: u64 = time_key(s[0].time);
    let mut i: usize = 1;
    while i < s.len()
        invariant
            1 <= i <= s@.len(),
            best < i,
            best_key == time_rank(s@[best as int].time) + 0x8000_0000_0000_0000,
            forall|j: int| 0 <= j < i ==> time_rank(#[trigger] s@[j].time) >= time_rank(s@[best as int].time),
            forall|j: int| 0 <= j < best ==> time_rank(#[trigger] s@[j].time) > time_rank(s@[best as int].time),
        decreases s@.len() - i,
    {
        let key = time_key(s[i].time);
        if key < best_key {
            best = i;
            best_key = key;
        }
        i = i + 1;
    }
    Some(best)
}

/// Every candidate of the state, in scheduling order.
pub fn collect_candidates(custom: &Vec<u64>, walls: &Vec<Option<WallHit>>, blocks: &Vec<Vec<Option<u64>>>) -> (r: Vec<
    Candidate,
>)
    ensures
        r@ == candidates(custom@, walls@, blocks@),
{
    let mut out: Vec<Candidate> = Vec::new();
    let mut i: usize = 0;
    while i < custom.len()
        invariant
            i <= custom@.len(),
            out@ =~= custom_candidates(custom@.subrange(0, i as int)),
        decreases custom@.len() - i,
    {
        out.push(Candidate { time: custom[i], source: Source::Custom(i) });
        i = i + 1;
        assert(out@ =~= custom_candidates(custom@.subrange(0, i as int)));
    }
    assert(custom@.subrange(0, custom@.len() as int) =~= custom@);
    let ghost base = out@;
    let mut b: usize = 0;
    while b < walls.len()
        invariant
            b <= walls@.len(),
            base == custom_candidates(custom@),
            out@ =~= base + wall_candidates(walls@.subrange(0, b as int)),
        decreases walls@.len() - b,
    {
        let ghost before = walls@.subrange(0, b as int);
        if let Some(h) = walls[b] {
            out.push(Candidate { time: h.time, source: Source::Wall { ball: b, wall: h.wall } });
        }
        b = b + 1;
        assert(walls@.subrange(0, b as int).drop_last() =~= before);
    }
    assert(walls@.subrange(0, walls@.len() as int) =~= walls@);
    let ghost base2 = out@;
    let mut b: usize = 0;
    while b < blocks.len()
        invariant
            b <= blocks@.len(),
            base2 == custom_candidates(custom@) + wall_candidates(walls@),
            out@ =~= base2 + block_candidates(blocks@.subrange(0, b as int)),
        decreases blocks@.len() - b,
    {
        let row = &blocks[b];
        let ghost row_base = out@;
        let mut k: usize = 0;
        while k < row.len()
            invariant
                k <= row@.len(),
                row@ == blocks@[b as int]@,
                out@ =~= row_base + block_row_candidates(b as int, row@.subrange(0, k as int)),
            decreases row@.len() - k,
        {
            let ghost before = row@.subrange(0, k as int);
            if let Some(t) = row[k] {
                out.push(Candidate { time: t, source: Source::Block { ball: b, block: k } });
            }
            k = k + 1;
            assert(row@.subrange(0, k as int).drop_last() =~= before);
        }
        assert(row@.subrange(0, row@.len() as int) =~= row@);
        let ghost prefix = blocks@.subrange(0, b as int);
        b = b + 1;
        assert(blocks@.subrange(0, b as int).drop_last() =~= prefix);
    }
    assert(blocks@.subrange(0, blocks@.len() as int) =~= blocks@);
    out
}

/// The event scheduler: the first candidate of earliest time among the
/// custom events (`custom[i]` is the delay of the `i`-th), the wall impacts
/// (`walls[b]`, the earliest wall impact of ball `b`, if any) and the block
/// impacts (`blocks[b][k]`, the earliest impact of ball `b` on block `k`, if
/// any), taken in that order. Nothing when there is no candidate at all.
pub fn earliest_event(custom: &Vec<u64>, walls: &Vec<Option<WallHit>>, blocks: &Vec<Vec<Option<u64>>>) -> (r: Option<
    Candidate,
>)
    ensures
        scheduled(candidates(custom@, walls@, blocks@), r),
{
    let all = collect_candidates(custom, walls, blocks);
    match pick_earliest(&all) {
        None => None,
        Some(i) => Some(all[i]),
    }
}

/// Scheduling determines its winner: at most one candidate is the first of
/// earliest time.
pub proof fn lemma_earliest_unique(s: Seq<Candidate>, i: int, k: int)
    requires
        is_earliest(s, i),
        is_earliest(s, k),
    ensures
        i == k,
{
    if i < k {
        assert(time_rank(s[i].time) > time_rank(s[k].time));
    } else if k < i {
        assert(time_rank(s[k].time) > time_rank(s[i].time));
    }
}

/// Asking the scheduler twice about the same state gives the same winning
/// event.
pub proof fn lemma_requery_same_event(
    custom: Seq<u64>,
    walls: Seq<Option<WallHit>>,
    blocks: Seq<Vec<Option<u64>>>,
    first: Option<Candidate>,
    second: Option<Candidate>,
)
    requires
        scheduled(candidates(custom, walls, blocks), first),
        scheduled(candidates(custom, walls, blocks), second),
    ensures
        first == second,
{
    let s = candidates(custom, walls, blocks);
    if let Some(a) = first {
        if let Some(b) = second {
            let i = choose|i: int| is_earliest(s, i) && s[i] == a;
            let k = choose|k: int| is_earliest(s, k) && s[k] == b;
            lemma_earliest_unique(s, i, k);
        }
    }
}

/// Candidate `c` names a custom event, a ball or a block that the state
/// holds, with the time recorded there.
pub open spec fn refers_to_state(
    custom: Seq<u64>,
    walls: Seq<Option<WallHit>>,
    blocks: Seq<Vec<Option<u64>>>,
    c: Candidate,
) -> bool {
    match c.source {
        Source::Custom(i) => i < custom.len() && custom[i as int] == c.time,
        Source::Wall { ball, wall } => ball < walls.len() && walls[ball as int] == Some(
            WallHit { time: c.time, wall },
        ),
        Source::Block { ball, block } => ball < blocks.len() && block < blocks[ball as int]@.len()
            && blocks[ball as int]@[block as int] == Some(c.time),
    }
}

proof fn lemma_wall_candidates_refer(
    custom: Seq<u64>,
    walls: Seq<Option<WallHit>>,
    blocks: Seq<Vec<Option<u64>>>,
    prefix: Seq<Option<WallHit>>,
)
    requires
        walls.len() <= usize::MAX,
        prefix.len() <= walls.len(),
        prefix =~= walls.subrange(0, prefix.len() as int),
    ensures
        forall|k: int|
            0 <= k < wall_candidates(prefix).len() ==> refers_to_state(
                custom,
                walls,
                blocks,
                #[trigger] wall_candidates(prefix)[k],
            ),
    decreases prefix.len(),
{
    if prefix.len() > 0 {
        let n = prefix.len() - 1;
        assert(prefix.drop_last() =~= walls.subrange(0, n));
        assert(prefix.last() == walls[n]);
        lemma_wall_candidates_refer(custom, walls, blocks, prefix.drop_last());
        let rest = wall_candidates(prefix.drop_last());
        let all = wall_candidates(prefix);
        assert forall|k: int| 0 <= k < all.len() implies refers_to_state(custom, walls, blocks, #[trigger] all[k]) by {
            if k < rest.len() {
                assert(all[k] == rest[k]);
            } else {
                let h = prefix.last()->Some_0;
                assert(all[k] == Candidate { time: h.time, source: Source::Wall { ball: n as usize, wall: h.wall } });
            }
        }
    }
}

proof fn lemma_row_candidates_refer(
    custom: Seq<u64>,
    walls: Seq<Option<WallHit>>,
    blocks: Seq<Vec<Option<u64>>>,
    ball: int,
    row: Seq<Option<u64>>,
)
    requires
        blocks.len() <= usize::MAX,
        blocks[ball]@.len() <= usize::MAX,
        0 <= ball < blocks.len(),
        row.len() <= blocks[ball]@.len(),
        row =~= blocks[ball]@.subrange(0, row.len() as int),
    ensures
        forall|k: int|
            0 <= k < block_row_candidates(ball, row).len() ==> refers_to_state(
                custom,
                walls,
                blocks,
                #[trigger] block_row_candidates(ball, row)[k],
            ),
    decreases row.len(),
{
    if row.len() > 0 {
        let full = blocks[ball]@;
        let n = row.len() - 1;
        assert(row.drop_last() =~= full.subrange(0, n));
        assert(row.last() == full[n]);
        lemma_row_candidates_refer(custom, walls, blocks, ball, row.drop_last());
        let rest = block_row_candidates(ball, row.drop_last());
        let all = block_row_candidates(ball, row);
        assert forall|k: int| 0 <= k < all.len() implies refers_to_state(custom, walls, blocks, #[trigger] all[k]) by {
            if k < rest.len() {
                assert(all[k] == rest[k]);
            } else {
                let t = row.last()->Some_0;
                assert(all[k] == Candidate { time: t, source: Source::Block { ball: ball as usize, block: n as usize } });
            }
        }
    }
}

proof fn lemma_block_candidates_refer(
    custom: Seq<u64>,
    walls: Seq<Option<WallHit>>,
    blocks: Seq<Vec<Option<u64>>>,
    rows: Seq<Vec<Option<u64>>>,
)
    requires
        blocks.len() <= usize::MAX,
        forall|b: int| 0 <= b < blocks.len() ==> #[trigger] blocks[b]@.len() <= usize::MAX,
        rows.len() <= blocks.len(),
        rows =~= blocks.subrange(0, rows.len() as int),
    ensures
        forall|k: int|
            0 <= k < block_candidates(rows).len() ==> refers_to_state(
                custom,
                walls,
                blocks,
                #[trigger] block_candidates(rows)[k],
            ),
    decreases rows.len(),
{
    if rows.len() > 0 {
        let last = rows.len() - 1;
        assert(rows.drop_last() =~= blocks.subrange(0, last));
        assert(rows.last() == blocks[last]);
        lemma_block_candidates_refer(custom, walls, blocks, rows.drop_last());
        assert(rows.last()@ =~= blocks[last]@.subrange(0, rows.last()@.len() as int));
        lemma_row_candidates_refer(custom, walls, blocks, last, rows.last()@);
        let rest = block_candidates(rows.drop_last());
        let row = block_row_candidates(last, rows.last()@);
        let all = block_candidates(rows);
        assert(all == rest + row);
        assert forall|k: int| 0 <= k < all.len() implies refers_to_state(custom, walls, blocks, #[trigger] all[k]) by {
            if k < rest.len() {
                assert(all[k] == rest[k]);
            } else {
                assert(all[k] == row[k - rest.len()]);
            }
        }
    }
}

/// Every candidate of a state, and so every event the scheduler picks, names
/// indices that are valid in that state, before any reaction to it.
pub proof fn lemma_candidates_refer_to_state(
    custom: Seq<u64>,
    walls: Seq<Option<WallHit>>,
    blocks: Seq<Vec<Option<u64>>>,
)
    requires
        custom.len() <= usize::MAX,
        walls.len() <= usize::MAX,
        blocks.len() <= usize::MAX,
        forall|b: int| 0 <= b < blocks.len() ==> #[trigger] blocks[b]@.len() <= usize::MAX,
    ensures
        forall|k: int|
            0 <= k < candidates(custom, walls, blocks).len() ==> refers_to_state(
                custom,
                walls,
                blocks,
                #[trigger] candidates(custom, walls, blocks)[k],
            ),
{
    assert(walls =~= walls.subrange(0, walls.len() as int));
    lemma_wall_candidates_refer(custom, walls, blocks, walls);
    lemma_block_candidates_refer(custom, walls, blocks, blocks);
    assert(blocks =~= blocks.subrange(0, blocks.len() as int));
    let cc = custom_candidates(custom);
    let wc = wall_candidates(walls);
    let bc = block_candidates(blocks);
    assert forall|k: int| 0 <= k < candidates(custom, walls, blocks).len() implies refers_to_state(
        custom,
        walls,
        blocks,
        #[trigger] candidates(custom, walls, blocks)[k],
    ) by {
        let all = candidates(custom, walls, blocks);
        assert(all == cc + wc + bc);
        if k < cc.len() {
            assert(all[k] == cc[k]);
        } else if k < cc.len() + wc.len() {
            assert(candidates(custom, walls, blocks)[k] == wc[k - cc.len()]);
        } else {
            assert(candidates(custom, walls, blocks)[k] == bc[k - cc.len() - wc.len()]);
        }
    }
}

} // verus!
