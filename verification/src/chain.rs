//! The segment chain: an arena of segments linked from head to tail, and the
//! two operations that change it, propagation and growth at the tail.

use vstd::prelude::*;
use crate::grid::{lemma_behind_undoes_in_front, Direction, GridCell};

verus! {

/// Where a segment is and which way it faces.
#[derive(Clone, Copy, Debug, PartialEq, Eq, Structural)]
pub struct Pose {
    pub cell: GridCell,
    pub direction: Direction,
}

/// One segment as stored in the arena. `parent` and `child` are handles of
/// other segments of the same chain; they describe the topology and own
/// nothing.
#[derive(Clone, Copy, Debug, PartialEq, Eq)]
pub struct Segment {
    pub cell: GridCell,
    pub direction: Direction,
    pub parent: Option<usize>,
    pub child: Option<usize>,
}

/// Why the chain refused a change.
#[derive(Clone, Copy, Debug, PartialEq, Eq, Structural)]
pub enum ChainError {
    /// The segment named as parent of a new segment is not the tail.
    NotTail,
}

/// A snake body. The view is the sequence of poses from head to tail.
pub struct Chain {
    segments: Vec<Segment>,
}

/// The pose of a segment that follows directly behind `p`.
pub open spec fn follower_of(p: Pose) -> Pose {
    Pose { cell: p.cell.spec_behind(p.direction), direction: p.direction }
}

/// The body after one segment was added behind its tail.
pub open spec fn extended(s: Seq<Pose>) -> Seq<Pose> {
    s.push(follower_of(s.last()))
}

/// The body after `n` segments were added behind its tail, one after the
/// other.
pub open spec fn grown(s: Seq<Pose>, n: nat) -> Seq<Pose>
    decreases n,
{
    if n == 0 {
        s
    } else {
        extended(grown(s, (n - 1) as nat))
    }
}

/// The body after one step with the head steered towards `d`: the head moves
/// one cell along `d` and faces `d`; every other segment takes the cell and
/// the facing that its parent had before the step.
pub open spec fn propagated(s: Seq<Pose>, d: Direction) -> Seq<Pose> {
    Seq::new(
        s.len(),
        |i: int|
            if i == 0 {
                Pose { cell: s[0].cell.spec_in_front(d), direction: d }
            } else {
                s[i - 1]
            },
    )
}

/// The segment at place `i` sits directly behind the one before it, seen
/// along that one's facing.
pub open spec fn sits_behind_parent(s: Seq<Pose>, i: int) -> bool {
    s[i].cell == follower_of(s[i - 1]).cell
}

/// Every segment but the head sits directly behind its parent: the body has
/// no gap and no overlap between neighbours.
pub open spec fn contiguous(s: Seq<Pose>) -> bool {
    forall|i: int| 1 <= i < s.len() ==> #[trigger] sits_behind_parent(s, i)
}

impl View for Chain {
    type V = Seq<Pose>;

    closed spec fn view(&self) -> Seq<Pose> {
        Seq::new(
            self.segments@.len(),
            |i: int| Pose { cell: self.segments@[i].cell, direction: self.segments@[i].direction },
        )
    }
}

impl Chain {
    /// The parent link of the segment with handle `i`.
    pub closed spec fn parent_of(&self, i: int) -> Option<usize> {
        self.segments@[i].parent
    }

    /// The child link of the segment with handle `i`.
    pub closed spec fn child_of(&self, i: int) -> Option<usize> {
        self.segments@[i].child
    }

    /// The links agree with the order of the arena: handle 0 is the head,
    /// each later segment is the child of the one before it, and the last
    /// one is the tail.
    pub open spec fn wf(&self) -> bool {
        &&& self@.len() >= 1
        &&& forall|i: int|
            0 <= i < self@.len() ==> match #[trigger] self.parent_of(i) {
                None => i == 0,
                Some(p) => i > 0 && p == i - 1,
            }
        &&& forall|i: int|
            0 <= i < self@.len() ==> match #[trigger] self.child_of(i) {
                None => i == self@.len() - 1,
                Some(c) => i < self@.len() - 1 && c == i + 1,
            }
    }

    /// The handle reached from `start` by following `k` child links, if the
    /// walk gets that far.
    pub open spec fn follow(&self, start: int, k: nat) -> Option<int>
        decreases k,
    {
        if k == 0 {
            if 0 <= start < self@.len() {
                Some(start)
            } else {
                None
            }
        } else {
            match self.follow(start, (k - 1) as nat) {
                Some(j) => match self.child_of(j) {
                    Some(c) => Some(c as int),
                    None => None,
                },
                None => None,
            }
        }
    }

    /// A chain of one segment at `position`, facing the default direction.
    pub fn create_head(position: GridCell) -> (chain: Chain)
        ensures
            chain.wf(),
            chain@ == seq![Pose { cell: position, direction: Direction::Down }],
    {
        let mut segments: Vec<Segment> = Vec::new();
        segments.push(
            Segment { cell: position, direction: Direction::Down, parent: None, child: None },
        );
        let chain = Chain { segments };
        assert(chain@ =~= seq![Pose { cell: position, direction: Direction::Down }]);
        chain
    }

    /// The number of segments.
    pub fn len(&self) -> (n: usize)
        ensures
            n == self@.len(),
    {
        self.segments.len()
    }

    /// The handle of the head, the one segment without a parent.
    pub fn head(&self) -> (h: usize)
        requires
            self.wf(),
        ensures
            h == 0,
            h < self@.len(),
            self.parent_of(h as int) is None,
    {
        0
    }

    /// The handle of the tail, found by scanning for the one segment
    /// without a child.
    pub fn find_tail(&self) -> (t: usize)
        requires
            self.wf(),
        ensures
            t == self@.len() - 1,
            self.child_of(t as int) is None,
    {
        let mut i: usize = 0;
        while self.segments[i].child.is_some()
            invariant
                self.wf(),
                i < self@.len(),
            decreases self@.len() - i,
        {
            assert(self.child_of(i as int) is Some);
            i += 1;
        }
        i
    }

    /// The segment with the given handle, or `None` if the chain has no
    /// such segment.
    pub fn segment(&self, handle: usize) -> (r: Option<Segment>)
        ensures
            match r {
                Some(s) => {
                    &&& handle < self@.len()
                    &&& s.cell == self@[handle as int].cell
                    &&& s.direction == self@[handle as int].direction
                    &&& s.parent == self.parent_of(handle as int)
                    &&& s.child == self.child_of(handle as int)
                },
                None => handle >= self@.len(),
            },
    {
        if handle < self.segments.len() {
            Some(self.segments[handle])
        } else {
            None
        }
    }

    /// The poses of all segments, head first.
    pub fn poses(&self) -> (v: Vec<Pose>)
        ensures
            v@ == self@,
    {
        let n: usize = self.segments.len();
        let mut v: Vec<Pose> = Vec::new();
        let mut i: usize = 0;
        while i < n
            invariant
                n == self.segments@.len(),
                i <= n,
                v@.len() == i,
                forall|j: int| 0 <= j < i ==> v@[j] == self@[j],
            decreases n - i,
        {
            let s: Segment = self.segments[i];
            v.push(Pose { cell: s.cell, direction: s.direction });
            i += 1;
        }
        assert(v@ =~= self@);
        v
    }

    /// Adds a segment with the given pose behind the tail. `parent` must be
    /// the handle of the current tail; any other handle is refused and the
    /// chain stays as it was.
    pub fn append_to_tail(
        &mut self,
        new_position: GridCell,
        new_direction: Direction,
        parent: usize,
    ) -> (r: Result<usize, ChainError>)
        requires
            old(self).wf(),
        ensures
            final(self).wf(),
            match r {
                Ok(handle) => {
                    &&& parent == old(self)@.len() - 1
                    &&& handle == old(self)@.len()
                    &&& final(self)@ == old(self)@.push(
                        Pose { cell: new_position, direction: new_direction },
                    )
                },
                Err(e) => {
                    &&& e == ChainError::NotTail
                    &&& parent != old(self)@.len() - 1
                    &&& *final(self) == *old(self)
                },
            },
    {
        let n: usize = self.segments.len();
        if parent != n - 1 {
            return Err(ChainError::NotTail);
        }
        let mut tail: Segment = self.segments[parent];
        tail.child = Some(n);
        self.segments.set(parent, tail);
        self.segments.push(
            Segment {
                cell: new_position,
                direction: new_direction,
                parent: Some(parent),
                child: None,
            },
        );
        assert(self@ =~= old(self)@.push(Pose { cell: new_position, direction: new_direction }));
        assert forall|i: int| 0 <= i < self@.len() implies match #[trigger] self.parent_of(i) {
            None => i == 0,
            Some(p) => i > 0 && p == i - 1,
        } by {
            if i < n {
                assert(self.parent_of(i) == old(self).parent_of(i));
            }
        }
        assert forall|i: int| 0 <= i < self@.len() implies match #[trigger] self.child_of(i) {
            None => i == self@.len() - 1,
            Some(c) => i < self@.len() - 1 && c == i + 1,
        } by {
            if i < n - 1 {
                assert(self.child_of(i) == old(self).child_of(i));
            }
        }
        Ok(n)
    }

    /// Adds one segment directly behind the tail, facing as the tail does.
    /// Returns the handle of the new tail.
    pub fn grow_tail(&mut self) -> (handle: usize)
        requires
            old(self).wf(),
        ensures
            final(self).wf(),
            final(self)@ == extended(old(self)@),
            handle == old(self)@.len(),
            final(self).child_of(handle as int) is None,
    {
        let t: usize = self.find_tail();
        let tail: Segment = self.segments[t];
        let cell: GridCell = tail.cell.behind(&tail.direction);
        match self.append_to_tail(cell, tail.direction, t) {
            Ok(handle) => {
                assert(self.child_of(handle as int) is None);
                handle
            },
            // Not reached: `t` is the tail, so the chain accepts it as parent.
            Err(_) => t,
        }
    }

    /// A chain of `length` segments whose head is at `position` and faces
    /// `facing`, the rest lined up behind it.
    pub fn with_length(position: GridCell, facing: Direction, length: usize) -> (chain: Chain)
        requires
            length >= 1,
        ensures
            chain.wf(),
            chain@ == grown(seq![Pose { cell: position, direction: facing }], (length - 1) as nat),
            chain@.len() == length,
    {
        let mut segments: Vec<Segment> = Vec::new();
        segments.push(Segment { cell: position, direction: facing, parent: None, child: None });
        let mut chain = Chain { segments };
        let ghost start = seq![Pose { cell: position, direction: facing }];
        assert(chain@ =~= start);
        let mut i: usize = 1;
        while i < length
            invariant
                1 <= i <= length,
                chain.wf(),
                chain@ == grown(start, (i - 1) as nat),
                chain@.len() == i,
            decreases length - i,
        {
            chain.grow_tail();
            i += 1;
        }
        chain
    }

    /// Moves the whole chain by one step with the head steered towards
    /// `head_direction`. All poses are read before any is written, so each
    /// follower gets what its parent had before the step, in whatever order
    /// the segments are visited. The links stay as they are. A body without
    /// gaps ends the step with every follower directly behind its parent.
    pub fn propagate(&mut self, head_direction: Direction)
        requires
            old(self).wf(),
        ensures
            final(self).wf(),
            final(self)@ == propagated(old(self)@, head_direction),
            contiguous(old(self)@) ==> contiguous(final(self)@),
    {
        let n: usize = self.segments.len();
        let snapshot: Vec<Pose> = self.poses();
        let mut head: Segment = self.segments[0];
        head.cell = snapshot[0].cell.in_front(&head_direction);
        head.direction = head_direction;
        self.segments.set(0, head);
        let mut i: usize = 0;
        while i < n
            invariant
                i <= n,
                n == self.segments@.len(),
                n == snapshot@.len(),
                snapshot@ == old(self)@,
                old(self).wf(),
                forall|j: int| 0 <= j < n ==> self.parent_of(j) == old(self).parent_of(j),
                forall|j: int| 0 <= j < n ==> self.child_of(j) == old(self).child_of(j),
                self@[0] == propagated(old(self)@, head_direction)[0],
                forall|j: int| 1 <= j <= i && j < n ==> self@[j] == snapshot@[j - 1],
                forall|j: int| i < j < n ==> self@[j] == snapshot@[j],
            decreases n - i,
        {
            assert(old(self).child_of(i as int) == self.segments@[i as int].child);
            match self.segments[i].child {
                Some(c) => {
                    let ghost before = self@;
                    let mut follower: Segment = self.segments[c];
                    follower.cell = snapshot[i].cell;
                    follower.direction = snapshot[i].direction;
                    self.segments.set(c, follower);
                    assert(self@ =~= before.update(c as int, snapshot@[i as int]));
                },
                None => {},
            }
            i += 1;
        }
        assert(self@ =~= propagated(old(self)@, head_direction));
        assert forall|j: int| 0 <= j < self@.len() implies match #[trigger] self.parent_of(j) {
            None => j == 0,
            Some(p) => j > 0 && p == j - 1,
        } by {
            assert(self.parent_of(j) == old(self).parent_of(j));
        }
        assert forall|j: int| 0 <= j < self@.len() implies match #[trigger] self.child_of(j) {
            None => j == self@.len() - 1,
            Some(c) => j < self@.len() - 1 && c == j + 1,
        } by {
            assert(self.child_of(j) == old(self).child_of(j));
        }
        proof {
            if contiguous(old(self)@) {
                lemma_propagated_contiguous(old(self)@, head_direction);
            }
        }
    }
}

/// A well-formed chain has at least one segment and exactly one segment
/// without a parent, the head.
pub proof fn lemma_one_head(c: Chain)
    requires
        c.wf(),
    ensures
        c@.len() >= 1,
        c.parent_of(0) is None,
        forall|i: int| 0 <= i < c@.len() && c.parent_of(i) is None ==> i == 0,
{
}

/// A well-formed chain has exactly one segment without a child, the tail.
pub proof fn lemma_one_tail(c: Chain)
    requires
        c.wf(),
    ensures
        c.child_of(c@.len() - 1) is None,
        forall|i: int| 0 <= i < c@.len() && c.child_of(i) is None ==> i == c@.len() - 1,
{
}

/// In a well-formed chain the two links mirror each other: `j` is the child
/// of `i` exactly if `i` is the parent of `j`.
pub proof fn lemma_links_mirror(c: Chain, i: int, j: int)
    requires
        c.wf(),
        0 <= i < c@.len(),
        0 <= j < c@.len(),
    ensures
        (c.child_of(i) matches Some(x) && x == j) <==> (c.parent_of(j) matches Some(y) && y == i),
{
}

/// Following child links from the head of a well-formed chain meets every
/// segment exactly once, in the order of the view, and stops behind the
/// tail: the chain has no cycle and no segment that the head does not reach.
pub proof fn lemma_walk_from_head(c: Chain, k: nat)
    requires
        c.wf(),
    ensures
        k < c@.len() ==> c.follow(0, k) == Some(k as int),
        k >= c@.len() ==> c.follow(0, k) is None,
    decreases k,
{
    if k > 0 {
        lemma_walk_from_head(c, (k - 1) as nat);
        if k - 1 < c@.len() {
            assert(c.child_of(k - 1) is None <==> k - 1 == c@.len() - 1);
        }
    }
}

/// Growing by `n` segments adds exactly `n` poses and leaves the poses that
/// were there untouched.
pub proof fn lemma_grown_len(s: Seq<Pose>, n: nat)
    ensures
        grown(s, n).len() == s.len() + n,
        forall|i: int| 0 <= i < s.len() ==> grown(s, n)[i] == s[i],
    decreases n,
{
    if n > 0 {
        lemma_grown_len(s, (n - 1) as nat);
    }
}

/// A step keeps a gap-free body gap-free, whichever way the head is steered.
pub proof fn lemma_propagated_contiguous(s: Seq<Pose>, d: Direction)
    requires
        s.len() >= 1,
        contiguous(s),
    ensures
        contiguous(propagated(s, d)),
{
    let t = propagated(s, d);
    assert forall|i: int| 1 <= i < t.len() implies #[trigger] sits_behind_parent(t, i) by {
        if i == 1 {
            lemma_behind_undoes_in_front(s[0].cell, d);
        } else {
            assert(sits_behind_parent(s, i - 1));
        }
    }
}

/// Growth keeps a gap-free body gap-free.
pub proof fn lemma_grown_contiguous(s: Seq<Pose>, n: nat)
    requires
        s.len() >= 1,
        contiguous(s),
    ensures
        contiguous(grown(s, n)),
    decreases n,
{
    if n > 0 {
        lemma_grown_contiguous(s, (n - 1) as nat);
        lemma_grown_len(s, (n - 1) as nat);
        let g = grown(s, (n - 1) as nat);
        let e = extended(g);
        assert forall|i: int| 1 <= i < e.len() implies #[trigger] sits_behind_parent(e, i) by {
            if i < g.len() {
                assert(sits_behind_parent(g, i));
            }
        }
    }
}

} // verus!
