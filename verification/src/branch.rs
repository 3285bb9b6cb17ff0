//! The tree node and its recursive operations.
//!
//! A `Branch` is one node of a strictly binary tree: at most two owned
//! children, no sharing, no cycles.  All quantities are fixed-point
//! integers: angles in milliradians, lengths in milli-pixels, stroke
//! weights in tenths.

use vstd::prelude::*;

verus! {

/// Largest creation depth the library accepts; keeps all length
/// arithmetic comfortably inside `i64`.
pub const DEPTH_CAP: i64 = 1_000_000_000;

/// One node of the tree.
pub struct Branch {
    /// Per-node angle contribution, in milliradians; always in `[0, 1500)`.
    pub angle_local: i64,
    /// Cumulative angle, in milliradians; shifted uniformly by `rotate`.
    pub angle_accum: i64,
    /// Segment length in milli-pixels; may go negative at high depth.
    pub length: i64,
    /// Creation depth; the root is constructed at depth 2.
    pub depth: i64,
    /// Stroke weight in tenths; starts at 3 and gains 3 per growth visit.
    pub weight: u64,
    /// Fixed RGBA colour, never changed after construction.
    pub color: (u8, u8, u8, u8),
    /// Optional owned left child.
    pub left: Option<Box<Branch>>,
    /// Optional owned right child.
    pub right: Option<Box<Branch>>,
}

impl Branch {
    /// Well-formedness: field ranges that construction establishes and
    /// every operation preserves, at every node of the tree.
    pub open spec fn wf(self) -> bool
        decreases self,
    {
        &&& 0 <= self.angle_local < 1500
        &&& 2 <= self.depth <= DEPTH_CAP
        &&& 40000 - 2000 * (self.depth - 1) <= self.length < 60000 - 2000 * (self.depth - 1)
        &&& 3 <= self.weight
        &&& self.weight % 3 == 0
        &&& self.color == (0u8, 0u8, 0u8, 255u8)
        &&& match self.left {
            Some(l) => l.wf(),
            None => true,
        }
        &&& match self.right {
            Some(r) => r.wf(),
            None => true,
        }
    }

    /// Number of nodes on the left spine, the root included.
    pub open spec fn left_spine_len(self) -> nat
        decreases self,
    {
        1 + match self.left {
            Some(l) => l.left_spine_len(),
            None => 0nat,
        }
    }

    /// Total number of nodes in the tree.
    pub open spec fn node_count(self) -> nat
        decreases self,
    {
        1 + (match self.left {
            Some(l) => l.node_count(),
            None => 0nat,
        }) + (match self.right {
            Some(r) => r.node_count(),
            None => 0nat,
        })
    }
}

/// A child freshly sampled from a parent's `angle_local` `pa`,
/// `angle_accum` `pb` and `depth` `pd`: a childless leaf whose fields lie
/// in the documented sampling ranges.
pub open spec fn fresh_child(c: Branch, pa: int, pb: int, pd: int) -> bool {
    &&& pa / 3 <= c.angle_local < pa / 3 + 1000
    &&& pb - 2000 <= c.angle_accum < pb + 2000
    &&& 40000 - 2000 * pd <= c.length < 60000 - 2000 * pd
    &&& c.depth == pd + 1
    &&& c.weight == 3
    &&& c.color == (0u8, 0u8, 0u8, 255u8)
    &&& c.left is None
    &&& c.right is None
}

/// One line segment to draw: the fields of one node, together with the
/// position `parent` of the node's parent in the draw list, so that a
/// renderer can start each segment at the tip of its parent's segment.
/// The root names itself as its parent.
#[derive(Clone, Copy, PartialEq, Eq, Debug)]
pub struct DrawCmd {
    /// The node's angle contribution, in milliradians.
    pub angle_local: i64,
    /// The node's cumulative angle, in milliradians.
    pub angle_accum: i64,
    /// The node's segment length, in milli-pixels.
    pub length: i64,
    /// The node's stroke weight, in tenths.
    pub weight: u64,
    /// The node's RGBA colour.
    pub color: (u8, u8, u8, u8),
    /// Index of the parent's command in the list; `0` for the root.
    pub parent: usize,
}

impl Branch {
    /// The draw list of the tree rooted here, assuming this node stands
    /// at index `me` of the whole list and its parent at index `parent`:
    /// the node's own segment first, then the whole left subtree, then
    /// the whole right subtree.  This fixes the draw order, and with it
    /// the z-order where segments overlap.
    pub open spec fn spec_cmds(self, me: int, parent: int) -> Seq<DrawCmd>
        decreases self,
    {
        seq![
            DrawCmd {
                angle_local: self.angle_local,
                angle_accum: self.angle_accum,
                length: self.length,
                weight: self.weight,
                color: self.color,
                parent: parent as usize,
            },
        ] + (match self.left {
            Some(l) => l.spec_cmds(me + 1, me),
            None => Seq::empty(),
        }) + (match self.right {
            Some(r) => r.spec_cmds(
                me + 1 + (match self.left {
                    Some(l) => l.node_count(),
                    None => 0nat,
                }),
                me,
            ),
            None => Seq::empty(),
        })
    }
}

/// The draw list has exactly one command per node.
pub proof fn lemma_cmds_len(t: Branch, me: int, parent: int)
    ensures
        t.spec_cmds(me, parent).len() == t.node_count(),
    decreases t,
{
    match t.left {
        Some(l) => lemma_cmds_len(*l, me + 1, me),
        None => {
        },
    }
    match t.right {
        Some(r) => lemma_cmds_len(
            *r,
            me + 1 + (match t.left {
                Some(l) => l.node_count(),
                None => 0nat,
            }),
            me,
        ),
        None => {
        },
    }
}

/// Appends the draw list of the tree rooted at `t` to `out`, in
/// pre-order, left subtree before right subtree.
fn push_cmds(t: &Branch, parent: usize, out: &mut Vec<DrawCmd>)
    ensures
        final(out)@ == old(out)@ + t.spec_cmds(old(out)@.len() as int, parent as int),
    decreases *t,
{
    let ghost me_spec = out@.len() as int;
    let me = out.len();
    out.push(
        DrawCmd {
            angle_local: t.angle_local,
            angle_accum: t.angle_accum,
            length: t.length,
            weight: t.weight,
            color: t.color,
            parent,
        },
    );
    match &t.left {
        None => {
        },
        Some(l) => {
            push_cmds(l, me, out);
            proof {
                lemma_cmds_len(**l, me_spec + 1, me_spec);
            }
        },
    }
    match &t.right {
        None => {
        },
        Some(r) => {
            push_cmds(r, me, out);
        },
    }
    proof {
        assert(out@ =~= old(out)@ + t.spec_cmds(me_spec, parent as int));
    }
}

impl Branch {
    /// The draw list of the whole tree: one command per node, in
    /// pre-order with the left subtree drawn fully before the right one.
    /// Turning each command into a line segment — origins chained from
    /// the parent's tip — is the renderer's part.
    pub fn draw_list(&self) -> (cmds: Vec<DrawCmd>)
        ensures
            cmds@ == self.spec_cmds(0, 0),
            cmds@.len() == self.node_count(),
    {
        let mut out: Vec<DrawCmd> = Vec::new();
        push_cmds(self, 0, &mut out);
        proof {
            lemma_cmds_len(*self, 0, 0);
            assert(out@ =~= self.spec_cmds(0, 0));
        }
        out
    }
}

/// Relies on `rand::thread_rng` and `rand::Rng::gen_range`: a uniform
/// draw from the non-empty range `[0, n)`.  Nothing more can be promised
/// of a random value than its range.
#[verifier::external_body]
fn sample_below(n: u64) -> (r: u64)
    requires
        n >= 1,
    ensures
        r < n,
{
    rand::Rng::gen_range(&mut rand::thread_rng(), 0..n)
}

impl Branch {
    /// Deterministic core of construction: builds the leaf that the three
    /// uniform draws `u_angle < 1000`, `u_accum < 4000` and
    /// `u_len < 20000` dictate.
    pub fn from_samples(pa: i64, pb: i64, pd: i64, u_angle: u64, u_accum: u64, u_len: u64) -> (c:
        Branch)
        requires
            0 <= pa < 1500,
            i64::MIN + 2000 <= pb <= i64::MAX - 2000,
            1 <= pd < DEPTH_CAP,
            u_angle < 1000,
            u_accum < 4000,
            u_len < 20000,
        ensures
            c.angle_local == pa / 3 + u_angle,
            c.angle_accum == pb - 2000 + u_accum,
            c.length == 40000 + u_len - 2000 * pd,
            fresh_child(c, pa as int, pb as int, pd as int),
            c.wf(),
    {
        Branch {
            angle_local: pa / 3 + (u_angle as i64),
            angle_accum: pb - 2000 + (u_accum as i64),
            length: 40000 + (u_len as i64) - 2000 * pd,
            depth: pd + 1,
            weight: 3,
            color: (0, 0, 0, 255),
            left: None,
            right: None,
        }
    }

    /// How one growth pass relates the old tree `o` to the new tree `n`:
    /// every existing node keeps its angles, length, depth and colour and
    /// gains 3 tenths of stroke weight; a missing left child is always
    /// filled with a fresh leaf; a missing right child is either left
    /// missing or filled with a fresh leaf; existing children are grown
    /// in turn.
    pub open spec fn grow_shape(o: Branch, n: Branch) -> bool
        decreases o,
    {
        &&& n.angle_local == o.angle_local
        &&& n.angle_accum == o.angle_accum
        &&& n.length == o.length
        &&& n.depth == o.depth
        &&& n.color == o.color
        &&& n.weight == o.weight + 3
        &&& match o.left {
            Some(ol) => n.left is Some && Branch::grow_shape(*ol, *n.left.unwrap()),
            None => n.left is Some && fresh_child(
                *n.left.unwrap(),
                o.angle_local as int,
                o.angle_accum as int,
                o.depth as int,
            ),
        }
        &&& match o.right {
            Some(or) => n.right is Some && Branch::grow_shape(*or, *n.right.unwrap()),
            None => n.right is None || fresh_child(
                *n.right.unwrap(),
                o.angle_local as int,
                o.angle_accum as int,
                o.depth as int,
            ),
        }
    }

    /// Headroom that one growth pass needs at every node: the stroke
    /// weight, the depth and the cumulative angle of a fresh child must
    /// all stay representable.
    pub open spec fn grow_ready(self) -> bool
        decreases self,
    {
        &&& self.weight + 3 <= u64::MAX
        &&& self.depth < DEPTH_CAP
        &&& i64::MIN + 2000 <= self.angle_accum <= i64::MAX - 2000
        &&& match self.left {
            Some(l) => l.grow_ready(),
            None => true,
        }
        &&& match self.right {
            Some(r) => r.grow_ready(),
            None => true,
        }
    }

    /// One growth pass: thickens every node by 3 tenths, always fills a
    /// missing left child with a fresh leaf, fills a missing right child
    /// with probability 0.12, and recurses into every existing child.
    /// The left spine therefore gains exactly one node.
    pub fn grow(&mut self)
        requires
            old(self).wf(),
            old(self).grow_ready(),
        ensures
            Branch::grow_shape(*old(self), *final(self)),
            final(self).wf(),
            final(self).left_spine_len() == old(self).left_spine_len() + 1,
        decreases *old(self),
    {
        self.weight = self.weight + 3;
        let pa = self.angle_local;
        let pb = self.angle_accum;
        let pd = self.depth;
        match self.left.take() {
            None => {
                self.left = Some(Box::new(Branch::new(pa, pb, pd)));
                proof {
                    assert(self.left.unwrap().left_spine_len() == 1);
                }
            },
            Some(mut l) => {
                (&mut *l).grow();
                self.left = Some(l);
            },
        }
        proof {
            assert(self.left_spine_len() == 1 + self.left.unwrap().left_spine_len());
            assert(old(self).left_spine_len() == 1 + match old(self).left {
                Some(ol) => ol.left_spine_len(),
                None => 0nat,
            });
        }
        match self.right.take() {
            None => {
                let coin = sample_below(1_000_000);
                if coin < 120_000 {
                    self.right = Some(Box::new(Branch::new(pa, pb, pd)));
                }
            },
            Some(mut r) => {
                (&mut *r).grow();
                self.right = Some(r);
            },
        }
    }

    /// Every node's creation depth is at most `d`.
    pub open spec fn depth_below(self, d: int) -> bool
        decreases self,
    {
        &&& self.depth <= d
        &&& match self.left {
            Some(l) => l.depth_below(d),
            None => true,
        }
        &&& match self.right {
            Some(r) => r.depth_below(d),
            None => true,
        }
    }

    /// Every node's stroke weight is at most `w`.
    pub open spec fn weight_below(self, w: int) -> bool
        decreases self,
    {
        &&& self.weight <= w
        &&& match self.left {
            Some(l) => l.weight_below(w),
            None => true,
        }
        &&& match self.right {
            Some(r) => r.weight_below(w),
            None => true,
        }
    }

    /// Every node's cumulative angle lies in `[lo, hi]`.
    pub open spec fn accum_within(self, lo: int, hi: int) -> bool
        decreases self,
    {
        &&& lo <= self.angle_accum <= hi
        &&& match self.left {
            Some(l) => l.accum_within(lo, hi),
            None => true,
        }
        &&& match self.right {
            Some(r) => r.accum_within(lo, hi),
            None => true,
        }
    }

    /// Whether adding `d` milliradians to every node's cumulative angle
    /// stays representable.
    pub open spec fn can_rotate(self, d: int) -> bool
        decreases self,
    {
        &&& i64::MIN <= self.angle_accum + d <= i64::MAX
        &&& match self.left {
            Some(l) => l.can_rotate(d),
            None => true,
        }
        &&& match self.right {
            Some(r) => r.can_rotate(d),
            None => true,
        }
    }

    /// How a rotation by `d` relates the old tree `o` to the new tree
    /// `n`: every node's cumulative angle gains exactly `d` and nothing
    /// else changes, so relative branch angles are preserved and the tree
    /// turns rigidly.
    pub open spec fn rotated(o: Branch, n: Branch, d: int) -> bool
        decreases o,
    {
        &&& n.angle_local == o.angle_local
        &&& n.angle_accum == o.angle_accum + d
        &&& n.length == o.length
        &&& n.depth == o.depth
        &&& n.weight == o.weight
        &&& n.color == o.color
        &&& match o.left {
            Some(ol) => n.left is Some && Branch::rotated(*ol, *n.left.unwrap(), d),
            None => n.left is None,
        }
        &&& match o.right {
            Some(or) => n.right is Some && Branch::rotated(*or, *n.right.unwrap(), d),
            None => n.right is None,
        }
    }

    /// Adds `d` milliradians to this node's cumulative angle and recurses
    /// into both children with the same delta.
    pub fn rotate(&mut self, d: i64)
        requires
            old(self).can_rotate(d as int),
        ensures
            Branch::rotated(*old(self), *final(self), d as int),
        decreases *old(self),
    {
        self.angle_accum = self.angle_accum + d;
        match self.left.take() {
            None => {
            },
            Some(mut l) => {
                (&mut *l).rotate(d);
                self.left = Some(l);
            },
        }
        match self.right.take() {
            None => {
            },
            Some(mut r) => {
                (&mut *r).rotate(d);
                self.right = Some(r);
            },
        }
    }

    /// Reports whether a rotation by `d` is representable, so that an
    /// unverified caller can test `rotate`'s precondition first.
    pub fn rotate_ok(&self, d: i64) -> (r: bool)
        ensures
            r == self.can_rotate(d as int),
        decreases *self,
    {
        let here = if d >= 0 {
            self.angle_accum <= i64::MAX - d
        } else {
            self.angle_accum >= i64::MIN - d
        };
        if !here {
            return false;
        }
        let left_ok = match &self.left {
            None => true,
            Some(l) => l.rotate_ok(d),
        };
        if !left_ok {
            return false;
        }
        match &self.right {
            None => true,
            Some(r) => r.rotate_ok(d),
        }
    }

    /// Builds a fresh leaf from a parent's `angle_local` `pa`,
    /// `angle_accum` `pb` and `depth` `pd`, sampling the three uniform
    /// draws: the new angle contribution is `pa/3` plus a draw from
    /// `[0, 1000)`, the new cumulative angle is `pb` plus a draw from
    /// `[-2000, 2000)`, and the new length is a draw from
    /// `[40000, 60000)` minus `2000 * pd`.
    pub fn new(pa: i64, pb: i64, pd: i64) -> (c: Branch)
        requires
            0 <= pa < 1500,
            i64::MIN + 2000 <= pb <= i64::MAX - 2000,
            1 <= pd < DEPTH_CAP,
        ensures
            fresh_child(c, pa as int, pb as int, pd as int),
            c.wf(),
    {
        let u_angle = sample_below(1000);
        let u_accum = sample_below(4000);
        let u_len = sample_below(20000);
        Branch::from_samples(pa, pb, pd, u_angle, u_accum, u_len)
    }
}

} // verus!
