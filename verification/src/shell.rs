//! The application shell: one tree, the last seen cursor x-coordinate,
//! and the event handlers that mutate them.
//!
//! Cursor positions are kept in milli-pixels, so a cursor displacement of
//! `p` pixels is `1000 * p` here, and the rotation it causes — one
//! hundredth of a radian per pixel — is `(1000 * p) / 100` milliradians.

use vstd::prelude::*;
use crate::branch::Branch;
use crate::branch::DrawCmd;
use crate::branch::fresh_child;
use crate::laws::grow_chain;
use crate::laws::lemma_grow_ready_from_bounds;
use crate::laws::lemma_grow_shape_bounds;
use crate::laws::lemma_rotated_wf;

verus! {

/// Truncating division by 100, the mapping from a cursor displacement in
/// milli-pixels to a rotation in milliradians.
pub open spec fn rot_delta(dif: int) -> int {
    if dif >= 0 {
        dif / 100
    } else {
        -((-dif) / 100)
    }
}

/// Whether `mx - x` is representable in `i64`.
pub open spec fn can_sub(mx: int, x: int) -> bool {
    i64::MIN <= mx - x <= i64::MAX
}

/// Truncating division of a displacement by 100.
fn div_100_trunc(d: i64) -> (q: i64)
    ensures
        q == rot_delta(d as int),
{
    if d >= 0 {
        ((d as u64) / 100) as i64
    } else {
        let m: u64 = ((-(d + 1)) as u64) + 1;
        -((m / 100) as i64)
    }
}

/// The application: the current tree and the last seen cursor
/// x-coordinate in milli-pixels.
pub struct App {
    /// The tree being displayed.
    pub tree: Branch,
    /// The cursor x-coordinate recorded at the previous cursor event.
    pub mousex: i64,
}

impl App {
    /// A fresh application: a one-node tree sampled from the sentinel
    /// parent values, and the cursor assumed at 600 pixels.
    pub fn new() -> (app: App)
        ensures
            fresh_child(app.tree, 0, 0, 1),
            app.tree.wf(),
            app.mousex == 600_000,
    {
        App { tree: Branch::new(0, 0, 1), mousex: 600_000 }
    }

    /// Discards the tree and builds a new one: a fresh root followed by
    /// 20 growth passes, so the left spine holds exactly 21 nodes and
    /// the root's stroke weight is 63 tenths.  The resulting tree is one
    /// growth chain from a fresh root.
    pub fn init(&mut self)
        ensures
            final(self).mousex == old(self).mousex,
            final(self).tree.wf(),
            final(self).tree.left_spine_len() == 21,
            final(self).tree.node_count() >= 21,
            final(self).tree.weight == 63,
            final(self).tree.depth_below(22),
            final(self).tree.weight_below(63),
            final(self).tree.accum_within(-42000, 42000),
            exists|ts: Seq<Branch>|
                grow_chain(ts) && ts.len() == 21 && fresh_child(ts[0], 0, 0, 1) && ts[20]
                    == final(self).tree,
    {
        self.tree = Branch::new(0, 0, 1);
        let ghost mut ts: Seq<Branch> = seq![self.tree];
        proof {
            assert(self.tree.left_spine_len() == 1);
            assert(self.tree.depth_below(2));
            assert(self.tree.weight_below(3));
            assert(self.tree.accum_within(-2000, 2000));
        }
        let mut i: usize = 0;
        while i < 20
            invariant
                i <= 20,
                self.tree.wf(),
                ts.len() == i + 1,
                grow_chain(ts),
                fresh_child(ts[0], 0, 0, 1),
                ts[i as int] == self.tree,
                self.tree.left_spine_len() == i + 1,
                self.tree.weight == 3 + 3 * i,
                self.tree.depth_below(2 + i as int),
                self.tree.weight_below(3 + 3 * i as int),
                self.tree.accum_within(-2000 * (i + 1) as int, 2000 * (i + 1) as int),
                self.mousex == old(self).mousex,
            decreases 20 - i,
        {
            proof {
                lemma_grow_ready_from_bounds(
                    self.tree,
                    2 + i as int,
                    3 + 3 * i as int,
                    -2000 * (i + 1) as int,
                    2000 * (i + 1) as int,
                );
            }
            let ghost prev = self.tree;
            self.tree.grow();
            proof {
                lemma_grow_shape_bounds(
                    prev,
                    self.tree,
                    2 + i as int,
                    3 + 3 * i as int,
                    -2000 * (i + 1) as int,
                    2000 * (i + 1) as int,
                );
                ts = ts.push(self.tree);
                assert forall|j: int| 0 <= j && j + 1 < ts.len() implies #[trigger] Branch::grow_shape(
                    ts[j],
                    ts[j + 1],
                ) by {
                    if j + 1 < ts.len() - 1 {
                        assert(Branch::grow_shape(ts.drop_last()[j], ts.drop_last()[j + 1]));
                    }
                }
            }
            i = i + 1;
        }
        proof {
            crate::laws::lemma_count_ge_spine(self.tree);
        }
    }

    /// One update tick: rotates the whole tree by 1 milliradian, the
    /// continuous slow rotation.  If some node's cumulative angle could
    /// not take the shift, the tree is left untouched instead.
    pub fn update(&mut self)
        ensures
            final(self).mousex == old(self).mousex,
            old(self).tree.can_rotate(1) ==> Branch::rotated(old(self).tree, final(self).tree, 1),
            !old(self).tree.can_rotate(1) ==> final(self).tree == old(self).tree,
            old(self).tree.wf() ==> final(self).tree.wf(),
    {
        if self.tree.rotate_ok(1) {
            let ghost prev = self.tree;
            self.tree.rotate(1);
            proof {
                if prev.wf() {
                    lemma_rotated_wf(prev, self.tree, 1);
                }
            }
        }
    }

    /// One cursor event at x-coordinate `x` milli-pixels: records `x`
    /// unconditionally, and rotates the tree by one hundredth of the
    /// displacement `old mousex - x`, in milliradians.  If the
    /// displacement or the rotation is not representable, the tree is
    /// left untouched instead.
    pub fn on_cursor_move(&mut self, x: i64)
        ensures
            final(self).mousex == x,
            can_sub(old(self).mousex as int, x as int) && old(self).tree.can_rotate(
                rot_delta(old(self).mousex - x),
            ) ==> Branch::rotated(
                old(self).tree,
                final(self).tree,
                rot_delta(old(self).mousex - x),
            ),
            !(can_sub(old(self).mousex as int, x as int) && old(self).tree.can_rotate(
                rot_delta(old(self).mousex - x),
            )) ==> final(self).tree == old(self).tree,
            old(self).tree.wf() ==> final(self).tree.wf(),
    {
        let sub_ok = if x >= 0 {
            self.mousex >= i64::MIN + x
        } else {
            self.mousex <= i64::MAX + x
        };
        if sub_ok {
            let dif = self.mousex - x;
            let delta = div_100_trunc(dif);
            if self.tree.rotate_ok(delta) {
                let ghost prev = self.tree;
                self.tree.rotate(delta);
                proof {
                    if prev.wf() {
                        lemma_rotated_wf(prev, self.tree, delta as int);
                    }
                }
            }
        }
        self.mousex = x;
    }

    /// The draw list of the current tree, in draw order; the canvas is
    /// cleared and each command turned into a line segment elsewhere.
    pub fn render_list(&self) -> (cmds: Vec<DrawCmd>)
        ensures
            cmds@ == self.tree.spec_cmds(0, 0),
            cmds@.len() == self.tree.node_count(),
    {
        self.tree.draw_list()
    }
}

/// The colour the canvas is cleared to on every frame: opaque white.
pub fn clear_color() -> (c: (u8, u8, u8, u8))
    ensures
        c == (255u8, 255u8, 255u8, 255u8),
{
    (255, 255, 255, 255)
}

} // verus!
