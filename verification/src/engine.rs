//! The growth engine: a stochastic state machine that walks branch tips
//! across the terminal grid, spawns child branches, and records one styled
//! draw event per surviving step.
//!
//! A branch call's loop can be interrupted mid-step when it spawns a child
//! (the child grows to completion before the parent finishes its step), so
//! the engine keeps its branch calls as explicit frames on a stack: the top
//! frame is the branch currently growing, and a frame whose `pending` move is
//! set is a parent waiting for the child above it to finish.

use vstd::prelude::*;

use crate::model::{BranchKind, Position, Val};
use crate::random::{gen_i32, gen_range};
use crate::utility::{choose_color, choose_string, set_deltas};
use crate::model::kind_label;
use crate::Config;
use crate::base_offset;

verus! {

/// Run-wide bookkeeping shared by every branch of one generation run.
///
/// `shoot_counter` alternates the direction of successive shoots; it starts
/// at a small drawn value and each shoot spawn moves it by exactly one, so
/// its evenness flips from shoot to shoot.  `tree_bottom` is the lowest row
/// the tree may occupy, above the reserved base-art rows.
pub struct Counters {
    pub shoots: i32,
    pub branches: i32,
    pub shoot_counter: i32,
    pub tree_bottom: u16,
    /// The direction of every shoot spawned so far, in spawn order;
    /// `true` is a left shoot.
    pub directions: Ghost<Seq<bool>>,
}

/// Whether an `i32` counter currently sits on an even value.
pub open spec fn is_even(c: i32) -> bool {
    (c as int) % 2 == 0
}

/// A sequence of shoot directions that strictly alternates.
pub open spec fn alternating(s: Seq<bool>) -> bool {
    forall|i: int| 1 <= i < s.len() ==> #[trigger] s[i] != s[i - 1]
}

impl Counters {
    /// The directions recorded so far alternate, and the newest one matches
    /// the evenness of the shoot counter that selected it.
    pub open spec fn wf(self) -> bool {
        &&& alternating(self.directions@)
        &&& self.directions@.len() > 0 ==> self.directions@.last() == is_even(self.shoot_counter)
    }

    /// Fresh bookkeeping for one generation run.
    pub fn new(shoot_counter: i32, tree_bottom: u16) -> (counters: Counters)
        ensures
            counters.wf(),
            counters.shoots == 0,
            counters.branches == 0,
            counters.shoot_counter == shoot_counter,
            counters.tree_bottom == tree_bottom,
            counters.directions@ == Seq::<bool>::empty(),
    {
        Counters {
            shoots: 0,
            branches: 0,
            shoot_counter,
            tree_bottom,
            directions: Ghost(Seq::empty()),
        }
    }
}

/// A step's movement, kept aside while a spawned child finishes growing.
#[derive(Clone, Copy, PartialEq, Eq, Structural, Debug)]
pub struct PendingMove {
    pub dx: i32,
    pub dy: i32,
}

/// One branch call's live state: its kind, tip position, remaining life and
/// per-call shoot cooldown, plus the interrupted step's movement while a
/// spawned child grows.
#[derive(Clone, Copy, PartialEq, Eq, Structural, Debug)]
pub struct Frame {
    pub kind: BranchKind,
    pub pos: Position,
    pub life: i32,
    pub shoot_cooldown: i32,
    pub pending: Option<PendingMove>,
}

/// A position inside the drawable terminal area.
pub open spec fn spec_in_bounds(p: Position, max_x: u16, max_y: u16) -> bool {
    &&& 0 <= (p.x as int) < (max_x as int)
    &&& 0 <= (p.y as int) < (max_y as int)
}

/// Exec counterpart of `spec_in_bounds`.
pub fn in_bounds(p: Position, max_x: u16, max_y: u16) -> (b: bool)
    ensures
        b == spec_in_bounds(p, max_x, max_y),
{
    p.x >= 0 && p.x < max_x as i32 && p.y >= 0 && p.y < max_y as i32
}

/// What the engine maintains of every frame on the stack.
///
/// A tip never drifts more than one step beyond the drawable area (the next
/// iteration retires it), never sinks below the tree floor, and its cooldown
/// has room for one decrement per remaining life.  A frame with a pending
/// move was interrupted in bounds, carries a one-step move, and only moves
/// down when it stands above the damping boundary one row over the floor.
pub open spec fn frame_wf(f: Frame, max_x: u16, max_y: u16, floor: u16) -> bool {
    &&& -3 <= (f.pos.x as int) <= (max_x as int + 2)
    &&& -1 <= (f.pos.y as int) <= (floor as int)
    &&& f.shoot_cooldown as int >= i32::MIN as int + f.life as int + if f.pending is Some {
        1int
    } else {
        0int
    }
    &&& match f.pending {
        Some(p) => {
            &&& spec_in_bounds(f.pos, max_x, max_y)
            &&& -3 <= (p.dx as int) <= 3
            &&& -1 <= (p.dy as int) <= 1
            &&& p.dy > 0 ==> (f.pos.y as int) < (floor as int - 1)
            &&& f.life >= 0
        },
        None => true,
    }
}

/// Every frame of the stack is well formed.
pub open spec fn stack_wf(s: Seq<Frame>, max_x: u16, max_y: u16, floor: u16) -> bool {
    forall|i: int| 0 <= i < s.len() ==> #[trigger] frame_wf(s[i], max_x, max_y, floor)
}

/// What the engine guarantees of every recorded draw event: its cell lies in
/// the drawable area and never below the tree floor.
pub open spec fn val_ok(v: Val, max_x: u16, max_y: u16, floor: u16) -> bool {
    &&& 0 <= (v.pos.x as int) < (max_x as int)
    &&& 0 <= (v.pos.y as int) < (max_y as int)
    &&& v.pos.y as int <= floor as int
}

/// What every recorded draw event carries on its face: a one-step move, a
/// nonnegative remaining life, and a branch kind — readable from the label —
/// whose glyph law and palette the event obeys.
pub open spec fn val_coherent(v: Val) -> bool {
    &&& -3 <= (v.dx as int) <= 3
    &&& -1 <= (v.dy as int) <= 1
    &&& v.life >= 0
    &&& exists|k: BranchKind|
        {
            &&& #[trigger] crate::model::spec_kind_label(k) == v.branch_type@
            &&& v.char@ == crate::utility::spec_glyph(k, v.life as int, v.dx as int, v.dy as int)
            &&& crate::utility::spec_style_ok(k, v.style)
        }
}

/// The draw event one surviving step records: the step's movement, glyph,
/// style, and the bookkeeping snapshot the diagnostic overlay shows.
pub open spec fn spec_emitted(v: Val, f: Frame, dx: i32, dy: i32, shoots: i32) -> bool {
    &&& v.pos == f.pos
    &&& v.dx == dx
    &&& v.dy == dy
    &&& v.life == f.life
    &&& v.shoots == shoots
    &&& v.shoot_cooldown == f.shoot_cooldown
    &&& v.char@ == crate::utility::spec_glyph(f.kind, f.life as int, dx as int, dy as int)
    &&& v.branch_type@ == crate::model::spec_kind_label(f.kind)
    &&& crate::utility::spec_style_ok(f.kind, v.style)
}

/// Finishes one growth step of a frame: ticks the shoot cooldown down, moves
/// the tip by the drawn step, and records a draw event unless the new cell
/// lies outside the drawable area (a tip may wait out of bounds without
/// retiring; the next iteration retires it before it moves again).
fn finish_move(
    tree: &mut Vec<Val>,
    rng: &mut rand::rngs::StdRng,
    f: &mut Frame,
    dx: i32,
    dy: i32,
    shoots: i32,
    max_x: u16,
    max_y: u16,
    floor: u16,
)
    requires
        -3 <= (dx as int) <= 3,
        -1 <= (dy as int) <= 1,
        spec_in_bounds(old(f).pos, max_x, max_y),
        old(f).pos.y as int <= floor as int,
        dy > 0 ==> (old(f).pos.y as int) < (floor as int - 1),
        old(f).shoot_cooldown as int > i32::MIN as int,
        old(f).life >= 0,
    ensures
        final(f).kind == old(f).kind,
        final(f).life == old(f).life,
        final(f).pending == old(f).pending,
        final(f).shoot_cooldown == old(f).shoot_cooldown - 1,
        final(f).pos.x as int == old(f).pos.x as int + dx as int,
        final(f).pos.y as int == old(f).pos.y as int + dy as int,
        final(f).pos.y as int <= floor as int,
        spec_in_bounds(final(f).pos, max_x, max_y) ==> {
            &&& final(tree)@.len() == old(tree)@.len() + 1
            &&& old(tree)@.is_prefix_of(final(tree)@)
            &&& spec_emitted(final(tree)@.last(), *final(f), dx, dy, shoots)
            &&& val_coherent(final(tree)@.last())
        },
        !spec_in_bounds(final(f).pos, max_x, max_y) ==> final(tree)@ == old(tree)@,
{
    f.shoot_cooldown = f.shoot_cooldown - 1;
    f.pos.x = f.pos.x + dx;
    f.pos.y = f.pos.y + dy;
    if in_bounds(f.pos, max_x, max_y) {
        let glyph = choose_string(f.kind, f.life, dx, dy);
        let style = choose_color(f.kind, rng);
        let label = kind_label(f.kind);
        tree.push(
            Val {
                pos: f.pos,
                style,
                char: glyph,
                branch_type: label,
                dx,
                dy,
                life: f.life,
                shoots,
                shoot_cooldown: f.shoot_cooldown,
            },
        );
        proof {
            // the frame's own kind witnesses the event's coherence
            assert(crate::model::spec_kind_label(f.kind) == tree@.last().branch_type@);
        }
    }
}

/// Evenness flips whenever a counter moves by one, wrap-around included.
proof fn lemma_parity_flip(c: i32)
    ensures
        is_even(c.wrapping_add(1)) == !is_even(c),
{
}

/// An alternating direction log stays alternating when the next direction
/// differs from the newest one.
proof fn lemma_alternating_push(s: Seq<bool>, b: bool)
    requires
        alternating(s),
        s.len() > 0 ==> b != s.last(),
    ensures
        alternating(s.push(b)),
{
    let t = s.push(b);
    assert forall|i: int| 1 <= i < t.len() implies #[trigger] t[i] != t[i - 1] by {
        if i < s.len() {
            assert(t[i] == s[i] && t[i - 1] == s[i - 1]);
        } else {
            assert(t[i] == b && t[i - 1] == s[i - 1]);
        }
    }
}

/// Performs one micro-step of a growth run on the branch frame atop the
/// stack: resumes an interrupted step, retires a spent or strayed branch,
/// or runs one loop iteration of the top branch call — drawing its step,
/// spawning a child where the rules demand or the draws allow, and otherwise
/// finishing the step in place.
///
/// The contract pins down everything that does not depend on a hidden draw:
/// life falls by exactly one per iteration and no child is ever given a
/// negative life; a branch whose life falls under 3 always spawns a `Dead`
/// child on the spot, and a growing branch under the dying threshold a
/// `Dying` child, both leaving the parent's position and cooldown untouched;
/// a shoot spawn happens only for a trunk whose cooldown has elapsed, resets
/// that cooldown to twice the multiplier, gives the child the parent's life
/// plus the multiplier, moves the shoot counter by exactly one and logs a
/// direction opposite to the previous shoot's; a fork spawns a second trunk
/// only above life 7, with a life within two of the parent's, under the same
/// cooldown reset; the branch tally moves by one exactly when a child is
/// spawned; and every step that finishes — freshly or resumed after a child —
/// ticks the cooldown down by exactly one, moves the tip by the damped step,
/// and records exactly one fully described draw event unless the tip landed
/// outside the drawable area.
pub fn grow_step(
    config: &Config,
    counters: &mut Counters,
    tree: &mut Vec<Val>,
    rng: &mut rand::rngs::StdRng,
    stack: &mut Vec<Frame>,
    max_x: u16,
    max_y: u16,
)
    requires
        config.wf(),
        old(counters).wf(),
        old(counters).tree_bottom <= max_y,
        old(stack)@.len() > 0,
        stack_wf(old(stack)@, max_x, max_y, old(counters).tree_bottom),
    ensures
        final(counters).wf(),
        final(counters).tree_bottom == old(counters).tree_bottom,
        stack_wf(final(stack)@, max_x, max_y, old(counters).tree_bottom),
        old(stack)@.len() - 1 <= final(stack)@.len() <= old(stack)@.len() + 1,
        forall|i: int| 0 <= i < old(stack)@.len() - 1 ==> final(stack)@[i] == old(stack)@[i],
        old(tree)@.is_prefix_of(final(tree)@),
        forall|i: int|
            old(tree)@.len() <= i < final(tree)@.len() ==> val_ok(
                #[trigger] final(tree)@[i],
                max_x,
                max_y,
                old(counters).tree_bottom,
            ) && val_coherent(final(tree)@[i]),
        old(counters).directions@.is_prefix_of(final(counters).directions@),
        ({
            let f = old(stack)@.last();
            let floor = old(counters).tree_bottom;
            &&& (f.pending is Some ==> {
                let p = f.pending.unwrap();
                &&& final(stack)@.len() == old(stack)@.len()
                &&& final(stack)@.last().kind == f.kind
                &&& final(stack)@.last().life == f.life
                &&& final(stack)@.last().pending is None
                &&& final(stack)@.last().shoot_cooldown == f.shoot_cooldown - 1
                &&& final(stack)@.last().pos.x as int == f.pos.x as int + p.dx as int
                &&& final(stack)@.last().pos.y as int == f.pos.y as int + p.dy as int
                &&& final(stack)@.last().pos.y as int <= (if f.pos.y as int >= floor as int - 1 {
                    f.pos.y as int
                } else {
                    floor as int - 1
                })
                &&& *final(counters) == *old(counters)
                &&& (spec_in_bounds(final(stack)@.last().pos, max_x, max_y) ==> {
                    &&& final(tree)@.len() == old(tree)@.len() + 1
                    &&& spec_emitted(
                        final(tree)@.last(),
                        final(stack)@.last(),
                        p.dx,
                        p.dy,
                        old(counters).shoots,
                    )
                })
                &&& (!spec_in_bounds(final(stack)@.last().pos, max_x, max_y) ==> final(tree)@
                    == old(tree)@)
            })
            &&& (f.pending is None && f.life <= 0 ==> {
                &&& final(stack)@ == old(stack)@.drop_last()
                &&& final(tree)@ == old(tree)@
                &&& *final(counters) == *old(counters)
            })
            &&& (f.pending is None && f.life > 0 && !spec_in_bounds(f.pos, max_x, max_y) ==> {
                &&& final(stack)@ == old(stack)@.drop_last()
                &&& final(tree)@ == old(tree)@
                &&& *final(counters) == *old(counters)
            })
            &&& (f.pending is None && f.life > 0 && spec_in_bounds(f.pos, max_x, max_y) ==> {
                let life1 = f.life - 1;
                &&& final(stack)@.len() >= old(stack)@.len()
                &&& final(stack)@[old(stack)@.len() - 1].kind == f.kind
                &&& final(stack)@[old(stack)@.len() - 1].life == life1
                &&& life1 >= 0
                &&& (final(stack)@.len() == old(stack)@.len() + 1 <==> final(stack)@[old(
                    stack,
                )@.len() - 1].pending is Some)
                &&& (life1 < 3 ==> {
                    &&& final(stack)@.len() == old(stack)@.len() + 1
                    &&& final(stack)@.last().kind is Dead
                    &&& final(stack)@.last().life == life1
                })
                &&& (life1 >= 3 && f.kind.is_growing() && life1 < config.multiplier + 2 ==> {
                    &&& final(stack)@.len() == old(stack)@.len() + 1
                    &&& final(stack)@.last().kind is Dying
                    &&& final(stack)@.last().life == life1
                })
                &&& (life1 >= 3 && !(f.kind.is_growing() && life1 < config.multiplier + 2) && !(
                f.kind is Trunk) ==> final(stack)@.len() == old(stack)@.len())
                &&& (final(stack)@.len() == old(stack)@.len() + 1 ==> {
                    &&& final(stack)@.last().pos == f.pos
                    &&& final(stack)@.last().pending is None
                    &&& final(stack)@.last().shoot_cooldown == config.multiplier
                    &&& final(stack)@.last().life >= 0
                    &&& final(tree)@ == old(tree)@
                    &&& final(stack)@[old(stack)@.len() - 1].pos == f.pos
                    &&& final(counters).branches == old(counters).branches.wrapping_add(1)
                    &&& (f.kind is Trunk && life1 < 4 ==> {
                        let p = final(stack)@[old(stack)@.len() - 1].pending.unwrap();
                        &&& p.dy == 0
                        &&& -1 <= (p.dx as int) <= 1
                    })
                })
                &&& (final(stack)@.len() == old(stack)@.len() ==> final(counters).branches
                    == old(counters).branches)
                &&& (life1 < 3 ==> final(stack)@[old(stack)@.len() - 1].shoot_cooldown
                    == f.shoot_cooldown)
                &&& (life1 >= 3 && f.kind.is_growing() && life1 < config.multiplier + 2
                    ==> final(stack)@[old(stack)@.len() - 1].shoot_cooldown == f.shoot_cooldown)
                &&& (final(stack)@.len() == old(stack)@.len() + 1 && life1 >= 3 && !(
                f.kind.is_growing() && life1 < config.multiplier + 2) && final(counters).shoots
                    == old(counters).shoots ==> {
                    &&& f.kind is Trunk
                    &&& life1 > 7
                    &&& final(stack)@.last().kind is Trunk
                    &&& life1 - 2 <= (final(stack)@.last().life as int) <= life1 + 2
                    &&& final(stack)@[old(stack)@.len() - 1].shoot_cooldown == config.multiplier
                        * 2
                })
                &&& (final(stack)@.len() == old(stack)@.len() + 1 && life1 >= 3
                    ==> !(final(stack)@.last().kind is Dead))
                &&& (final(stack)@.len() == old(stack)@.len() + 1 && life1 >= 3
                    && !(f.kind.is_growing() && life1 < config.multiplier + 2)
                    ==> !(final(stack)@.last().kind is Dying))
                &&& (final(counters).shoots != old(counters).shoots ==> {
                    &&& f.kind is Trunk
                    &&& f.shoot_cooldown <= 0
                    &&& life1 >= config.multiplier + 2
                    &&& final(stack)@.len() == old(stack)@.len() + 1
                    &&& final(stack)@[old(stack)@.len() - 1].shoot_cooldown == config.multiplier
                        * 2
                    &&& final(counters).shoots == old(counters).shoots.wrapping_add(1)
                    &&& final(counters).shoot_counter == old(
                        counters,
                    ).shoot_counter.wrapping_add(1)
                    &&& final(counters).directions@ == old(counters).directions@.push(
                        is_even(final(counters).shoot_counter),
                    )
                    &&& (final(stack)@.last().kind is ShootLeft <==> is_even(
                        final(counters).shoot_counter,
                    ))
                    &&& (final(stack)@.last().kind is ShootRight <==> !is_even(
                        final(counters).shoot_counter,
                    ))
                    &&& final(stack)@.last().life as int == (if life1 + config.multiplier
                        > i32::MAX as int {
                        i32::MAX as int
                    } else {
                        life1 + config.multiplier
                    })
                })
                &&& (final(counters).shoots == old(counters).shoots ==> {
                    &&& final(counters).shoot_counter == old(counters).shoot_counter
                    &&& final(counters).directions@ == old(counters).directions@
                })
                &&& (final(stack)@.len() == old(stack)@.len() && final(stack)@[old(stack)@.len()
                    - 1].pending is None ==> {
                    let g = final(stack)@.last();
                    &&& g.shoot_cooldown == f.shoot_cooldown - 1
                    &&& f.pos.x as int - 3 <= g.pos.x as int <= f.pos.x as int + 3
                    &&& f.pos.y as int - 1 <= g.pos.y as int <= f.pos.y as int + 1
                    &&& g.pos.y as int <= (if f.pos.y as int >= floor as int - 1 {
                        f.pos.y as int
                    } else {
                        floor as int - 1
                    })
                    &&& (spec_in_bounds(g.pos, max_x, max_y) ==> {
                        &&& final(tree)@.len() == old(tree)@.len() + 1
                        &&& spec_emitted(
                            final(tree)@.last(),
                            g,
                            ((g.pos.x as int) - (f.pos.x as int)) as i32,
                            ((g.pos.y as int) - (f.pos.y as int)) as i32,
                            final(counters).shoots,
                        )
                    })
                    &&& (!spec_in_bounds(g.pos, max_x, max_y) ==> final(tree)@ == old(tree)@)
                })
            })
        }),
{
    let ghost floor = counters.tree_bottom;
    let mut f = stack.pop().unwrap();
    proof {
        assert(frame_wf(old(stack)@[old(stack)@.len() - 1], max_x, max_y, floor));
        assert(f == old(stack)@.last());
    }
    match f.pending {
        Some(p) => {
            f.pending = None;
            finish_move(
                tree,
                rng,
                &mut f,
                p.dx,
                p.dy,
                counters.shoots,
                max_x,
                max_y,
                counters.tree_bottom,
            );
            stack.push(f);
        },
        None => {
            if f.life <= 0 {
                // this branch call is spent
            } else {
                f.life = f.life - 1;
                let age = config.life.wrapping_sub(f.life);
                let (dx, dy_raw) = set_deltas(f.kind, f.life, age, config.multiplier, rng);
                // damp a downward step from the row above the tree floor on down
                let dy = if dy_raw > 0 && f.pos.y >= counters.tree_bottom as i32 - 1 {
                    dy_raw - 1
                } else {
                    dy_raw
                };
                if f.pos.x < 0 || f.pos.x >= max_x as i32 || f.pos.y < 0 || f.pos.y >= max_y
                    as i32 {
                    // the tip strayed outside the terminal: retire the branch
                } else if f.life < 3 {
                    counters.branches = counters.branches.wrapping_add(1);
                    let child = Frame {
                        kind: BranchKind::Dead,
                        pos: f.pos,
                        life: f.life,
                        shoot_cooldown: config.multiplier,
                        pending: None,
                    };
                    f.pending = Some(PendingMove { dx, dy });
                    stack.push(f);
                    stack.push(child);
                } else {
                    let growing = f.kind == BranchKind::Trunk || f.kind == BranchKind::ShootLeft
                        || f.kind == BranchKind::ShootRight;
                    if growing && f.life < config.multiplier + 2 {
                        counters.branches = counters.branches.wrapping_add(1);
                        let child = Frame {
                            kind: BranchKind::Dying,
                            pos: f.pos,
                            life: f.life,
                            shoot_cooldown: config.multiplier,
                            pending: None,
                        };
                        f.pending = Some(PendingMove { dx, dy });
                        stack.push(f);
                        stack.push(child);
                    } else if f.kind == BranchKind::Trunk && (gen_range(rng, 0, 3) == 0 || f.life
                        % config.multiplier == 0) {
                        if gen_range(rng, 0, 8) == 0 && f.life > 7 {
                            // fork: a second trunk with jittered life
                            f.shoot_cooldown = config.multiplier * 2;
                            let jitter = gen_range(rng, -2, 3);
                            let fork_life = match f.life.checked_add(jitter) {
                                Some(v) => v,
                                None => i32::MAX,
                            };
                            counters.branches = counters.branches.wrapping_add(1);
                            let child = Frame {
                                kind: BranchKind::Trunk,
                                pos: f.pos,
                                life: fork_life,
                                shoot_cooldown: config.multiplier,
                                pending: None,
                            };
                            f.pending = Some(PendingMove { dx, dy });
                            stack.push(f);
                            stack.push(child);
                        } else if f.shoot_cooldown <= 0 {
                            // shoot: alternate direction by the run-wide counter
                            f.shoot_cooldown = config.multiplier * 2;
                            let shoot_life = match f.life.checked_add(config.multiplier) {
                                Some(v) => v,
                                None => i32::MAX,
                            };
                            let ghost c0 = counters.shoot_counter;
                            counters.shoots = counters.shoots.wrapping_add(1);
                            counters.shoot_counter = counters.shoot_counter.wrapping_add(1);
                            let dir_left = counters.shoot_counter % 2 == 0;
                            proof {
                                lemma_parity_flip(c0);
                                lemma_alternating_push(counters.directions@, is_even(counters.shoot_counter));
                            }
                            counters.directions = Ghost(
                                counters.directions@.push(is_even(counters.shoot_counter)),
                            );
                            let kind = if dir_left {
                                BranchKind::ShootLeft
                            } else {
                                BranchKind::ShootRight
                            };
                            counters.branches = counters.branches.wrapping_add(1);
                            let child = Frame {
                                kind,
                                pos: f.pos,
                                life: shoot_life,
                                shoot_cooldown: config.multiplier,
                                pending: None,
                            };
                            f.pending = Some(PendingMove { dx, dy });
                            stack.push(f);
                            stack.push(child);
                        } else {
                            finish_move(
                                tree,
                                rng,
                                &mut f,
                                dx,
                                dy,
                                counters.shoots,
                                max_x,
                                max_y,
                                counters.tree_bottom,
                            );
                            stack.push(f);
                        }
                    } else {
                        finish_move(
                            tree,
                            rng,
                            &mut f,
                            dx,
                            dy,
                            counters.shoots,
                            max_x,
                            max_y,
                            counters.tree_bottom,
                        );
                        stack.push(f);
                    }
                }
            }
        },
    }
}

/// Whether a run of one single iteration surely records its event: a trunk
/// whose start cell is drawable and at least one cell from the side edges,
/// so its level, one-cell step cannot leave the terminal.
pub open spec fn short_run_room(pos: Position, kind: BranchKind, max_x: u16, max_y: u16) -> bool {
    &&& kind is Trunk
    &&& 1 <= (pos.x as int) <= (max_x as int - 2)
    &&& 0 <= (pos.y as int) < (max_y as int)
}

/// The states a run started with one unit of life passes through: its single
/// iteration drops life to nothing, spawns one spent child that never runs,
/// and keeps one near-root step pending; so the run records at most one
/// event — and exactly one where `short_run_room` holds.
pub open spec fn short_run_state(
    s: Seq<Frame>,
    t: Seq<Val>,
    t0: Seq<Val>,
    pos: Position,
    kind: BranchKind,
    fuel: u64,
    max_x: u16,
    max_y: u16,
) -> bool {
    ||| {
        &&& s.len() == 1
        &&& s[0].kind == kind
        &&& s[0].life == 1
        &&& s[0].pending is None
        &&& s[0].pos == pos
        &&& t == t0
        &&& fuel == u64::MAX
    }
    ||| {
        &&& s.len() == 2
        &&& s[0].kind == kind
        &&& s[0].life == 0
        &&& s[0].pending is Some
        &&& s[0].pos == pos
        &&& (kind is Trunk ==> s[0].pending.unwrap().dy == 0 && -1 <= (s[0].pending.unwrap().dx
            as int) <= 1)
        &&& s[1].life <= 0
        &&& s[1].pending is None
        &&& t == t0
        &&& fuel as int >= u64::MAX as int - 1
    }
    ||| {
        &&& s.len() == 1
        &&& s[0].kind == kind
        &&& s[0].life == 0
        &&& s[0].pending is Some
        &&& s[0].pos == pos
        &&& (kind is Trunk ==> s[0].pending.unwrap().dy == 0 && -1 <= (s[0].pending.unwrap().dx
            as int) <= 1)
        &&& t == t0
        &&& fuel as int >= u64::MAX as int - 2
    }
    ||| {
        &&& s.len() == 1
        &&& s[0].life <= 0
        &&& s[0].pending is None
        &&& t0.len() <= t.len() <= t0.len() + 1
        &&& (short_run_room(pos, kind, max_x, max_y) ==> t.len() == t0.len() + 1)
        &&& fuel as int >= u64::MAX as int - 3
    }
    ||| {
        &&& s.len() == 0
        &&& t0.len() <= t.len() <= t0.len() + 1
        &&& (short_run_room(pos, kind, max_x, max_y) ==> t.len() == t0.len() + 1)
    }
}

/// Grows one branch call and every branch it transitively spawns, appending
/// their draw events to `tree` in the order they are drawn.
///
/// Every appended event lies inside the drawable area and above the tree
/// floor, whatever the generator returns.  The run is bounded by an immense
/// step budget so that the engine is total; no physically realizable run
/// comes near it.
pub fn branch(
    config: &Config,
    counters: &mut Counters,
    tree: &mut Vec<Val>,
    rng: &mut rand::rngs::StdRng,
    pos: Position,
    branch_type: BranchKind,
    life: i32,
    max_x: u16,
    max_y: u16,
)
    requires
        config.wf(),
        old(counters).wf(),
        old(counters).tree_bottom <= max_y,
        0 <= (pos.x as int) <= (max_x as int),
        0 <= (pos.y as int) <= (old(counters).tree_bottom as int),
    ensures
        final(counters).wf(),
        final(counters).tree_bottom == old(counters).tree_bottom,
        old(tree)@.is_prefix_of(final(tree)@),
        forall|i: int|
            old(tree)@.len() <= i < final(tree)@.len() ==> val_ok(
                #[trigger] final(tree)@[i],
                max_x,
                max_y,
                old(counters).tree_bottom,
            ) && val_coherent(final(tree)@[i]),
        old(counters).directions@.is_prefix_of(final(counters).directions@),
        life == 1 ==> final(tree)@.len() <= old(tree)@.len() + 1,
        life == 1 && short_run_room(pos, branch_type, max_x, max_y) ==> final(tree)@.len() == old(
            tree,
        )@.len() + 1,
{
    counters.branches = counters.branches.wrapping_add(1);
    let mut stack: Vec<Frame> = Vec::new();
    stack.push(
        Frame { kind: branch_type, pos, life, shoot_cooldown: config.multiplier, pending: None },
    );
    let mut fuel: u64 = u64::MAX;
    while stack.len() > 0 && fuel > 0
        invariant
            config.wf(),
            counters.wf(),
            counters.tree_bottom == old(counters).tree_bottom,
            counters.tree_bottom <= max_y,
            stack_wf(stack@, max_x, max_y, counters.tree_bottom),
            old(tree)@.is_prefix_of(tree@),
            forall|i: int|
                old(tree)@.len() <= i < tree@.len() ==> val_ok(
                    #[trigger] tree@[i],
                    max_x,
                    max_y,
                    counters.tree_bottom,
                ) && val_coherent(tree@[i]),
            old(counters).directions@.is_prefix_of(counters.directions@),
            life == 1 ==> short_run_state(
                stack@,
                tree@,
                old(tree)@,
                pos,
                branch_type,
                fuel,
                max_x,
                max_y,
            ),
        decreases fuel,
    {
        fuel = fuel - 1;
        let ghost prev_tree = tree@;
        let ghost prev_dirs = counters.directions@;
        let ghost prev_stack = stack@;
        grow_step(config, counters, tree, rng, &mut stack, max_x, max_y);
        proof {
            assert(old(tree)@.is_prefix_of(tree@)) by {
                assert(old(tree)@ =~= tree@.subrange(0, old(tree)@.len() as int));
            }
            assert(old(counters).directions@.is_prefix_of(counters.directions@)) by {
                assert(old(counters).directions@ =~= counters.directions@.subrange(
                    0,
                    old(counters).directions@.len() as int,
                ));
            }
            assert forall|i: int| old(tree)@.len() <= i < tree@.len() implies val_ok(
                #[trigger] tree@[i],
                max_x,
                max_y,
                counters.tree_bottom,
            ) && val_coherent(tree@[i]) by {
                if i < prev_tree.len() {
                    assert(tree@[i] == prev_tree[i]);
                }
            }
            if life == 1 {
                assert(short_run_state(
                    stack@,
                    tree@,
                    old(tree)@,
                    pos,
                    branch_type,
                    fuel,
                    max_x,
                    max_y,
                ));
            }
        }
    }
}

/// Grows a whole tree for a terminal of `max_x` by `max_y` cells: reserves
/// the base-art rows, seeds the run-wide counters from one draw, and grows a
/// trunk from the bottom center.  The result is the ordered draw-event
/// sequence that is the tree; every event lies inside the terminal and above
/// the tree floor.
pub fn grow_tree(
    config: &Config,
    max_x: u16,
    max_y: u16,
    rng: &mut rand::rngs::StdRng,
) -> (tree: Vec<Val>)
    requires
        config.wf(),
        crate::spec_base_offset(config.base) <= max_y,
    ensures
        forall|i: int|
            0 <= i < tree@.len() ==> val_ok(
                #[trigger] tree@[i],
                max_x,
                max_y,
                (max_y - crate::spec_base_offset(config.base)) as u16,
            ) && val_coherent(tree@[i]),
        config.life == 1 ==> tree@.len() <= 1,
        config.life == 1 && crate::spec_base_offset(config.base) >= 1 && max_x >= 3 ==> tree@.len()
            == 1,
{
    let offset = base_offset(config.base);
    let floor = max_y - offset;
    proof {
        // with room below for the base and three columns across, the lone
        // near-root step of a one-life trunk cannot leave the terminal
        if crate::spec_base_offset(config.base) >= 1 && max_x >= 3 {
            assert(1 <= (max_x as int) / 2 <= (max_x as int - 2));
            assert((floor as int) < (max_y as int));
        }
    }
    // the shoot counter starts on a small drawn value, so whether the first
    // shoot goes left or right varies from seed to seed
    let start = gen_i32(rng) % 3 + 1;
    let mut counters = Counters::new(start, floor);
    let mut tree: Vec<Val> = Vec::new();
    branch(
        config,
        &mut counters,
        &mut tree,
        rng,
        Position { x: (max_x / 2) as i32, y: floor as i32 },
        BranchKind::Trunk,
        config.life,
        max_x,
        max_y,
    );
    tree
}

/// Shoot direction alternates strictly left/right across the run-wide spawn
/// order: the direction log of any well-formed run never repeats, however
/// many trunk forks interleave their growth.
pub proof fn lemma_shoot_directions_alternate(counters: Counters)
    requires
        counters.wf(),
    ensures
        forall|i: int|
            1 <= i < counters.directions@.len() ==> #[trigger] counters.directions@[i]
                != counters.directions@[i - 1],
{
}

} // verus!
