//! The gesture state machine: a single-slot pending-gesture queue.
//!
//! At most one gesture is ever live.  A new gesture is accepted only
//! while the slot is idle; an incompatible request arriving while a
//! gesture is live is dropped, not queued (so a wheel event during a
//! drag never alters the transform, and a pointer press during a zoom
//! pulse never starts a drag).  A drag previews its offset on every
//! redraw without touching the transform, and folds the net displacement
//! in exactly once, when the committed drag is consumed by a redraw
//! tick.

use vstd::prelude::*;

use crate::rat::{rat_int, rat_wf, Frac, Rat};
use crate::transform::{czoom_ok, czoom_spec, ImageTransformation, TransformV};
use crate::types::{v2_add, v2_add_ok, v2_norm, v2_sub, v2_sub_ok, v2_wf, Vec2D, V2};

verus! {

/// The mathematical value of the pending-gesture slot.
pub ghost enum PendingV {
    Idle,
    Dragging { start: V2, current: V2, committed: bool },
    ZoomPulse { magnitude: Rat, cursor: V2 },
}

/// All pairs held by the slot denote rational numbers.
pub open spec fn pending_wf(p: PendingV) -> bool {
    match p {
        PendingV::Idle => true,
        PendingV::Dragging { start, current, committed: _ } => v2_wf(start) && v2_wf(current),
        PendingV::ZoomPulse { magnitude, cursor } => rat_wf(magnitude) && v2_wf(cursor),
    }
}

/// The slot holds a drag that has not been committed yet.
pub open spec fn is_live_drag(p: PendingV) -> bool {
    p matches PendingV::Dragging { committed: false, .. }
}

/// The start position of a drag (zero if the slot holds no drag).
pub open spec fn drag_start(p: PendingV) -> V2 {
    match p {
        PendingV::Dragging { start, .. } => start,
        _ => V2 { x: rat_int(0), y: rat_int(0) },
    }
}

/// The current position of a drag (zero if the slot holds no drag).
pub open spec fn drag_current(p: PendingV) -> V2 {
    match p {
        PendingV::Dragging { current, .. } => current,
        _ => V2 { x: rat_int(0), y: rat_int(0) },
    }
}

/// The offset a drag previews: the resting offset plus the net
/// displacement `current - start`, or the resting offset unchanged if a
/// pair would leave the `i64` range.
pub open spec fn preview_offset(off: V2, start: V2, current: V2) -> V2 {
    if v2_sub_ok(current, start) && v2_add_ok(off, v2_sub(current, start)) {
        v2_add(off, v2_sub(current, start))
    } else {
        off
    }
}

/// The offset a committed drag stores: the previewed offset, brought to
/// lowest terms, or the resting offset unchanged if a pair would leave
/// the `i64` range.
pub open spec fn commit_offset(off: V2, start: V2, current: V2) -> V2 {
    if v2_sub_ok(current, start) && v2_add_ok(off, v2_sub(current, start)) {
        v2_norm(v2_add(off, v2_sub(current, start)))
    } else {
        off
    }
}

/// What a pointer press does to the slot: a drag starts only from idle.
pub open spec fn pend_down(p: PendingV, pos: V2) -> PendingV {
    if p is Idle {
        PendingV::Dragging { start: pos, current: pos, committed: false }
    } else {
        p
    }
}

/// What a pointer move does to the slot: only a live drag follows it.
pub open spec fn pend_move(p: PendingV, pos: V2) -> PendingV {
    match p {
        PendingV::Dragging { start, current: _, committed: false } => PendingV::Dragging {
            start,
            current: pos,
            committed: false,
        },
        _ => p,
    }
}

/// What a pointer release (or a loss of focus) does to the slot: a drag
/// is marked committed, to be folded in on the next redraw tick.
pub open spec fn pend_up(p: PendingV) -> PendingV {
    match p {
        PendingV::Dragging { start, current, committed: _ } => PendingV::Dragging {
            start,
            current,
            committed: true,
        },
        _ => p,
    }
}

/// What a wheel event does to the slot: a zoom pulse starts only from
/// idle; during a drag the event is dropped.
pub open spec fn pend_wheel(p: PendingV, magnitude: Rat, cursor: V2) -> PendingV {
    if p is Idle {
        PendingV::ZoomPulse { magnitude, cursor }
    } else {
        p
    }
}

/// The slot and the transform together.
pub ghost struct EngineV {
    pub pending: PendingV,
    pub transform: TransformV,
}

/// What a redraw tick does to slot and transform: an uncommitted drag
/// and an idle slot change nothing; a committed drag folds its net
/// displacement into the offset and empties the slot; a zoom pulse
/// applies the cursor-anchored zoom (a no-op when out of band or out of
/// range) and empties the slot.
pub open spec fn tick_spec(e: EngineV) -> EngineV {
    match e.pending {
        PendingV::Idle => e,
        PendingV::Dragging { start, current, committed } => {
            if committed {
                EngineV {
                    pending: PendingV::Idle,
                    transform: TransformV {
                        mat: e.transform.mat,
                        off: commit_offset(e.transform.off, start, current),
                    },
                }
            } else {
                e
            }
        },
        PendingV::ZoomPulse { magnitude, cursor } => EngineV {
            pending: PendingV::Idle,
            transform: if czoom_ok(e.transform, magnitude, cursor) {
                czoom_spec(e.transform, magnitude, cursor)
            } else {
                e.transform
            },
        },
    }
}

/// The tick that consumes a committed drag or a zoom pulse reports a
/// completed gesture.
pub open spec fn tick_completes(p: PendingV) -> bool {
    match p {
        PendingV::Idle => false,
        PendingV::Dragging { committed, .. } => committed,
        PendingV::ZoomPulse { .. } => true,
    }
}

/// The pending-gesture slot: at most one gesture is live at a time.
#[derive(Clone, Copy, Debug)]
pub enum PendingGesture {
    Idle,
    Dragging { start: Vec2D, current: Vec2D, committed: bool },
    ZoomPulse { magnitude: Frac, cursor: Vec2D },
}

impl View for PendingGesture {
    type V = PendingV;

    open spec fn view(&self) -> PendingV {
        match *self {
            PendingGesture::Idle => PendingV::Idle,
            PendingGesture::Dragging { start, current, committed } => PendingV::Dragging {
                start: start@,
                current: current@,
                committed,
            },
            PendingGesture::ZoomPulse { magnitude, cursor } => PendingV::ZoomPulse {
                magnitude: magnitude@,
                cursor: cursor@,
            },
        }
    }
}

/// What a redraw tick hands to the rendering collaborator: the offset to
/// draw with this frame, and whether a gesture was just completed.
#[derive(Clone, Copy, Debug)]
pub struct TickResult {
    pub offset: Vec2D,
    pub completed: bool,
}

/// Classifies raw pointer and wheel events into the single pending
/// gesture and drives the transform on each redraw tick.
#[derive(Clone, Copy, Debug)]
pub struct GestureController {
    pub pending: PendingGesture,
}

impl GestureController {
    pub open spec fn wf(&self) -> bool {
        pending_wf(self.pending@)
    }

    /// A fresh controller with an idle slot.
    pub fn new() -> (r: GestureController)
        ensures
            r.wf(),
            r.pending@ is Idle,
    {
        GestureController { pending: PendingGesture::Idle }
    }

    /// A primary-button press: starts a drag if the slot is idle, and is
    /// dropped otherwise (in particular while a zoom pulse is pending).
    pub fn pointer_down(&mut self, pos: Vec2D) -> (accepted: bool)
        requires
            old(self).wf(),
            pos.wf(),
        ensures
            final(self).wf(),
            final(self).pending@ == pend_down(old(self).pending@, pos@),
            accepted == (old(self).pending@ is Idle),
    {
        match &self.pending {
            PendingGesture::Idle => {
                self.pending = PendingGesture::Dragging {
                    start: pos,
                    current: pos,
                    committed: false,
                };
                true
            },
            _ => false,
        }
    }

    /// A pointer move: updates the current position of a live drag, and
    /// is ignored otherwise.  Answers whether a redraw is wanted.
    pub fn pointer_move(&mut self, pos: Vec2D) -> (redraw: bool)
        requires
            old(self).wf(),
            pos.wf(),
        ensures
            final(self).wf(),
            final(self).pending@ == pend_move(old(self).pending@, pos@),
            redraw == is_live_drag(old(self).pending@),
    {
        let p = self.pending;
        match p {
            PendingGesture::Dragging { start, current: _, committed: false } => {
                self.pending = PendingGesture::Dragging {
                    start,
                    current: pos,
                    committed: false,
                };
                true
            },
            _ => false,
        }
    }

    /// A pointer release: marks a drag committed, so the next redraw
    /// tick folds it in.  Answers whether a redraw is wanted.
    pub fn pointer_up(&mut self) -> (redraw: bool)
        requires
            old(self).wf(),
        ensures
            final(self).wf(),
            final(self).pending@ == pend_up(old(self).pending@),
            redraw == (old(self).pending@ is Dragging),
    {
        let p = self.pending;
        match p {
            PendingGesture::Dragging { start, current, committed: _ } => {
                self.pending = PendingGesture::Dragging {
                    start,
                    current,
                    committed: true,
                };
                true
            },
            _ => false,
        }
    }

    /// A loss of focus or hover is treated as an implicit pointer
    /// release, so a drag can never get stuck.
    pub fn focus_lost(&mut self) -> (redraw: bool)
        requires
            old(self).wf(),
        ensures
            final(self).wf(),
            final(self).pending@ == pend_up(old(self).pending@),
            redraw == (old(self).pending@ is Dragging),
    {
        self.pointer_up()
    }

    /// A wheel event: starts a zoom pulse if the slot is idle, and is
    /// dropped otherwise.  In particular, while a drag is live the slot
    /// is left exactly as it was and the transform (which this function
    /// never touches) is unaffected.
    pub fn wheel(&mut self, magnitude: Frac, cursor: Vec2D) -> (accepted: bool)
        requires
            old(self).wf(),
            magnitude.wf(),
            cursor.wf(),
        ensures
            final(self).wf(),
            final(self).pending@ == pend_wheel(old(self).pending@, magnitude@, cursor@),
            accepted == (old(self).pending@ is Idle),
            old(self).pending@ is Dragging ==> *final(self) == *old(self),
    {
        match &self.pending {
            PendingGesture::Idle => {
                self.pending = PendingGesture::ZoomPulse { magnitude, cursor };
                true
            },
            _ => false,
        }
    }

    /// One redraw tick: produces the offset to render with this frame
    /// and commits a finished gesture into the transform.  An
    /// uncommitted drag only previews its offset, without mutating the
    /// transform; a committed drag folds its net displacement in exactly
    /// once; a zoom pulse applies the cursor-anchored zoom one-shot.
    pub fn redraw_tick(&mut self, transform: &mut ImageTransformation) -> (r: TickResult)
        requires
            old(self).wf(),
            old(transform).wf(),
        ensures
            final(self).wf(),
            final(transform).wf(),
            (EngineV { pending: final(self).pending@, transform: final(transform)@ })
                == tick_spec(EngineV {
                    pending: old(self).pending@,
                    transform: old(transform)@,
                }),
            r.completed == tick_completes(old(self).pending@),
            r.offset.wf(),
            r.offset@ == (if is_live_drag(old(self).pending@) {
                preview_offset(
                    old(transform)@.off,
                    drag_start(old(self).pending@),
                    drag_current(old(self).pending@),
                )
            } else {
                final(transform)@.off
            }),
    {
        let p = self.pending;
        match p {
            PendingGesture::Idle => TickResult { offset: transform.get_offset(), completed: false },
            PendingGesture::Dragging { start, current, committed } => {
                let delta_opt = current.sub(&start);
                if committed {
                    match delta_opt {
                        None => {},
                        Some(d) => {
                            transform.apply_pan(&d);
                        },
                    }
                    self.pending = PendingGesture::Idle;
                    TickResult { offset: transform.get_offset(), completed: true }
                } else {
                    let preview = match delta_opt {
                        None => transform.get_offset(),
                        Some(d) => match transform.get_offset().add(&d) {
                            None => transform.get_offset(),
                            Some(o) => o,
                        },
                    };
                    TickResult { offset: preview, completed: false }
                }
            },
            PendingGesture::ZoomPulse { magnitude, cursor } => {
                self.pending = PendingGesture::Idle;
                transform.apply_cursor_anchored_zoom(&magnitude, &cursor);
                TickResult { offset: transform.get_offset(), completed: true }
            },
        }
    }
}

} // verus!
