//! Capture ownership state machine.
//!
//! One capture session owns this state: which edges have a registered logical
//! client, which edge (if any) currently owns the local pointer and keyboard,
//! and the union bounding rectangle of the active displays. Boundary-crossing
//! detection and cursor confinement are computed here from plain coordinates;
//! the platform adapter performs the cursor side effects this module asks for.

use vstd::prelude::*;

use crate::errors::CaptureError;
use crate::event::Position;

verus! {

/// Largest magnitude accepted for a screen coordinate or a motion delta.
pub const COORD_MAX: i64 = 0x1_0000_0000;

/// Largest magnitude accepted for a display origin or extent.
pub const DISPLAY_MAX: i64 = 0x8000_0000;

/// Whether a coordinate or delta is within the accepted range.
pub open spec fn coord_ok(v: int) -> bool {
    -COORD_MAX <= v <= COORD_MAX
}

/// Half of a delta, rounded toward zero.
///
/// After a cursor warp the next motion sample carries the warp's delta baked
/// in, so confinement applies only half of each reported delta to the
/// unconstrained axis to avoid a feedback loop of growing compensations.
pub open spec fn half(d: int) -> int {
    if d >= 0 {
        d / 2
    } else {
        -((-d) / 2)
    }
}

/// One display's rectangle: origin and extent in screen units.
#[derive(Debug, PartialEq, Clone, Copy)]
pub struct DisplayRect {
    pub x: i64,
    pub y: i64,
    pub width: i64,
    pub height: i64,
}

impl DisplayRect {
    /// Whether the rectangle's origin and extent are within the accepted range.
    pub open spec fn in_range(self) -> bool {
        &&& -DISPLAY_MAX <= self.x <= DISPLAY_MAX
        &&& -DISPLAY_MAX <= self.y <= DISPLAY_MAX
        &&& 0 <= self.width <= DISPLAY_MAX
        &&& 0 <= self.height <= DISPLAY_MAX
    }
}

/// The union bounding rectangle of all active displays.
#[derive(Debug, PartialEq, Clone, Copy)]
pub struct Bounds {
    pub xmin: i64,
    pub xmax: i64,
    pub ymin: i64,
    pub ymax: i64,
}

impl Bounds {
    /// The zero rectangle: the bounds while no display is active.
    pub fn new() -> (r: Bounds)
        ensures
            r == (Bounds { xmin: 0i64, xmax: 0i64, ymin: 0i64, ymax: 0i64 }),
    {
        Bounds { xmin: 0, xmax: 0, ymin: 0, ymax: 0 }
    }

    /// Whether every side is within the accepted coordinate range.
    pub open spec fn in_range(self) -> bool {
        &&& coord_ok(self.xmin as int)
        &&& coord_ok(self.xmax as int)
        &&& coord_ok(self.ymin as int)
        &&& coord_ok(self.ymax as int)
    }

    /// A usable screen rectangle: sides in range and at least two units wide
    /// and tall, so the 1-unit confinement inset lies strictly inside.
    pub open spec fn wf(self) -> bool {
        &&& self.in_range()
        &&& self.xmin + 2 <= self.xmax
        &&& self.ymin + 2 <= self.ymax
    }
}

/// Growing a bounds rectangle by one display.
pub open spec fn merge_display(b: Bounds, d: DisplayRect) -> Bounds {
    Bounds {
        xmin: if d.x < b.xmin {
            d.x
        } else {
            b.xmin
        },
        xmax: if d.x + d.width > b.xmax {
            (d.x + d.width) as i64
        } else {
            b.xmax
        },
        ymin: if d.y < b.ymin {
            d.y
        } else {
            b.ymin
        },
        ymax: if d.y + d.height > b.ymax {
            (d.y + d.height) as i64
        } else {
            b.ymax
        },
    }
}

/// Folding a sequence of displays into a bounds rectangle, front to back.
pub open spec fn fold_bounds(b: Bounds, ds: Seq<DisplayRect>) -> Bounds
    decreases ds.len(),
{
    if ds.len() == 0 {
        b
    } else {
        fold_bounds(merge_display(b, ds[0]), ds.drop_first())
    }
}

/// The rectangle one display covers.
pub open spec fn display_rect(d: DisplayRect) -> Bounds {
    Bounds {
        xmin: d.x,
        xmax: (d.x + d.width) as i64,
        ymin: d.y,
        ymax: (d.y + d.height) as i64,
    }
}

/// The union bounding rectangle of the displays: the smallest rectangle
/// containing every one of them, folded from the first display's own
/// rectangle. With no display it is the zero rectangle.
pub open spec fn union_bounds(ds: Seq<DisplayRect>) -> Bounds {
    if ds.len() == 0 {
        Bounds { xmin: 0, xmax: 0, ymin: 0, ymax: 0 }
    } else {
        fold_bounds(display_rect(ds[0]), ds.drop_first())
    }
}

/// Folding more displays into a rectangle can only grow it.
proof fn lemma_fold_bounds_grows(b: Bounds, ds: Seq<DisplayRect>)
    requires
        b.in_range(),
        forall|j: int| 0 <= j < ds.len() ==> ds[j].in_range(),
    ensures
        fold_bounds(b, ds).xmin <= b.xmin,
        b.xmax <= fold_bounds(b, ds).xmax,
        fold_bounds(b, ds).ymin <= b.ymin,
        b.ymax <= fold_bounds(b, ds).ymax,
    decreases ds.len(),
{
    if ds.len() > 0 {
        lemma_fold_bounds_grows(merge_display(b, ds[0]), ds.drop_first());
    }
}

/// The folded rectangle contains every display that was folded in.
proof fn lemma_fold_bounds_covers(b: Bounds, ds: Seq<DisplayRect>, i: int)
    requires
        b.in_range(),
        forall|j: int| 0 <= j < ds.len() ==> ds[j].in_range(),
        0 <= i < ds.len(),
    ensures
        fold_bounds(b, ds).xmin <= ds[i].x,
        ds[i].x + ds[i].width <= fold_bounds(b, ds).xmax,
        fold_bounds(b, ds).ymin <= ds[i].y,
        ds[i].y + ds[i].height <= fold_bounds(b, ds).ymax,
    decreases ds.len(),
{
    if i == 0 {
        lemma_fold_bounds_grows(merge_display(b, ds[0]), ds.drop_first());
    } else {
        lemma_fold_bounds_covers(merge_display(b, ds[0]), ds.drop_first(), i - 1);
        assert(ds.drop_first()[i - 1] == ds[i]);
    }
}

/// The union bounding rectangle contains every display: each display's
/// origin and far corner lie within it on both axes.
pub proof fn lemma_union_bounds_covers(ds: Seq<DisplayRect>, i: int)
    requires
        forall|j: int| 0 <= j < ds.len() ==> ds[j].in_range(),
        0 <= i < ds.len(),
    ensures
        union_bounds(ds).xmin <= ds[i].x,
        ds[i].x + ds[i].width <= union_bounds(ds).xmax,
        union_bounds(ds).ymin <= ds[i].y,
        ds[i].y + ds[i].height <= union_bounds(ds).ymax,
{
    if i == 0 {
        lemma_fold_bounds_grows(display_rect(ds[0]), ds.drop_first());
    } else {
        lemma_fold_bounds_covers(display_rect(ds[0]), ds.drop_first(), i - 1);
        assert(ds.drop_first()[i - 1] == ds[i]);
    }
}

/// The set of edges that have at least one registered logical client.
#[derive(Debug, PartialEq, Clone, Copy)]
pub struct EdgeSet {
    pub left: bool,
    pub right: bool,
    pub top: bool,
    pub bottom: bool,
}

impl EdgeSet {
    /// The empty set.
    pub fn new() -> (r: EdgeSet)
        ensures
            r == EdgeSet::empty(),
    {
        EdgeSet { left: false, right: false, top: false, bottom: false }
    }

    /// The empty set.
    pub open spec fn empty() -> EdgeSet {
        EdgeSet { left: false, right: false, top: false, bottom: false }
    }

    /// Whether the edge is in the set.
    pub open spec fn contains(self, p: Position) -> bool {
        match p {
            Position::Left => self.left,
            Position::Right => self.right,
            Position::Top => self.top,
            Position::Bottom => self.bottom,
        }
    }

    /// The set with the edge added.
    pub open spec fn insert_spec(self, p: Position) -> EdgeSet {
        match p {
            Position::Left => EdgeSet { left: true, ..self },
            Position::Right => EdgeSet { right: true, ..self },
            Position::Top => EdgeSet { top: true, ..self },
            Position::Bottom => EdgeSet { bottom: true, ..self },
        }
    }

    /// The set with the edge removed.
    pub open spec fn remove_spec(self, p: Position) -> EdgeSet {
        match p {
            Position::Left => EdgeSet { left: false, ..self },
            Position::Right => EdgeSet { right: false, ..self },
            Position::Top => EdgeSet { top: false, ..self },
            Position::Bottom => EdgeSet { bottom: false, ..self },
        }
    }

    /// Whether the edge is in the set.
    pub fn has(&self, p: Position) -> (r: bool)
        ensures
            r == self.contains(p),
    {
        match p {
            Position::Left => self.left,
            Position::Right => self.right,
            Position::Top => self.top,
            Position::Bottom => self.bottom,
        }
    }

    /// Add the edge.
    pub fn insert(&mut self, p: Position)
        ensures
            *final(self) == old(self).insert_spec(p),
    {
        match p {
            Position::Left => self.left = true,
            Position::Right => self.right = true,
            Position::Top => self.top = true,
            Position::Bottom => self.bottom = true,
        }
    }

    /// Remove the edge.
    pub fn remove(&mut self, p: Position)
        ensures
            *final(self) == old(self).remove_spec(p),
    {
        match p {
            Position::Left => self.left = false,
            Position::Right => self.right = false,
            Position::Top => self.top = false,
            Position::Bottom => self.bottom = false,
        }
    }
}

/// A control command relayed from the callback side into the state machine.
#[derive(Debug, PartialEq, Clone, Copy)]
pub enum ProducerEvent {
    /// Give the pointer back to the local machine.
    Release,
    /// Register a logical client at an edge.
    Create(Position),
    /// Drop the last logical client of an edge.
    Destroy(Position),
    /// Transfer pointer ownership to an edge after a crossing.
    Grab(Position),
    /// The platform interception facility shut itself off; fatal.
    EventTapDisabled,
}

/// The cursor side effect a state transition asks the platform adapter for.
#[derive(Debug, PartialEq, Clone, Copy)]
pub enum CursorAction {
    Nothing,
    ShowCursor,
    HideCursor,
}

/// Per-session capture state: the active edges, the current pointer owner,
/// and the display bounds.
#[derive(Debug, PartialEq, Clone, Copy)]
pub struct InputCaptureState {
    pub active_clients: EdgeSet,
    pub current_pos: Option<Position>,
    pub bounds: Bounds,
}

/// The state after one control command.
pub open spec fn step_state(s: InputCaptureState, ev: ProducerEvent) -> InputCaptureState {
    match ev {
        ProducerEvent::Release => {
            if s.current_pos is Some {
                InputCaptureState { current_pos: None, ..s }
            } else {
                s
            }
        },
        ProducerEvent::Grab(p) => {
            if s.current_pos is None && s.active_clients.contains(p) {
                InputCaptureState { current_pos: Some(p), ..s }
            } else {
                s
            }
        },
        ProducerEvent::Create(p) => {
            InputCaptureState { active_clients: s.active_clients.insert_spec(p), ..s }
        },
        ProducerEvent::Destroy(p) => {
            let cleared = if s.current_pos == Some(p) {
                InputCaptureState { current_pos: None, ..s }
            } else {
                s
            };
            InputCaptureState { active_clients: cleared.active_clients.remove_spec(p), ..cleared }
        },
        ProducerEvent::EventTapDisabled => s,
    }
}

/// The cursor side effect of one control command.
pub open spec fn step_action(s: InputCaptureState, ev: ProducerEvent) -> CursorAction {
    match ev {
        ProducerEvent::Release => {
            if s.current_pos is Some {
                CursorAction::ShowCursor
            } else {
                CursorAction::Nothing
            }
        },
        ProducerEvent::Grab(p) => {
            if s.current_pos is None && s.active_clients.contains(p) {
                CursorAction::HideCursor
            } else {
                CursorAction::Nothing
            }
        },
        ProducerEvent::Destroy(p) => {
            if s.current_pos == Some(p) {
                CursorAction::ShowCursor
            } else {
                CursorAction::Nothing
            }
        },
        _ => CursorAction::Nothing,
    }
}

impl InputCaptureState {
    /// The session invariant: an edge owns the pointer only while it has a
    /// registered client, and the bounds form a usable rectangle.
    pub open spec fn wf(self) -> bool {
        &&& match self.current_pos {
            Some(p) => self.active_clients.contains(p),
            None => true,
        }
        &&& self.bounds.in_range()
    }

    /// Which edge, if any, the projected pointer position crosses.
    ///
    /// Edges are tested in the fixed order Left, Right, Top, Bottom; the
    /// first active edge whose threshold the projected position reaches wins.
    pub open spec fn crossed_spec(self, x: int, y: int, dx: int, dy: int) -> Option<Position> {
        if self.active_clients.left && x + dx <= self.bounds.xmin {
            Some(Position::Left)
        } else if self.active_clients.right && x + dx >= self.bounds.xmax {
            Some(Position::Right)
        } else if self.active_clients.top && y + dy <= self.bounds.ymin {
            Some(Position::Top)
        } else if self.active_clients.bottom && y + dy >= self.bounds.ymax {
            Some(Position::Bottom)
        } else {
            None
        }
    }

    /// The confinement target on the x axis: pinned one unit inside the
    /// owning vertical edge, otherwise advanced by half the reported delta.
    pub open spec fn confine_x_spec(self, x: int, dx: int) -> int {
        match self.current_pos {
            Some(Position::Left) => self.bounds.xmin + 1,
            Some(Position::Right) => self.bounds.xmax - 1,
            _ => x + half(dx),
        }
    }

    /// The confinement target on the y axis: pinned one unit inside the
    /// owning horizontal edge, otherwise advanced by half the reported delta.
    pub open spec fn confine_y_spec(self, y: int, dy: int) -> int {
        match self.current_pos {
            Some(Position::Top) => self.bounds.ymin + 1,
            Some(Position::Bottom) => self.bounds.ymax - 1,
            _ => y + half(dy),
        }
    }

    /// A fresh session state: no active edges, no owner, and bounds set to
    /// the union bounding rectangle of the given displays.
    pub fn new(displays: &Vec<DisplayRect>) -> (r: InputCaptureState)
        requires
            forall|i: int| 0 <= i < displays@.len() ==> displays@[i].in_range(),
        ensures
            r.active_clients == EdgeSet::empty(),
            r.current_pos is None,
            r.bounds == union_bounds(displays@),
            r.bounds.in_range(),
            r.wf(),
    {
        let mut res = InputCaptureState {
            active_clients: EdgeSet::new(),
            current_pos: None,
            bounds: Bounds::new(),
        };
        res.update_bounds(displays);
        res
    }

    /// Recompute the bounds from scratch as the union bounding rectangle of
    /// the given displays: the smallest rectangle containing every one of
    /// them. With no display the bounds become the zero rectangle.
    pub fn update_bounds(&mut self, displays: &Vec<DisplayRect>)
        requires
            forall|i: int| 0 <= i < displays@.len() ==> displays@[i].in_range(),
        ensures
            final(self).bounds == union_bounds(displays@),
            final(self).bounds.in_range(),
            final(self).active_clients == old(self).active_clients,
            final(self).current_pos == old(self).current_pos,
    {
        let ghost ds = displays@;
        if displays.len() == 0 {
            self.bounds = Bounds::new();
            return ;
        }
        let d0 = displays[0];
        self.bounds = Bounds {
            xmin: d0.x,
            xmax: d0.x + d0.width,
            ymin: d0.y,
            ymax: d0.y + d0.height,
        };
        proof {
            assert(self.bounds == display_rect(ds[0]));
            assert(ds.skip(1) =~= ds.drop_first());
        }
        let mut i: usize = 1;
        while i < displays.len()
            invariant
                1 <= i <= ds.len(),
                ds == displays@,
                ds.len() >= 1,
                forall|j: int| 0 <= j < ds.len() ==> ds[j].in_range(),
                self.bounds.in_range(),
                fold_bounds(display_rect(ds[0]), ds.drop_first()) == fold_bounds(
                    self.bounds,
                    ds.skip(i as int),
                ),
                self.active_clients == old(self).active_clients,
                self.current_pos == old(self).current_pos,
            decreases ds.len() - i,
        {
            let d = displays[i];
            let b = self.bounds;
            let new_b = Bounds {
                xmin: if d.x < b.xmin {
                    d.x
                } else {
                    b.xmin
                },
                xmax: if d.x + d.width > b.xmax {
                    d.x + d.width
                } else {
                    b.xmax
                },
                ymin: if d.y < b.ymin {
                    d.y
                } else {
                    b.ymin
                },
                ymax: if d.y + d.height > b.ymax {
                    d.y + d.height
                } else {
                    b.ymax
                },
            };
            proof {
                assert(new_b == merge_display(b, d));
                assert(ds.skip(i as int)[0] == ds[i as int]);
                assert(ds.skip(i as int).drop_first() =~= ds.skip(i as int + 1));
                assert(fold_bounds(self.bounds, ds.skip(i as int)) == fold_bounds(
                    merge_display(b, d),
                    ds.skip(i as int + 1),
                ));
            }
            self.bounds = new_b;
            i = i + 1;
        }
        proof {
            assert(ds.skip(ds.len() as int) =~= Seq::<DisplayRect>::empty());
            assert(fold_bounds(self.bounds, ds.skip(ds.len() as int)) == self.bounds);
        }
    }

    /// Which edge, if any, a motion sample crosses into.
    pub fn crossed(&self, x: i64, y: i64, dx: i64, dy: i64) -> (r: Option<Position>)
        requires
            coord_ok(x as int),
            coord_ok(y as int),
            coord_ok(dx as int),
            coord_ok(dy as int),
        ensures
            r == self.crossed_spec(x as int, y as int, dx as int, dy as int),
    {
        if self.active_clients.left && x + dx <= self.bounds.xmin {
            Some(Position::Left)
        } else if self.active_clients.right && x + dx >= self.bounds.xmax {
            Some(Position::Right)
        } else if self.active_clients.top && y + dy <= self.bounds.ymin {
            Some(Position::Top)
        } else if self.active_clients.bottom && y + dy >= self.bounds.ymax {
            Some(Position::Bottom)
        } else {
            None
        }
    }

    /// The position the hidden cursor must be warped back to while an edge
    /// owns the pointer: the constrained axis pinned one unit inside the
    /// owning edge, the other axis advanced by half the reported delta.
    ///
    /// Fails when no edge owns the pointer.
    pub fn reset_mouse_position(&self, x: i64, y: i64, dx: i64, dy: i64) -> (r: Result<
        (i64, i64),
        CaptureError,
    >)
        requires
            coord_ok(x as int),
            coord_ok(y as int),
            coord_ok(dx as int),
            coord_ok(dy as int),
            self.bounds.in_range(),
        ensures
            r is Ok <==> self.current_pos is Some,
            r matches Ok(p) ==> p.0 == self.confine_x_spec(x as int, dx as int) && p.1
                == self.confine_y_spec(y as int, dy as int),
            r matches Err(e) ==> e == CaptureError::ResetMouseWithoutClient,
    {
        match self.current_pos {
            Some(pos) => {
                let mut new_x: i64 = x + half_delta(dx);
                let mut new_y: i64 = y + half_delta(dy);
                match pos {
                    Position::Left => {
                        new_x = self.bounds.xmin + 1;
                    },
                    Position::Right => {
                        new_x = self.bounds.xmax - 1;
                    },
                    Position::Top => {
                        new_y = self.bounds.ymin + 1;
                    },
                    Position::Bottom => {
                        new_y = self.bounds.ymax - 1;
                    },
                }
                Ok((new_x, new_y))
            },
            None => Err(CaptureError::ResetMouseWithoutClient),
        }
    }

    /// Apply one control command: mutate the state and say which cursor side
    /// effect the platform adapter must perform. `EventTapDisabled` is fatal
    /// and leaves the state untouched.
    pub fn handle_producer_event(&mut self, producer_event: ProducerEvent) -> (r: Result<
        CursorAction,
        CaptureError,
    >)
        ensures
            *final(self) == step_state(*old(self), producer_event),
            r is Ok <==> !(producer_event is EventTapDisabled),
            r matches Ok(a) ==> a == step_action(*old(self), producer_event),
            r matches Err(e) ==> e == CaptureError::EventTapDisabled,
            old(self).wf() ==> final(self).wf(),
    {
        match producer_event {
            ProducerEvent::Release => {
                match self.current_pos {
                    Some(_) => {
                        self.current_pos = None;
                        Ok(CursorAction::ShowCursor)
                    },
                    None => Ok(CursorAction::Nothing),
                }
            },
            ProducerEvent::Grab(pos) => {
                match self.current_pos {
                    None => {
                        if self.active_clients.has(pos) {
                            self.current_pos = Some(pos);
                            Ok(CursorAction::HideCursor)
                        } else {
                            Ok(CursorAction::Nothing)
                        }
                    },
                    Some(_) => Ok(CursorAction::Nothing),
                }
            },
            ProducerEvent::Create(p) => {
                self.active_clients.insert(p);
                Ok(CursorAction::Nothing)
            },
            ProducerEvent::Destroy(p) => {
                let owned = match self.current_pos {
                    Some(current) => current == p,
                    None => false,
                };
                if owned {
                    self.current_pos = None;
                }
                self.active_clients.remove(p);
                if owned {
                    Ok(CursorAction::ShowCursor)
                } else {
                    Ok(CursorAction::Nothing)
                }
            },
            ProducerEvent::EventTapDisabled => Err(CaptureError::EventTapDisabled),
        }
    }
}

/// Half of a delta, rounded toward zero.
fn half_delta(d: i64) -> (r: i64)
    requires
        i64::MIN < d,
    ensures
        r == half(d as int),
{
    if d >= 0 {
        d / 2
    } else {
        -((-d) / 2)
    }
}

/// Every control command keeps the session invariant: the pointer owner, if
/// any, is always an edge that still has a registered client.
pub proof fn lemma_step_preserves_wf(s: InputCaptureState, ev: ProducerEvent)
    requires
        s.wf(),
    ensures
        step_state(s, ev).wf(),
{
}

/// The grab transition: while no edge owns the pointer, a grab of an active
/// edge makes exactly that edge the owner, asks for the hide-cursor side
/// effect, and leaves the active set and the bounds unchanged. Any further
/// grab in the grabbed state changes nothing and asks for no side effect, so
/// the hide-cursor effect is issued exactly once per crossing.
pub proof fn lemma_grab_transition(s: InputCaptureState, pos: Position, again: Position)
    requires
        s.current_pos is None,
        s.active_clients.contains(pos),
    ensures
        step_state(s, ProducerEvent::Grab(pos)) == (InputCaptureState {
            current_pos: Some(pos),
            ..s
        }),
        step_action(s, ProducerEvent::Grab(pos)) == CursorAction::HideCursor,
        step_state(step_state(s, ProducerEvent::Grab(pos)), ProducerEvent::Grab(again))
            == step_state(s, ProducerEvent::Grab(pos)),
        step_action(step_state(s, ProducerEvent::Grab(pos)), ProducerEvent::Grab(again))
            == CursorAction::Nothing,
{
}

/// Release is idempotent: one release leaves no owner; releasing again
/// changes nothing and asks for no cursor side effect, so the cursor-show
/// effect is issued at most once.
pub proof fn lemma_release_idempotent(s: InputCaptureState)
    ensures
        step_state(s, ProducerEvent::Release).current_pos is None,
        step_state(step_state(s, ProducerEvent::Release), ProducerEvent::Release) == step_state(
            s,
            ProducerEvent::Release,
        ),
        step_action(step_state(s, ProducerEvent::Release), ProducerEvent::Release)
            == CursorAction::Nothing,
{
}

/// The x positions reached by warping repeatedly: each step replaces the
/// position with the confinement target for the same reported delta.
pub open spec fn warp_iter_x(s: InputCaptureState, x0: int, dx: int, n: nat) -> int
    decreases n,
{
    if n == 0 {
        x0
    } else {
        s.confine_x_spec(warp_iter_x(s, x0, dx, (n - 1) as nat), dx)
    }
}

/// The y positions reached by warping repeatedly.
pub open spec fn warp_iter_y(s: InputCaptureState, y0: int, dy: int, n: nat) -> int
    decreases n,
{
    if n == 0 {
        y0
    } else {
        s.confine_y_spec(warp_iter_y(s, y0, dy, (n - 1) as nat), dy)
    }
}

/// Confinement does not drift on the constrained axis: while a vertical edge
/// owns the pointer, every warped x target is pinned one unit inside that
/// edge, so repeated motion samples never take it outside [xmin, xmax],
/// whatever the starting position and delta.
pub proof fn lemma_confinement_non_drift_x(s: InputCaptureState, x0: int, dx: int, n: nat)
    requires
        s.bounds.wf(),
        s.current_pos == Some(Position::Left) || s.current_pos == Some(Position::Right),
        n >= 1,
    ensures
        s.bounds.xmin <= warp_iter_x(s, x0, dx, n) <= s.bounds.xmax,
{
    assert(warp_iter_x(s, x0, dx, n) == s.confine_x_spec(
        warp_iter_x(s, x0, dx, (n - 1) as nat),
        dx,
    ));
}

/// Confinement does not drift on the constrained axis: the horizontal
/// counterpart of the x-axis law.
pub proof fn lemma_confinement_non_drift_y(s: InputCaptureState, y0: int, dy: int, n: nat)
    requires
        s.bounds.wf(),
        s.current_pos == Some(Position::Top) || s.current_pos == Some(Position::Bottom),
        n >= 1,
    ensures
        s.bounds.ymin <= warp_iter_y(s, y0, dy, n) <= s.bounds.ymax,
{
    assert(warp_iter_y(s, y0, dy, n) == s.confine_y_spec(
        warp_iter_y(s, y0, dy, (n - 1) as nat),
        dy,
    ));
}

} // verus!
