//! Multi-client router.
//!
//! One platform capture stream is multiplexed across logical handles. Each
//! handle is bound to an edge; many handles may share one edge. An event from
//! the adapter is delivered to every handle bound to its edge, in
//! registration order, through a FIFO pending queue drained one entry per
//! poll. A diagnostic set of currently pressed keys is kept for visibility
//! and cleared on release; authoritative dedup lives on the emulation side.

use vstd::prelude::*;
use vstd::seq_lib::*;

use crate::event::{CaptureEvent, Event, KeyboardEvent, Position};
use crate::keymap::scancode_known;
use crate::keyset::{insert_key, key_neq, remove_key, vec_contains};

verus! {

/// Which handles are bound to each edge, in registration order.
#[derive(Debug, PartialEq, Clone)]
pub struct PositionMap {
    pub left: Vec<u32>,
    pub right: Vec<u32>,
    pub top: Vec<u32>,
    pub bottom: Vec<u32>,
}

impl PositionMap {
    /// The handles bound to an edge, in registration order.
    pub open spec fn ids(self, pos: Position) -> Seq<u32> {
        match pos {
            Position::Left => self.left@,
            Position::Right => self.right@,
            Position::Top => self.top@,
            Position::Bottom => self.bottom@,
        }
    }

    /// Whether a handle is bound to any edge.
    pub open spec fn registered(self, id: u32) -> bool {
        ||| self.ids(Position::Left).contains(id)
        ||| self.ids(Position::Right).contains(id)
        ||| self.ids(Position::Top).contains(id)
        ||| self.ids(Position::Bottom).contains(id)
    }

    /// An empty map.
    pub fn new() -> (r: PositionMap)
        ensures
            forall|p: Position| r.ids(p) == Seq::<u32>::empty(),
            forall|id: u32| !r.registered(id),
    {
        PositionMap { left: Vec::new(), right: Vec::new(), top: Vec::new(), bottom: Vec::new() }
    }

    /// How many handles are bound to an edge.
    pub fn len_of(&self, pos: Position) -> (r: usize)
        ensures
            r == self.ids(pos).len(),
    {
        match pos {
            Position::Left => self.left.len(),
            Position::Right => self.right.len(),
            Position::Top => self.top.len(),
            Position::Bottom => self.bottom.len(),
        }
    }

    /// The handle at an index of an edge's registration order.
    pub fn id_at(&self, pos: Position, i: usize) -> (r: u32)
        requires
            i < self.ids(pos).len(),
        ensures
            r == self.ids(pos)[i as int],
    {
        match pos {
            Position::Left => self.left[i],
            Position::Right => self.right[i],
            Position::Top => self.top[i],
            Position::Bottom => self.bottom[i],
        }
    }

    /// Bind one more handle to an edge, after the handles already there.
    pub fn push_id(&mut self, pos: Position, id: u32)
        ensures
            final(self).ids(pos) == old(self).ids(pos).push(id),
            forall|q: Position| q != pos ==> final(self).ids(q) == old(self).ids(q),
    {
        match pos {
            Position::Left => self.left.push(id),
            Position::Right => self.right.push(id),
            Position::Top => self.top.push(id),
            Position::Bottom => self.bottom.push(id),
        }
    }

    /// Whether a handle is bound to any edge.
    pub fn is_registered(&self, id: u32) -> (r: bool)
        ensures
            r == self.registered(id),
    {
        vec_contains(&self.left, id) || vec_contains(&self.right, id) || vec_contains(
            &self.top,
            id,
        ) || vec_contains(&self.bottom, id)
    }
}

/// The diagnostic pressed-key set after one key sample: a press adds the
/// key, anything else removes it; a key the platform scancode table does not
/// know is ignored.
pub open spec fn pressed_update(keys: Seq<u32>, key: u32, state: u8, known: bool) -> Seq<u32> {
    if !known {
        keys
    } else if state == 1 {
        if keys.contains(key) {
            keys
        } else {
            keys.push(key)
        }
    } else {
        keys.filter(key_neq(key))
    }
}

/// One copy of the event for every handle, in registration order.
pub open spec fn fan_out(ids: Seq<u32>, event: CaptureEvent) -> Seq<(u32, CaptureEvent)> {
    Seq::new(ids.len(), |i: int| (ids[i], event))
}

/// The capture router: fans one adapter stream out to logical handles.
pub struct Capture {
    pub pressed_keys: Vec<u32>,
    pub position_map: PositionMap,
    pub pending: Vec<(u32, CaptureEvent)>,
}

impl Capture {
    /// The router invariant: the diagnostic key set holds no duplicates.
    pub open spec fn wf(self) -> bool {
        self.pressed_keys@.no_duplicates()
    }

    /// What routing one adapter event returns: nothing when no handle is
    /// bound to the edge; the one bound handle's copy when there is exactly
    /// one; otherwise the front of the queue once every bound handle's copy
    /// has been enqueued.
    pub open spec fn route_result_spec(self, pos: Position, event: CaptureEvent) -> Option<
        (u32, CaptureEvent),
    > {
        let ids = self.position_map.ids(pos);
        if ids.len() == 0 {
            None
        } else if ids.len() == 1 {
            Some((ids[0], event))
        } else {
            Some((self.pending@ + fan_out(ids, event))[0])
        }
    }

    /// What routing one adapter event leaves queued.
    pub open spec fn route_pending_spec(self, pos: Position, event: CaptureEvent) -> Seq<
        (u32, CaptureEvent),
    > {
        let ids = self.position_map.ids(pos);
        if ids.len() <= 1 {
            self.pending@
        } else {
            (self.pending@ + fan_out(ids, event)).drop_first()
        }
    }

    /// A fresh router with no handles, no queued events and no pressed keys.
    pub fn new() -> (r: Capture)
        ensures
            r.pressed_keys@ == Seq::<u32>::empty(),
            forall|p: Position| r.position_map.ids(p) == Seq::<u32>::empty(),
            forall|id: u32| !r.position_map.registered(id),
            r.pending@ == Seq::<(u32, CaptureEvent)>::empty(),
            r.wf(),
    {
        Capture { pressed_keys: Vec::new(), position_map: PositionMap::new(), pending: Vec::new() }
    }

    /// Register a handle at an edge. The handle must not be registered yet:
    /// a duplicate registration is a programming error. Returns whether this
    /// is the edge's first handle, in which case the caller must arm the
    /// platform adapter for that edge; later registrants share the armed
    /// capture.
    pub fn create(&mut self, id: u32, pos: Position) -> (need_adapter: bool)
        requires
            !old(self).position_map.registered(id),
        ensures
            need_adapter <==> old(self).position_map.ids(pos).len() == 0,
            final(self).position_map.ids(pos) == old(self).position_map.ids(pos).push(id),
            forall|q: Position|
                q != pos ==> final(self).position_map.ids(q) == old(self).position_map.ids(q),
            final(self).pressed_keys == old(self).pressed_keys,
            final(self).pending == old(self).pending,
            old(self).wf() ==> final(self).wf(),
    {
        let first = self.position_map.len_of(pos) == 0;
        self.position_map.push_id(pos, id);
        first
    }

    /// Release the pointer: clear the diagnostic pressed-key set. The caller
    /// forwards the release to the platform adapter.
    pub fn release(&mut self)
        ensures
            final(self).pressed_keys@ == Seq::<u32>::empty(),
            final(self).position_map == old(self).position_map,
            final(self).pending == old(self).pending,
            final(self).wf(),
    {
        self.pressed_keys = Vec::new();
    }

    /// Apply one key sample to the diagnostic pressed-key set, given whether
    /// the platform scancode table knows the key.
    pub fn apply_pressed_key(&mut self, key: u32, state: u8, known: bool)
        requires
            old(self).wf(),
        ensures
            final(self).pressed_keys@ == pressed_update(old(self).pressed_keys@, key, state, known),
            final(self).position_map == old(self).position_map,
            final(self).pending == old(self).pending,
            final(self).wf(),
    {
        if !known {
            return ;
        }
        if state == 1 {
            insert_key(&mut self.pressed_keys, key);
        } else {
            remove_key(&mut self.pressed_keys, key);
        }
    }

    /// Track one key sample in the diagnostic pressed-key set. Whether the
    /// key is tracked at all depends on the build target's scancode table, so
    /// the set either absorbs the sample or stays as it was; keys above the
    /// table's 8-bit range are never tracked.
    pub fn update_pressed_keys(&mut self, key: u32, state: u8)
        requires
            old(self).wf(),
        ensures
            exists|known: bool|
                final(self).pressed_keys@ == pressed_update(
                    old(self).pressed_keys@,
                    key,
                    state,
                    known,
                ),
            key > 255 ==> final(self).pressed_keys@ == old(self).pressed_keys@,
            final(self).position_map == old(self).position_map,
            final(self).pending == old(self).pending,
            final(self).wf(),
    {
        let known = if key <= 255 {
            scancode_known(key as u8)
        } else {
            false
        };
        self.apply_pressed_key(key, state, known);
        proof {
            assert(final(self).pressed_keys@ == pressed_update(
                old(self).pressed_keys@,
                key,
                state,
                known,
            ));
        }
    }

    /// Route one event from the platform adapter. A key sample first updates
    /// the diagnostic pressed-key set; then the event is delivered to the
    /// handles bound to its edge: dropped without error when there are none,
    /// handed straight back when there is one, and otherwise enqueued once
    /// per handle in registration order with the queue's front returned.
    pub fn route(&mut self, pos: Position, event: CaptureEvent) -> (r: Option<(u32, CaptureEvent)>)
        requires
            old(self).wf(),
        ensures
            r == old(self).route_result_spec(pos, event),
            final(self).pending@ == old(self).route_pending_spec(pos, event),
            final(self).position_map == old(self).position_map,
            final(self).wf(),
            !(event matches CaptureEvent::Input(Event::Keyboard(KeyboardEvent::Key { .. })))
                ==> final(self).pressed_keys == old(self).pressed_keys,
            event matches CaptureEvent::Input(
                Event::Keyboard(KeyboardEvent::Key { key, state, .. }),
            ) ==> {
                &&& exists|known: bool|
                    final(self).pressed_keys@ == pressed_update(
                        old(self).pressed_keys@,
                        key,
                        state,
                        known,
                    )
                &&& (key > 255 ==> final(self).pressed_keys@ == old(self).pressed_keys@)
            },
    {
        if let CaptureEvent::Input(Event::Keyboard(KeyboardEvent::Key { key, state, .. })) =
            event {
            self.update_pressed_keys(key, state);
        }
        let n = self.position_map.len_of(pos);
        if n == 0 {
            None
        } else if n == 1 {
            let id = self.position_map.id_at(pos, 0);
            Some((id, event))
        } else {
            let ghost pre_pending = self.pending@;
            let ghost ids = self.position_map.ids(pos);
            let ghost pressed_now = self.pressed_keys;
            let mut i: usize = 0;
            while i < n
                invariant
                    0 <= i <= n,
                    n == ids.len(),
                    ids == self.position_map.ids(pos),
                    self.pending@ == pre_pending + fan_out(ids, event).take(i as int),
                    self.position_map == old(self).position_map,
                    self.pressed_keys == pressed_now,
                    self.pressed_keys@.no_duplicates(),
                decreases n - i,
            {
                let id = self.position_map.id_at(pos, i);
                self.pending.push((id, event));
                proof {
                    assert(self.pending@ =~= pre_pending + fan_out(ids, event).take(i as int + 1));
                }
                i = i + 1;
            }
            proof {
                assert(fan_out(ids, event).take(n as int) =~= fan_out(ids, event));
            }
            let front = self.pending.remove(0);
            proof {
                assert((pre_pending + fan_out(ids, event)).remove(0) =~= (pre_pending + fan_out(
                    ids,
                    event,
                )).drop_first());
            }
            Some(front)
        }
    }

    /// Hand out the next queued delivery, if any.
    pub fn pop_pending(&mut self) -> (r: Option<(u32, CaptureEvent)>)
        ensures
            old(self).pending@.len() == 0 ==> r is None && final(self).pending
                == old(self).pending,
            old(self).pending@.len() > 0 ==> r == Some(old(self).pending@[0])
                && final(self).pending@ == old(self).pending@.drop_first(),
            final(self).position_map == old(self).position_map,
            final(self).pressed_keys == old(self).pressed_keys,
            old(self).wf() ==> final(self).wf(),
    {
        if self.pending.len() == 0 {
            None
        } else {
            let front = self.pending.remove(0);
            proof {
                assert(old(self).pending@.remove(0) =~= old(self).pending@.drop_first());
            }
            Some(front)
        }
    }
}

/// Fan-out is complete: when the pending queue starts empty and at least one
/// handle is bound to the event's edge, the delivery returned at once and
/// the queued remainder are together exactly one copy of the event per bound
/// handle, in registration order; with no bound handle nothing is delivered
/// or queued.
pub proof fn lemma_fan_out_completeness(c: Capture, pos: Position, event: CaptureEvent)
    requires
        c.pending@.len() == 0,
    ensures
        c.position_map.ids(pos).len() == 0 ==> c.route_result_spec(pos, event) is None
            && c.route_pending_spec(pos, event).len() == 0,
        c.position_map.ids(pos).len() >= 1 ==> seq![c.route_result_spec(pos, event)->Some_0]
            + c.route_pending_spec(pos, event) == fan_out(c.position_map.ids(pos), event),
{
    let ids = c.position_map.ids(pos);
    if ids.len() == 1 {
        assert(seq![c.route_result_spec(pos, event)->Some_0] + c.route_pending_spec(pos, event)
            =~= fan_out(ids, event));
    } else if ids.len() >= 2 {
        assert(c.pending@ + fan_out(ids, event) =~= fan_out(ids, event));
        assert(seq![c.route_result_spec(pos, event)->Some_0] + c.route_pending_spec(pos, event)
            =~= fan_out(ids, event));
    }
}

} // verus!
