//! Emulation-side dedup layer.
//!
//! Per logical handle, the set of currently-down key codes is tracked so
//! that a key event duplicated or reordered by the network cannot
//! desynchronize the remote keyboard into a stuck-key condition: a press of
//! a key already down, or a release of a key not down, is suppressed and
//! never reaches the platform emulation backend. Everything else passes
//! through unconditionally. The backend itself lives outside; this layer
//! only decides and accounts.

use vstd::prelude::*;

use crate::event::{Event, KeyboardEvent};
use crate::keyset::{insert_key, key_neq, lemma_push_no_duplicates, remove_key, vec_contains};

verus! {

/// The dedup layer's state: the registered handles, and for each the set of
/// key codes currently held down, kept at the same index.
pub struct Emulation {
    pub handles: Vec<u32>,
    pub pressed_keys: Vec<Vec<u32>>,
}

impl Emulation {
    /// The dedup invariant: one entry per handle, no handle twice, and no
    /// key twice within a handle's set.
    pub open spec fn wf(self) -> bool {
        &&& self.handles@.no_duplicates()
        &&& self.pressed_keys@.len() == self.handles@.len()
        &&& forall|i: int|
            0 <= i < self.pressed_keys@.len() ==> (#[trigger] self.pressed_keys@[i])@.no_duplicates()
    }

    /// Whether the handle is registered.
    pub open spec fn registered(self, handle: u32) -> bool {
        self.handles@.contains(handle)
    }

    /// The keys currently held down for a registered handle.
    pub open spec fn keys_of(self, handle: u32) -> Seq<u32> {
        self.pressed_keys@[self.handles@.index_of(handle)]@
    }

    /// Whether a key sample must be forwarded to the backend: only for a
    /// registered handle, and only when it changes that handle's set — a
    /// press of a key not yet down, or a release of a key that is down.
    pub open spec fn forwards(self, handle: u32, key: u32, state: u8) -> bool {
        if !self.registered(handle) {
            false
        } else if state == 0 {
            self.keys_of(handle).contains(key)
        } else {
            !self.keys_of(handle).contains(key)
        }
    }

    /// The handle's key set after one key sample: a release drops the key, a
    /// press adds it if it is not already down.
    pub open spec fn keys_after(self, handle: u32, key: u32, state: u8) -> Seq<u32> {
        let ks = self.keys_of(handle);
        if state == 0 {
            ks.filter(key_neq(key))
        } else if ks.contains(key) {
            ks
        } else {
            ks.push(key)
        }
    }

    /// A fresh dedup layer with no handles.
    pub fn new() -> (r: Emulation)
        ensures
            r.handles@ == Seq::<u32>::empty(),
            r.pressed_keys@ == Seq::<Vec<u32>>::empty(),
            r.wf(),
    {
        Emulation { handles: Vec::new(), pressed_keys: Vec::new() }
    }

    /// The index of a registered handle.
    fn find_handle(&self, handle: u32) -> (r: Option<usize>)
        requires
            self.wf(),
        ensures
            r is Some <==> self.registered(handle),
            r matches Some(i) ==> i < self.handles@.len() && self.handles@[i as int] == handle
                && i == self.handles@.index_of(handle),
    {
        let mut i: usize = 0;
        while i < self.handles.len()
            invariant
                0 <= i <= self.handles@.len(),
                self.wf(),
                forall|j: int| 0 <= j < i ==> self.handles@[j] != handle,
            decreases self.handles@.len() - i,
        {
            if self.handles[i] == handle {
                proof {
                    let j = self.handles@.index_of(handle);
                    assert(self.handles@[j] == handle);
                    assert(j == i as int);
                }
                return Some(i);
            }
            i = i + 1;
        }
        None
    }

    /// Register a handle with an empty pressed-key set. Returns whether the
    /// handle was new; registering it again is a no-op, so the caller
    /// creates the backend's side of the handle exactly once.
    pub fn create(&mut self, handle: u32) -> (r: bool)
        requires
            old(self).wf(),
        ensures
            r == !old(self).registered(handle),
            !r ==> *final(self) == *old(self),
            r ==> final(self).handles@ == old(self).handles@.push(handle),
            r ==> final(self).pressed_keys@.len() == old(self).pressed_keys@.len() + 1,
            r ==> final(self).keys_of(handle) == Seq::<u32>::empty(),
            r ==> forall|h: u32|
                old(self).registered(h) ==> final(self).registered(h) && final(self).keys_of(h)
                    == old(self).keys_of(h),
            final(self).registered(handle),
            final(self).wf(),
    {
        match self.find_handle(handle) {
            Some(_) => false,
            None => {
                proof {
                    lemma_push_no_duplicates(self.handles@, handle);
                }
                self.handles.push(handle);
                self.pressed_keys.push(Vec::new());
                proof {
                    let post = *self;
                    let pre = *old(self);
                    let n = pre.handles@.len() as int;
                    assert(post.handles@[n] == handle);
                    assert(post.handles@.index_of(handle) == n) by {
                        let j = post.handles@.index_of(handle);
                        assert(post.handles@.contains(handle)) by {
                            assert(post.handles@[n] == handle);
                        }
                        assert(post.handles@[j] == handle);
                        if j < n {
                            assert(pre.handles@[j] == handle);
                            assert(pre.handles@.contains(handle));
                            assert(false);
                        }
                    }
                    assert(post.keys_of(handle) =~= Seq::<u32>::empty());
                    assert forall|h: u32| pre.registered(h) implies post.registered(h)
                        && post.keys_of(h) == pre.keys_of(h) by {
                        let j = pre.handles@.index_of(h);
                        assert(pre.handles@[j] == h);
                        assert(post.handles@[j] == h);
                        assert(post.handles@.contains(h));
                        assert(post.handles@.index_of(h) == j) by {
                            let m = post.handles@.index_of(h);
                            assert(post.handles@[m] == h);
                            if m != j {
                                if m < n {
                                    assert(pre.handles@[m] == h);
                                    assert(false);
                                } else {
                                    assert(h == handle);
                                    assert(pre.registered(handle));
                                    assert(false);
                                }
                            }
                        }
                        assert(post.pressed_keys@[j] == pre.pressed_keys@[j]);
                    }
                }
                true
            },
        }
    }

    /// Account one key sample for a handle and say whether it must be
    /// forwarded. An unregistered handle forwards nothing and changes
    /// nothing; otherwise the handle's set absorbs the sample and the sample
    /// is forwarded exactly when it changed the set.
    pub fn update_pressed_keys(&mut self, handle: u32, key: u32, state: u8) -> (r: bool)
        requires
            old(self).wf(),
        ensures
            r == old(self).forwards(handle, key, state),
            final(self).handles == old(self).handles,
            !old(self).registered(handle) ==> *final(self) == *old(self),
            old(self).registered(handle) ==> final(self).keys_of(handle) == old(self).keys_after(
                handle,
                key,
                state,
            ),
            forall|h: u32|
                h != handle && old(self).registered(h) ==> final(self).keys_of(h) == old(
                    self,
                ).keys_of(h),
            final(self).wf(),
    {
        let idx = match self.find_handle(handle) {
            Some(i) => i,
            None => {
                return false;
            },
        };
        let ghost pre = *self;
        let r = if state == 0 {
            remove_key(&mut self.pressed_keys[idx], key)
        } else {
            insert_key(&mut self.pressed_keys[idx], key)
        };
        proof {
            let post = *self;
            assert(post.pressed_keys@.len() == pre.pressed_keys@.len());
            assert(post.handles@ == pre.handles@);
            assert(post.keys_of(handle) == pre.keys_after(handle, key, state));
            assert forall|h: u32| h != handle && pre.registered(h) implies post.keys_of(h)
                == pre.keys_of(h) by {
                let j = pre.handles@.index_of(h);
                assert(pre.handles@[j] == h);
                assert(j != idx as int);
                assert(post.pressed_keys@[j] == pre.pressed_keys@[j]);
            }
        }
        r
    }

    /// Decide one incoming event for a handle: a key press or release is
    /// forwarded exactly when the dedup accounting lets it through; every
    /// other event, modifiers included, passes unconditionally and leaves
    /// the accounting untouched.
    pub fn consume(&mut self, event: Event, handle: u32) -> (r: bool)
        requires
            old(self).wf(),
        ensures
            event matches Event::Keyboard(KeyboardEvent::Key { key, state, .. }) ==> {
                &&& r == old(self).forwards(handle, key, state)
                &&& final(self).handles == old(self).handles
                &&& (old(self).registered(handle) ==> final(self).keys_of(handle) == old(
                    self,
                ).keys_after(handle, key, state))
                &&& (!old(self).registered(handle) ==> *final(self) == *old(self))
                &&& forall|h: u32|
                    h != handle && old(self).registered(h) ==> final(self).keys_of(h) == old(
                        self,
                    ).keys_of(h)
            },
            !(event matches Event::Keyboard(KeyboardEvent::Key { .. })) ==> r && *final(self)
                == *old(self),
            final(self).wf(),
    {
        match event {
            Event::Keyboard(KeyboardEvent::Key { key, state, .. }) => {
                self.update_pressed_keys(handle, key, state)
            },
            _ => true,
        }
    }

    /// Whether the handle currently holds the key down, as the dedup
    /// accounting sees it.
    pub fn is_pressed(&self, handle: u32, key: u32) -> (r: bool)
        requires
            self.wf(),
        ensures
            r == (self.registered(handle) && self.keys_of(handle).contains(key)),
    {
        match self.find_handle(handle) {
            Some(i) => vec_contains(&self.pressed_keys[i], key),
            None => false,
        }
    }
}

} // verus!
