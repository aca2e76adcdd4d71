//! The supervisor's per-tick decisions: which enabled connections get an
//! HTTP poll dispatched and which get a WebSocket listener started, with the
//! active-listener set that keeps one listener per connection.

use vstd::prelude::*;

verus! {

use crate::model::Connection;
use crate::schedule::{spec_should_poll, should_poll};
use crate::transport::{spec_is_ws_type, is_ws_connection_type};

/// The identifiers of connections whose WebSocket listener is running. The
/// supervisor consults it before starting a listener, so at most one runs
/// per connection.
pub struct ActiveWsSet {
    ids: Vec<u128>,
}

impl ActiveWsSet {
    /// The set of active identifiers.
    pub closed spec fn view(&self) -> Set<u128> {
        self.ids@.to_set()
    }

    /// The identifiers are stored without repetition.
    pub closed spec fn wf(&self) -> bool {
        forall|i: int, j: int| 0 <= i < j < self.ids@.len() ==> self.ids@[i] != self.ids@[j]
    }

    /// An empty active set.
    pub fn new() -> (s: Self)
        ensures
            s.wf(),
            s@ == Set::<u128>::empty(),
    {
        let s = ActiveWsSet { ids: Vec::new() };
        proof {
            assert(s.ids@.to_set() =~= Set::<u128>::empty());
        }
        s
    }

    /// Whether a listener is registered for this connection.
    pub fn contains(&self, id: u128) -> (r: bool)
        ensures
            r == self@.contains(id),
    {
        let mut i: usize = 0;
        while i < self.ids.len()
            invariant
                i <= self.ids@.len(),
                forall|j: int| 0 <= j < i ==> self.ids@[j] != id,
            decreases self.ids@.len() - i,
        {
            if self.ids[i] == id {
                proof {
                    assert(self.ids@.to_set().contains(self.ids@[i as int]));
                }
                return true;
            }
            i = i + 1;
        }
        proof {
            if self.ids@.to_set().contains(id) {
                let k = choose|k: int| 0 <= k < self.ids@.len() && self.ids@[k] == id;
                assert(self.ids@[k] == id);
            }
        }
        false
    }

    /// Registers a listener for this connection.
    pub fn insert(&mut self, id: u128)
        requires
            old(self).wf(),
            !old(self)@.contains(id),
        ensures
            final(self).wf(),
            final(self)@ == old(self)@.insert(id),
    {
        proof {
            if exists|k: int| 0 <= k < self.ids@.len() && self.ids@[k] == id {
                let k = choose|k: int| 0 <= k < self.ids@.len() && self.ids@[k] == id;
                assert(self.ids@.to_set().contains(id));
            }
        }
        self.ids.push(id);
        proof {
            assert(self.ids@.drop_last() =~= old(self).ids@);
            assert(self.ids@.to_set() =~= old(self).ids@.to_set().insert(id)) by {
                assert forall|x: u128| self.ids@.to_set().contains(x) implies old(
                    self,
                ).ids@.to_set().insert(id).contains(x) by {
                    let k = choose|k: int| 0 <= k < self.ids@.len() && self.ids@[k] == x;
                    if k < self.ids@.len() - 1 {
                        assert(old(self).ids@[k] == x);
                        assert(old(self).ids@.to_set().contains(x));
                    }
                }
                assert forall|x: u128|
                    old(self).ids@.to_set().insert(id).contains(x) implies self.ids@.to_set().contains(
                    x,
                ) by {
                    if x == id {
                        assert(self.ids@[self.ids@.len() - 1] == x);
                    } else {
                        let k = choose|k: int|
                            0 <= k < old(self).ids@.len() && old(self).ids@[k] == x;
                        assert(self.ids@[k] == x);
                    }
                }
            }
        }
    }

    /// Releases the listener slot for this connection, as the supervisor
    /// does when a listener task ends.
    pub fn remove(&mut self, id: u128)
        requires
            old(self).wf(),
        ensures
            final(self).wf(),
            final(self)@ == old(self)@.remove(id),
    {
        let mut out: Vec<u128> = Vec::new();
        let mut i: usize = 0;
        while i < self.ids.len()
            invariant
                old(self).wf(),
                self.ids@ == old(self).ids@,
                i <= self.ids@.len(),
                forall|a: int, b: int| 0 <= a < b < out@.len() ==> out@[a] != out@[b],
                forall|a: int| 0 <= a < out@.len() ==> out@[a] != id,
                forall|a: int| #![trigger out@[a]]
                    0 <= a < out@.len() ==> exists|b: int|
                        0 <= b < i && self.ids@[b] == out@[a],
                forall|b: int| #![trigger self.ids@[b]]
                    0 <= b < i && self.ids@[b] != id ==> exists|a: int|
                        0 <= a < out@.len() && out@[a] == self.ids@[b],
            decreases self.ids@.len() - i,
        {
            let v = self.ids[i];
            if v != id {
                let ghost pre_out = out@;
                out.push(v);
                proof {
                    assert(out@.drop_last() =~= pre_out);
                    assert(out@[out@.len() - 1] == self.ids@[i as int]);
                    assert forall|a: int| #![trigger out@[a]]
                        0 <= a < out@.len() implies exists|b: int|
                        0 <= b < i + 1 && self.ids@[b] == out@[a] by {
                        if a < out@.len() - 1 {
                            assert(pre_out[a] == out@[a]);
                        }
                    }
                    assert forall|b: int| #![trigger self.ids@[b]]
                        0 <= b < i + 1 && self.ids@[b] != id implies exists|a: int|
                        0 <= a < out@.len() && out@[a] == self.ids@[b] by {
                        if b < i {
                            let a = choose|a: int|
                                0 <= a < pre_out.len() && pre_out[a] == self.ids@[b];
                            assert(out@[a] == self.ids@[b]);
                        } else {
                            assert(out@[out@.len() - 1] == self.ids@[b]);
                        }
                    }
                }
            } else {
                proof {
                    assert forall|b: int| #![trigger self.ids@[b]]
                        0 <= b < i + 1 && self.ids@[b] != id implies exists|a: int|
                        0 <= a < out@.len() && out@[a] == self.ids@[b] by {
                        assert(b != i);
                    }
                }
            }
            i = i + 1;
        }
        self.ids = out;
        proof {
            assert(self.ids@.to_set() =~= old(self).ids@.to_set().remove(id)) by {
                assert forall|x: u128| self.ids@.to_set().contains(x) implies old(
                    self,
                ).ids@.to_set().remove(id).contains(x) by {
                    let a = choose|a: int| 0 <= a < self.ids@.len() && self.ids@[a] == x;
                    let b = choose|b: int|
                        0 <= b < old(self).ids@.len() && old(self).ids@[b] == self.ids@[a];
                    assert(old(self).ids@.to_set().contains(x));
                }
                assert forall|x: u128|
                    old(self).ids@.to_set().remove(id).contains(x) implies self.ids@.to_set().contains(
                    x,
                ) by {
                    let b = choose|b: int|
                        0 <= b < old(self).ids@.len() && old(self).ids@[b] == x;
                    let a = choose|a: int| 0 <= a < self.ids@.len() && self.ids@[a] == x;
                    assert(self.ids@.to_set().contains(x));
                }
            }
        }
    }
}

/// What the supervisor does with one enabled connection on a tick.
#[derive(Clone, Copy, Debug, PartialEq, Eq, Structural)]
pub enum TickAction {
    StartWsListener,
    DispatchPoll,
    Skip,
}

/// Decides one connection's fate on a supervisor tick: a WebSocket
/// connection gets a listener unless one is already registered; an HTTP
/// connection gets a poll dispatched when it is due.
pub fn tick_connection(conn: &Connection, active: &mut ActiveWsSet, now: i64) -> (a: TickAction)
    requires
        old(active).wf(),
    ensures
        final(active).wf(),
        spec_is_ws_type(conn.connection_type@) && old(active)@.contains(conn.id) ==> a
            == TickAction::Skip && final(active)@ == old(active)@,
        spec_is_ws_type(conn.connection_type@) && !old(active)@.contains(conn.id) ==> a
            == TickAction::StartWsListener && final(active)@ == old(active)@.insert(conn.id),
        !spec_is_ws_type(conn.connection_type@) ==> {
            &&& final(active)@ == old(active)@
            &&& a == (if spec_should_poll(*conn, now) {
                TickAction::DispatchPoll
            } else {
                TickAction::Skip
            })
        },
{
    if is_ws_connection_type(conn.connection_type.as_str()) {
        if active.contains(conn.id) {
            TickAction::Skip
        } else {
            active.insert(conn.id);
            TickAction::StartWsListener
        }
    } else {
        if should_poll(conn, now) {
            TickAction::DispatchPoll
        } else {
            TickAction::Skip
        }
    }
}

} // verus!
