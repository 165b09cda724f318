//! Virtualized alarms: one hardware clock multiplexed over any number of
//! clients, each with its own setpoint. The multiplexer fires the clients
//! whose time has come and keeps the hardware alarm at the earliest remaining
//! setpoint.

use vstd::prelude::*;
use crate::async_util::Forwarder;
use crate::syscalls::Syscalls;
use crate::time::{AlarmClock, AlarmFired, Clock, InPast};

verus! {

/// Whether a recorded setpoint has been reached at time `now`.
pub open spec fn expires(setpoint: Option<u64>, now: u64) -> bool {
    setpoint matches Some(t) && t <= now
}

/// One client of the multiplexer: its pending alarm request, if any.
pub struct MuxClient {
    setpoint: Option<u64>,
}

impl MuxClient {
    /// The client's pending alarm time, if one is set.
    pub closed spec fn spec_setpoint(&self) -> Option<u64> {
        self.setpoint
    }

    /// Creates a client with no pending alarm.
    pub fn new() -> (r: MuxClient)
        ensures
            r.spec_setpoint() is None,
    {
        MuxClient { setpoint: None }
    }

    /// The client's pending alarm time; `u64::MAX` while none is set.
    pub fn get_alarm(&self) -> (r: u64)
        ensures
            self.spec_setpoint() matches Some(t) ==> r == t,
            self.spec_setpoint() is None ==> r == u64::MAX,
    {
        match self.setpoint {
            Some(t) => t,
            None => u64::MAX,
        }
    }
}

/// The alarm multiplexer: the registered clients, indexed by registration
/// order.
pub struct Mux {
    clients: Vec<MuxClient>,
}

impl View for Mux {
    type V = Seq<MuxClient>;

    closed spec fn view(&self) -> Seq<MuxClient> {
        self.clients@
    }
}

impl Mux {
    /// Creates a multiplexer with no clients.
    pub fn new() -> (r: Mux)
        ensures
            r@ =~= Seq::<MuxClient>::empty(),
    {
        Mux { clients: Vec::new() }
    }

    /// How many clients are registered.
    pub fn len(&self) -> (n: usize)
        ensures
            n == self@.len(),
    {
        self.clients.len()
    }

    /// Registers `client` and returns its index.
    pub fn add_client(&mut self, client: MuxClient) -> (idx: usize)
        ensures
            idx == old(self)@.len(),
            final(self)@ =~= old(self)@.push(client),
    {
        let idx = self.clients.len();
        self.clients.push(client);
        idx
    }

    /// Records an alarm request for the client at `idx`, or asks the
    /// hardware clock directly when the request is earlier than what the
    /// clock is already waiting for (the multiplexer would otherwise wake too
    /// late).
    pub fn set_client_alarm<F: Forwarder<AlarmFired>, K: Syscalls>(
        &mut self,
        kernel: &mut K,
        clock: &mut Clock<F>,
        idx: usize,
        time: u64,
    ) -> (r: Result<(), InPast>)
        requires
            idx < old(self)@.len(),
        ensures
            final(self)@.len() == old(self)@.len(),
            r is Ok ==> final(self)@[idx as int].spec_setpoint() == Some(time),
            r is Ok ==> forall|k: int|
                0 <= k < old(self)@.len() && k != idx ==> final(self)@[k] == old(self)@[k],
            r is Err ==> final(self)@ =~= old(self)@,
    {
        if clock.get_alarm() > time {
            match clock.set_alarm(kernel, time) {
                Ok(()) => {},
                Err(e) => {
                    return Err(e);
                },
            }
        }
        self.clients[idx].setpoint = Some(time);
        Ok(())
    }

    /// Clears every setpoint that `now` has reached and returns the indices
    /// of the clients to notify, in ascending order.
    pub fn fire_expired(&mut self, now: u64) -> (fired: Vec<usize>)
        ensures
            final(self)@.len() == old(self)@.len(),
            forall|k: int|
                0 <= k < old(self)@.len() ==> final(self)@[k].spec_setpoint() == (if expires(
                    old(self)@[k].spec_setpoint(),
                    now,
                ) {
                    None::<u64>
                } else {
                    old(self)@[k].spec_setpoint()
                }),
            forall|k: int|
                0 <= k < old(self)@.len() ==> (expires(old(self)@[k].spec_setpoint(), now)
                    <==> fired@.contains(k as usize)),
            forall|j: int| 0 <= j < fired@.len() ==> fired@[j] < old(self)@.len(),
    {
        let ghost orig = self@;
        let mut fired: Vec<usize> = Vec::new();
        let mut i: usize = 0;
        while i < self.clients.len()
            invariant
                i <= self.clients.len(),
                self.clients.len() == orig.len(),
                self@.len() == orig.len(),
                forall|k: int|
                    0 <= k < i ==> self@[k].spec_setpoint() == (if expires(
                        orig[k].spec_setpoint(),
                        now,
                    ) {
                        None::<u64>
                    } else {
                        orig[k].spec_setpoint()
                    }),
                forall|k: int| i <= k < orig.len() ==> self@[k] == orig[k],
                forall|k: int|
                    0 <= k < i ==> (expires(orig[k].spec_setpoint(), now) <==> fired@.contains(
                        k as usize,
                    )),
                forall|j: int| 0 <= j < fired@.len() ==> fired@[j] < i,
            decreases self.clients.len() - i,
        {
            let expired = match self.clients[i].setpoint {
                Some(t) => t <= now,
                None => false,
            };
            if expired {
                // Clear the setpoint first: the notification may immediately
                // set a new one.
                self.clients[i].setpoint = None;
                let ghost prev = fired@;
                fired.push(i);
                proof {
                    assert(fired@[prev.len() as int] == i);
                    assert forall|k: int|
                        0 <= k < i && #[trigger] prev.contains(k as usize) implies fired@.contains(
                        k as usize,
                    ) by {
                        let j = choose|j: int| 0 <= j < prev.len() && prev[j] == k as usize;
                        assert(fired@[j] == k as usize);
                    }
                }
            }
            i += 1;
        }
        fired
    }

    /// The earliest pending setpoint over all clients; `u64::MAX` when no
    /// alarm is pending.
    pub fn next_alarm(&self) -> (r: u64)
        ensures
            forall|k: int|
                0 <= k < self@.len() ==> (#[trigger] self@[k].spec_setpoint() matches Some(t)
                    ==> r <= t),
            r == u64::MAX || exists|k: int|
                0 <= k < self@.len() && self@[k].spec_setpoint() == Some(r),
    {
        let mut next: u64 = u64::MAX;
        let mut i: usize = 0;
        while i < self.clients.len()
            invariant
                i <= self.clients.len(),
                self.clients.len() == self@.len(),
                forall|k: int|
                    0 <= k < i ==> (#[trigger] self@[k].spec_setpoint() matches Some(t) ==> next
                        <= t),
                next == u64::MAX || exists|k: int|
                    0 <= k < i && self@[k].spec_setpoint() == Some(next),
            decreases self.clients.len() - i,
        {
            if let Some(t) = self.clients[i].setpoint {
                if t < next {
                    next = t;
                }
            }
            i += 1;
        }
        next
    }
}

/// Marker for the route from the hardware clock's completion back into the
/// multiplexer. The embedding that owns both drives [`mux_dispatch_round`]
/// when this forwarder is invoked.
#[derive(Clone, Copy)]
pub struct MuxForwarder;

impl Forwarder<AlarmFired> for MuxForwarder {
    fn invoke_callback(self, _response: AlarmFired) {
    }
}

/// One round of the multiplexer's dispatch loop, run when the hardware alarm
/// fires: clears and collects the clients whose time has come (the embedding
/// notifies them by index) and re-arms the hardware clock at the earliest
/// remaining setpoint. Returns the indices to notify and whether another
/// round is needed because re-arming reported a time already in the past.
pub fn mux_dispatch_round<F: Forwarder<AlarmFired>, K: Syscalls>(
    mux: &mut Mux,
    clock: &mut Clock<F>,
    kernel: &mut K,
) -> (r: (Vec<usize>, bool))
    ensures
        final(mux)@.len() == old(mux)@.len(),
        forall|j: int| 0 <= j < r.0@.len() ==> r.0@[j] < old(mux)@.len(),
{
    let now = clock.get_time(kernel);
    let fired = mux.fire_expired(now);
    let next = mux.next_alarm();
    if next == u64::MAX {
        return (fired, false);
    }
    let again = clock.set_alarm(kernel, next).is_err();
    (fired, again)
}

} // verus!
