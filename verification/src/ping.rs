use crate::elapsed_spec;
use vstd::prelude::*;

verus! {

/// Round-trip-time probe tracker. `counter` is the sequence number of the
/// most recently issued probe; `active` holds the start time in milliseconds
/// of the probe still awaiting its reply, if any. At most one probe is
/// outstanding at a time, and `counter` never decreases.
pub struct PingPong {
    pub counter: u32,
    pub active: Option<u128>,
}

impl PingPong {
    /// What `next` does: if a probe is still outstanding it fails with the
    /// current sequence and leaves the tracker alone; otherwise it issues a
    /// fresh probe with the next sequence number, started at `now_ms`.
    pub open spec fn next_spec(self, now_ms: u128) -> (PingPong, Result<u32, u32>) {
        if self.active is Some {
            (self, Err(self.counter))
        } else {
            let c = (self.counter + 1) as u32;
            (PingPong { counter: c, active: Some(now_ms) }, Ok(c))
        }
    }

    /// What `finish` does: a reply completes the outstanding probe only if
    /// one is pending and the reply's sequence matches; then the tracker
    /// returns to idle and reports the elapsed time. A mismatched sequence
    /// fails with the current sequence, a reply with no probe pending fails
    /// with nothing; neither failure changes the tracker.
    pub open spec fn finish_spec(self, c: u32, now_ms: u128) -> (PingPong, Result<u128, Option<u32>>) {
        match self.active {
            Some(start) => {
                if self.counter == c {
                    (PingPong { counter: self.counter, active: None }, Ok(elapsed_spec(start, now_ms)))
                } else {
                    (self, Err(Some(self.counter)))
                }
            },
            None => (self, Err(None)),
        }
    }

    /// What `close` does: an outstanding probe is abandoned and reported
    /// with its sequence and age; an idle tracker is left alone.
    pub open spec fn close_spec(self, now_ms: u128) -> (PingPong, Result<(), (u32, u128)>) {
        match self.active {
            Some(start) => (
                PingPong { counter: self.counter, active: None },
                Err((self.counter, elapsed_spec(start, now_ms))),
            ),
            None => (self, Ok(())),
        }
    }

    /// A fresh tracker starts at sequence 0 with an initial probe already
    /// pending, started at `now_ms`.
    pub fn new(now_ms: u128) -> (r: PingPong)
        ensures
            r.counter == 0,
            r.active == Some(now_ms),
    {
        PingPong { counter: 0, active: Some(now_ms) }
    }

    pub fn has_active(&self) -> (r: bool)
        ensures
            r == (self.active is Some),
    {
        self.active.is_some()
    }

    /// Begin a new probe at time `now_ms`.
    pub fn next(&mut self, now_ms: u128) -> (r: Result<u32, u32>)
        requires
            old(self).counter < u32::MAX,
        ensures
            (*final(self), r) == old(self).next_spec(now_ms),
    {
        if self.active.is_some() {
            return Err(self.counter);
        }
        self.counter = self.counter + 1;
        self.active = Some(now_ms);
        Ok(self.counter)
    }

    /// Complete the outstanding probe with the reply sequence `c` at time
    /// `now_ms`.
    pub fn finish(&mut self, c: u32, now_ms: u128) -> (r: Result<u128, Option<u32>>)
        ensures
            (*final(self), r) == old(self).finish_spec(c, now_ms),
    {
        if let Some(start) = self.active {
            if self.counter == c {
                let elapsed = crate::elapsed_since(start, now_ms);
                self.active = None;
                return Ok(elapsed);
            }
            return Err(Some(self.counter));
        }
        Err(None)
    }

    /// Abandon the outstanding probe, if any, at time `now_ms`.
    pub fn close(&mut self, now_ms: u128) -> (r: Result<(), (u32, u128)>)
        ensures
            (*final(self), r) == old(self).close_spec(now_ms),
    {
        if let Some(start) = self.active {
            self.active = None;
            return Err((self.counter, crate::elapsed_since(start, now_ms)));
        }
        Ok(())
    }
}

/// Law: a reply equal to the pending sequence completes the probe, yields
/// the elapsed time and leaves the tracker idle; any other reply fails
/// without touching the sequence or the pending probe.
pub proof fn lemma_complete_probe(p: PingPong, c: u32, now_ms: u128)
    ensures
        (p.active is Some && p.counter == c) ==> {
            let (q, r) = p.finish_spec(c, now_ms);
            &&& r == Ok::<u128, Option<u32>>(elapsed_spec(p.active->0, now_ms))
            &&& q.active is None
            &&& q.counter == p.counter
        },
        (p.active is None || p.counter != c) ==> {
            let (q, r) = p.finish_spec(c, now_ms);
            &&& r is Err
            &&& q == p
        },
{
}

/// Law: beginning a probe never succeeds twice in a row. After a
/// successful `next`, another `next` with no intervening `finish` or
/// `close` fails.
pub proof fn lemma_begin_probe_not_twice(p: PingPong, t1: u128, t2: u128)
    ensures
        p.next_spec(t1).1 is Ok ==> p.next_spec(t1).0.next_spec(t2).1 is Err,
{
}

/// Law: a `finish` or a `close` is what re-arms the tracker: each leaves
/// the tracker idle exactly when it succeeded (for `finish`) or reported an
/// abandoned probe (for `close`), and `next` succeeds exactly from idle.
pub proof fn lemma_rearm(p: PingPong, c: u32, t: u128)
    ensures
        p.finish_spec(c, t).1 is Ok ==> p.finish_spec(c, t).0.next_spec(t).1 is Ok,
        p.close_spec(t).0.next_spec(t).1 is Ok,
{
}

} // verus!
