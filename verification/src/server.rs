//! The per-connection session: one tracker, one sample buffer, and a step
//! function that turns each event of the connection's life — a timer tick,
//! an inbound frame, a close — into the next state and the action the
//! caller must take. The caller runs the event loop; everything decided
//! here is decided once, in one place.

use crate::data::{
    csv_spec, file_name_spec, relative_spec, relative_timestamp, write_on_triggers, Data,
    DataHolder, DataModel,
};
use crate::err::{ErrModel, MessageError};
use crate::message::{parse_spec, serial_spec, MessageModel, TimerMessage};
use crate::ping::PingPong;
use vstd::prelude::*;

verus! {

/// The service-wide settings of the session loops.
pub struct Server {
    /// In what interval, in seconds, latency probes are sent.
    pub ping_interval: u64,
}

impl Server {
    pub fn new(ping_interval: u64) -> (r: Server)
        ensures
            r.ping_interval == ping_interval,
    {
        Server { ping_interval }
    }
}

/// One thing the connection did: the probe timer fired, a text frame
/// arrived, a frame of some other kind arrived, or the peer closed.
pub enum SessionEvent {
    Tick,
    Text(String),
    NonText,
    Closed,
}

/// What the caller must do after a step.
pub enum SessionStep {
    /// Send this probe frame; `abandoned` reports a probe that was still
    /// open when the timer fired, with its sequence and age.
    SendPing { frame: String, abandoned: Option<(u32, u128)> },
    /// Send this round-trip-time report frame.
    SendRtt { frame: String },
    /// A pong that completed nothing: a mismatched sequence (carried), or
    /// no probe pending. Log and carry on.
    Ignored { mismatch: Option<u32> },
    /// The sample was buffered; nothing else to do.
    Stored,
    /// The sample was buffered and the flush policy fired: write `content`
    /// to the file `name`, then call `complete_flush` on the holder — or
    /// end the session if the write fails, leaving the buffer as it is.
    WriteFile { name: String, content: String },
    /// The peer closed; end the session cleanly.
    Ended,
    /// A fatal protocol error; end the session with it.
    Failed(MessageError),
}

/// The per-connection state: the probe tracker and the sample buffer.
pub struct Session {
    pub ping: PingPong,
    pub holder: DataHolder,
}

impl Session {
    /// A fresh session over a holder, with the tracker's initial probe
    /// started at `now_ms`.
    pub fn new(holder: DataHolder, now_ms: u128) -> (r: Session)
        ensures
            r.holder == holder,
            r.ping.counter == 0,
            r.ping.active == Some(now_ms),
    {
        Session { ping: PingPong::new(now_ms), holder }
    }

    /// Advance the session by one event at time `now_ms`.
    ///
    /// On a tick, any open probe is abandoned and reported, and a fresh
    /// probe always begins. On a text frame, the frame is parsed: a parse
    /// error is fatal; a pong completes the open probe — sending a report
    /// and recording the time — or is ignored; a sample is stamped with its
    /// relative time and buffered, flushing if the policy fires; an
    /// outbound-only message inbound is fatal. A non-text frame is fatal; a
    /// close ends the session.
    pub fn step(&mut self, now_ms: u128, event: SessionEvent) -> (r: SessionStep)
        requires
            old(self).ping.counter < u32::MAX,
            old(self).holder.counter < usize::MAX,
        ensures
            (match event {
                SessionEvent::Tick => {
                    &&& r matches SessionStep::SendPing { frame, abandoned } && {
                        &&& frame@ == serial_spec(
                            MessageModel::Ping { i: (old(self).ping.counter + 1) as u32 },
                        )
                        &&& abandoned == (match old(self).ping.active {
                            Some(start) => Some(
                                (old(self).ping.counter, crate::elapsed_spec(start, now_ms)),
                            ),
                            None => None,
                        })
                    }
                    &&& final(self).ping.counter == old(self).ping.counter + 1
                    &&& final(self).ping.active == Some(now_ms)
                    &&& final(self).holder == old(self).holder
                },
                SessionEvent::Text(t) => (match parse_spec(t@) {
                    Err(e) => {
                        &&& r matches SessionStep::Failed(e2) && e2@ == e
                        &&& *final(self) == *old(self)
                    },
                    Ok(MessageModel::Pong { i }) => {
                        let (p2, res) = old(self).ping.finish_spec(i, now_ms);
                        match res {
                            Ok(rtt) => {
                                &&& r matches SessionStep::SendRtt { frame } && frame@
                                    == serial_spec(MessageModel::Rtt { rtt })
                                &&& final(self).ping == p2
                                &&& final(self).holder.rtt == rtt
                                &&& final(self).holder.rows() == old(self).holder.rows()
                                &&& final(self).holder.counter == old(self).holder.counter
                                &&& final(self).holder.file_counter == old(
                                    self,
                                ).holder.file_counter
                                &&& final(self).holder.same_config(old(self).holder)
                            },
                            Err(m) => {
                                &&& r matches SessionStep::Ignored { mismatch } && mismatch == m
                                &&& *final(self) == *old(self)
                            },
                        }
                    },
                    Ok(MessageModel::Data { key, key_code, typ }) => {
                        let sample = DataModel {
                            key,
                            timestamp: relative_spec(now_ms, old(self).holder.first_timestamp),
                            typ,
                            key_code,
                        };
                        let fired = write_on_triggers(
                            old(self).holder.write_on,
                            old(self).holder.counter + 1,
                            sample,
                        );
                        &&& final(self).ping == old(self).ping
                        &&& final(self).holder.rows() == old(self).holder.rows().push(sample)
                        &&& final(self).holder.counter == old(self).holder.counter + 1
                        &&& final(self).holder.file_counter == old(self).holder.file_counter
                        &&& final(self).holder.rtt == old(self).holder.rtt
                        &&& final(self).holder.same_config(old(self).holder)
                        &&& (if fired {
                            r matches SessionStep::WriteFile { name, content } && {
                                &&& name@ == file_name_spec(
                                    old(self).holder.out_prefix@,
                                    old(self).holder.connection_counter as nat,
                                    old(self).holder.file_counter as nat,
                                )
                                &&& content@ == csv_spec(
                                    old(self).holder.rows().push(sample),
                                    old(self).holder.rtt,
                                )
                            }
                        } else {
                            r is Stored
                        })
                    },
                    Ok(MessageModel::Ping { .. }) | Ok(MessageModel::Rtt { .. }) => {
                        &&& r matches SessionStep::Failed(e2) && e2@
                            == ErrModel::UnexpectedMessageTyp
                        &&& *final(self) == *old(self)
                    },
                }),
                SessionEvent::NonText => {
                    &&& r matches SessionStep::Failed(e2) && e2@ == ErrModel::UnexpectedMessageTyp
                    &&& *final(self) == *old(self)
                },
                SessionEvent::Closed => {
                    &&& r is Ended
                    &&& *final(self) == *old(self)
                },
            }),
    {
        match event {
            SessionEvent::Tick => {
                let abandoned = match self.ping.close(now_ms) {
                    Ok(()) => None,
                    Err(pair) => Some(pair),
                };
                match self.ping.next(now_ms) {
                    Ok(i) => {
                        let frame = TimerMessage::Ping { i }.as_string();
                        SessionStep::SendPing { frame, abandoned }
                    },
                    Err(_) => {
                        // After a close the tracker is idle, so beginning a
                        // probe cannot fail.
                        proof {
                            assert(false);
                        }
                        SessionStep::Ended
                    },
                }
            },
            SessionEvent::Text(t) => {
                match TimerMessage::parse(t.as_str()) {
                    Err(e) => SessionStep::Failed(e),
                    Ok(TimerMessage::Pong { i }) => {
                        match self.ping.finish(i, now_ms) {
                            Ok(rtt) => {
                                let frame = TimerMessage::Rtt { rtt }.as_string();
                                self.holder.update_rtt(rtt);
                                SessionStep::SendRtt { frame }
                            },
                            Err(mismatch) => SessionStep::Ignored { mismatch },
                        }
                    },
                    Ok(TimerMessage::Data { key, key_code, typ }) => {
                        let timestamp = relative_timestamp(now_ms, self.holder.first_timestamp());
                        let sample = Data { key, timestamp, typ, key_code };
                        let flush_now = self.holder.push(sample);
                        if flush_now {
                            let name = self.holder.flush_file_name();
                            let content = self.holder.flush_content();
                            SessionStep::WriteFile { name, content }
                        } else {
                            SessionStep::Stored
                        }
                    },
                    Ok(TimerMessage::Ping { .. }) | Ok(TimerMessage::Rtt { .. }) => {
                        SessionStep::Failed(MessageError::UnexpectedMessageTyp)
                    },
                }
            },
            SessionEvent::NonText => SessionStep::Failed(MessageError::UnexpectedMessageTyp),
            SessionEvent::Closed => SessionStep::Ended,
        }
    }
}

} // verus!
