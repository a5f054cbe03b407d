//! The datalink coordinator: shared streaming state, the recording,
//! the estimator, and the decisions of the three loops.
//!
//! The surrounding process runs the loops and performs the radio and
//! sensor work; every decision in between — what a command changes,
//! what a sampling cycle records and sends, what a send failure
//! unsubscribes — is made here, with a contract.

use vstd::prelude::*;

use crate::altimeter::{spec_default_stats, spec_filter_phase, spec_power_phase, Altimeter};
use crate::battery::BatteryStats;
use crate::command::{parse_command, spec_parse_command, Command, CommandParseError};
use crate::dbl::dbl_div;
use crate::recording::{spec_try_push, RecordingBuffer, RECORDING_CAPACITY};
use crate::telemetry::{spec_encode, spec_telemetry_from, Telemetry};

verus! {

/// The 6-byte link-layer address of a ground-station peer.
pub type PeerAddress = [u8; 6];

/// The streaming state all loops synchronize on: which peer is
/// subscribed, and whether sampled telemetry is being streamed to it.
pub struct SharedState {
    pub active_peer: Option<PeerAddress>,
    pub streaming: bool,
}

/// What a handled command asks the caller to perform outside the
/// state change.
pub enum CommandAction {
    /// Nothing: the state change (if any) was the whole effect.
    Nothing,
    /// Fire the one-shot audible alert.
    Buzz,
    /// Hand this encoded record to the radio, addressed to this peer.
    Retransmit(PeerAddress, Vec<u8>),
}

/// Fixed-layout binary serialization of a value of type `T`.
///
/// `wire` is the value's encoding and `parsed` says what a byte string
/// decodes to; the two executable methods are bound to them exactly.
pub trait ByteSerialize<T>: Sized {
    /// The encoded bytes of this value.
    spec fn wire(&self) -> Seq<u8>;

    /// What `buffer` decodes to, `None` where it cannot be decoded.
    spec fn parsed(buffer: Seq<u8>) -> Option<T>;

    /// Writes the encoding over the front of `buffer`, keeping the rest.
    fn as_bytes(&self, buffer: &mut Vec<u8>) -> (r: Result<(), ()>)
        requires
            old(buffer)@.len() >= self.wire().len(),
        ensures
            r is Ok,
            final(buffer)@ == self.wire() + old(buffer)@.skip(self.wire().len() as int);

    /// Decodes a value from the front of `buffer`.
    fn from_bytes(buffer: &[u8]) -> (r: Result<T, ()>)
        ensures
            match Self::parsed(buffer@) {
                Some(t) => r == Ok::<T, ()>(t),
                None => r is Err,
            };
}

/// The datalink coordinator: one peer at a time, a bounded recording
/// of what was streamed to it, and the altitude estimator the
/// sampling loop feeds.
pub struct Datalink {
    pub state: SharedState,
    pub recording: RecordingBuffer,
    pub altimeter: Altimeter,
}

impl Datalink {
    /// A fresh coordinator: idle, empty recording, fresh estimator.
    pub fn new() -> (d: Datalink)
        ensures
            d.state.active_peer is None,
            !d.state.streaming,
            d.recording@ == Seq::<Telemetry>::empty(),
            d.altimeter.stats == spec_default_stats(),
            d.altimeter.sea_level_pressure == crate::altimeter::DEFAULT_SEA_LEVEL_PRESSURE,
    {
        Datalink {
            state: SharedState { active_peer: None, streaming: false },
            recording: RecordingBuffer::new(),
            altimeter: Altimeter::new(),
        }
    }

    /// Handles one inbound command line from `sender`.
    ///
    /// A malformed command is dropped: the error is returned and
    /// nothing changes.  `ton` clears the recording and subscribes the
    /// sender; `toff` pauses streaming but keeps the peer; `re_tx`
    /// re-encodes a recorded record for the subscribed peer, and is a
    /// quiet no-op where the index was never filled or no peer is set;
    /// `inhg` recalibrates the reference pressure; `reset` puts the
    /// stats back to their pre-sample state; anything else is inert.
    pub fn handle_command(&mut self, sender: PeerAddress, data: &[u8]) -> (r: Result<
        CommandAction,
        CommandParseError,
    >)
        ensures
            match spec_parse_command(data@) {
                Err(e) => r == Err::<CommandAction, _>(e) && *final(self) == *old(self),
                Ok(c) => r is Ok && match c {
                    Command::Tone => *final(self) == *old(self) && (r matches Ok(
                        CommandAction::Buzz,
                    )),
                    Command::Ton => {
                        &&& final(self).state.active_peer == Some(sender)
                        &&& final(self).state.streaming
                        &&& final(self).recording@ == Seq::<Telemetry>::empty()
                        &&& final(self).altimeter == old(self).altimeter
                        &&& (r matches Ok(CommandAction::Nothing))
                    },
                    Command::Toff => {
                        &&& final(self).state.active_peer == old(self).state.active_peer
                        &&& !final(self).state.streaming
                        &&& final(self).recording@ == old(self).recording@
                        &&& final(self).altimeter == old(self).altimeter
                        &&& (r matches Ok(CommandAction::Nothing))
                    },
                    Command::ReTx(index) => {
                        &&& *final(self) == *old(self)
                        &&& if index < old(self).recording@.len() && old(
                            self,
                        ).state.active_peer is Some {
                            r matches Ok(CommandAction::Retransmit(peer, frame))
                                && Some(peer) == old(self).state.active_peer && frame@
                                == spec_encode(old(self).recording@[index as int])
                        } else {
                            r matches Ok(CommandAction::Nothing)
                        }
                    },
                    Command::Inhg(v) => {
                        &&& final(self).state == old(self).state
                        &&& final(self).recording@ == old(self).recording@
                        &&& final(self).altimeter.stats == old(self).altimeter.stats
                        &&& final(self).altimeter.sea_level_pressure == v
                        &&& (r matches Ok(CommandAction::Nothing))
                    },
                    Command::Reset => {
                        &&& final(self).state == old(self).state
                        &&& final(self).recording@ == old(self).recording@
                        &&& final(self).altimeter.stats == spec_default_stats()
                        &&& final(self).altimeter.sea_level_pressure == old(
                            self,
                        ).altimeter.sea_level_pressure
                        &&& (r matches Ok(CommandAction::Nothing))
                    },
                    Command::Unknown => *final(self) == *old(self) && (r matches Ok(
                        CommandAction::Nothing,
                    )),
                },
            },
    {
        match parse_command(data) {
            Err(e) => Err(e),
            Ok(Command::Tone) => Ok(CommandAction::Buzz),
            Ok(Command::Ton) => {
                self.recording.clear();
                self.state.streaming = true;
                self.state.active_peer = Some(sender);
                Ok(CommandAction::Nothing)
            },
            Ok(Command::Toff) => {
                self.state.streaming = false;
                Ok(CommandAction::Nothing)
            },
            Ok(Command::ReTx(index)) => {
                match self.recording.get(index) {
                    Some(record) => match self.state.active_peer {
                        Some(peer) => Ok(CommandAction::Retransmit(peer, record.encode())),
                        None => Ok(CommandAction::Nothing),
                    },
                    None => Ok(CommandAction::Nothing),
                }
            },
            Ok(Command::Inhg(v)) => {
                self.altimeter.sea_level_pressure(v);
                Ok(CommandAction::Nothing)
            },
            Ok(Command::Reset) => {
                self.altimeter.reset_stats();
                Ok(CommandAction::Nothing)
            },
            Ok(Command::Unknown) => Ok(CommandAction::Nothing),
        }
    }

    /// The filtering phase of one sampling cycle: feeds the raw
    /// readings to the estimator and returns the pressure ratio whose
    /// power the caller computes (see [`crate::altimeter::BARO_EXPONENT`]).
    pub fn begin_sample(&mut self, temperature: u64, pressure: u64) -> (ratio: u64)
        requires
            old(self).altimeter.stats.kalman_state.n < u32::MAX,
        ensures
            final(self).altimeter.stats == spec_filter_phase(
                old(self).altimeter.stats,
                temperature,
                pressure,
            ),
            final(self).altimeter.sea_level_pressure == old(self).altimeter.sea_level_pressure,
            final(self).state == old(self).state,
            final(self).recording@ == old(self).recording@,
            ratio == dbl_div(
                final(self).altimeter.stats.filtered_pressure,
                old(self).altimeter.sea_level_pressure,
            ),
    {
        self.altimeter.update_stats(temperature, pressure)
    }

    /// The emitting phase of one sampling cycle: records the altitude
    /// derived from the powered pressure ratio, and, while streaming
    /// to a subscribed peer, builds the telemetry record, stores it if
    /// the recording has room, and returns the frame to send exactly
    /// when the record was stored.  Without a peer or with streaming
    /// off, nothing is recorded and nothing is sent.
    pub fn finish_sample(&mut self, pow_ratio: u64, time_ms: u32, battery: BatteryStats) -> (r:
        Option<(PeerAddress, Vec<u8>)>)
        ensures
            final(self).altimeter.stats == spec_power_phase(old(self).altimeter.stats, pow_ratio),
            final(self).altimeter.sea_level_pressure == old(self).altimeter.sea_level_pressure,
            final(self).state == old(self).state,
            ({
                let stats = spec_power_phase(old(self).altimeter.stats, pow_ratio);
                let record = Telemetry {
                    time: time_ms,
                    ..spec_telemetry_from((stats, battery))
                };
                if old(self).state.streaming && old(self).state.active_peer is Some {
                    &&& final(self).recording@ == spec_try_push(old(self).recording@, record)
                    &&& if old(self).recording@.len() < RECORDING_CAPACITY {
                        r matches Some((peer, frame)) && Some(peer) == old(
                            self,
                        ).state.active_peer && frame@ == spec_encode(record)
                    } else {
                        r is None
                    }
                } else {
                    final(self).recording@ == old(self).recording@ && r is None
                }
            }),
    {
        self.altimeter.apply_altitude(pow_ratio);
        if self.state.streaming {
            match self.state.active_peer {
                Some(peer) => {
                    let mut record = Telemetry::from((self.altimeter.stats, battery));
                    record.time = time_ms;
                    if self.recording.try_push(record) {
                        Some((peer, record.encode()))
                    } else {
                        None
                    }
                },
                None => None,
            }
        } else {
            None
        }
    }

    /// Notes that a send to the active peer failed: the unreachable
    /// peer is unsubscribed, so later cycles send nothing until a new
    /// `ton` arrives.
    pub fn send_failed(&mut self)
        ensures
            final(self).state.active_peer is None,
            final(self).state.streaming == old(self).state.streaming,
            final(self).recording@ == old(self).recording@,
            final(self).altimeter == old(self).altimeter,
    {
        self.state.active_peer = None;
    }
}

} // verus!
