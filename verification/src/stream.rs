use vstd::prelude::*;

use crate::config::SessionConfig;
use crate::frame::RequestUnit;
use crate::frame::encode_audio;
use crate::frame::encode_config;

verus! {

/// How the outbound producer paces and pads the session: an optional warm-up
/// of synthetic silence before real audio, the fixed delay between real
/// chunks, and an opt-in keep-alive that sends filler after the source is
/// exhausted instead of closing.
#[derive(Clone, Copy, Debug, PartialEq, Eq, Structural)]
pub struct PacingPolicy {
    /// How many synthetic zero-filled chunks to send before real audio.
    pub warmup_chunks: u32,
    /// Size of each warm-up chunk, in bytes.
    pub warmup_chunk_bytes: usize,
    /// Delay after each warm-up chunk, in milliseconds.
    pub warmup_interval_ms: u64,
    /// Delay after each real audio chunk, in milliseconds.
    pub pacing_interval_ms: u64,
    /// Whether to hold the session open with filler once the source ends.
    pub keep_alive: bool,
    /// Size of each keep-alive filler chunk, in bytes.
    pub filler_chunk_bytes: usize,
    /// Delay after each filler chunk, in milliseconds.
    pub filler_interval_ms: u64,
}

/// Where the outbound producer stands.
#[derive(Clone, Copy, Debug, PartialEq, Eq, Structural)]
pub enum StreamPhase {
    /// Nothing sent yet; the configuration unit goes out next.
    Init,
    /// Sending synthetic warm-up chunks before real audio.
    Warmup,
    /// Pulling real chunks from the source and sending them.
    Active,
    /// Source exhausted; holding the session open with filler.
    Filler,
    /// The stream is over; nothing more is produced.
    Done,
    /// The source failed; the stream is closed without further units.
    Failed,
}

/// What one pull from the audio source gave.
#[derive(Debug)]
pub enum PullOutcome {
    /// Bytes read from the source; a zero-length chunk signals exhaustion,
    /// as a read-into-buffer primitive returning 0 does.
    Chunk(Vec<u8>),
    /// The source reported end of input.
    End,
    /// The source failed; the stream must end without further units.
    ReadFailed,
}

/// What the driving loop must do next. After `Send`, the driver transmits the
/// unit, then waits the given delay (in milliseconds) before stepping again —
/// checking for cancellation at least once per such interval.
#[derive(Debug)]
pub enum OutboundAction {
    /// Transmit this unit, then wait the delay before the next step.
    Send(RequestUnit, u64),
    /// Pull the next chunk from the audio source and supply the outcome.
    Pull,
    /// End the outbound half normally.
    Close,
    /// End the outbound half because the source failed.
    Abort,
}

/// The record a session keeps, in ghost state, of each unit it emitted:
/// the one-time configuration, a chunk of real source audio, or synthetic
/// zero-filled padding (warm-up or keep-alive filler).
pub enum SentUnit {
    ConfigSent(SessionConfig),
    AudioSent(Seq<u8>),
    PaddingSent(Seq<u8>),
}

/// The real audio carried by a sequence of emitted units: the payloads of the
/// `AudioSent` units, concatenated in order; configuration and synthetic
/// padding contribute nothing.
pub open spec fn audio_bytes(s: Seq<SentUnit>) -> Seq<u8>
    decreases s.len(),
{
    if s.len() == 0 {
        Seq::empty()
    } else {
        audio_bytes(s.drop_last()) + (match s.last() {
            SentUnit::AudioSent(p) => p,
            _ => Seq::empty(),
        })
    }
}

/// A zero-filled payload of the given length.
pub open spec fn zero_seq(n: nat) -> Seq<u8> {
    Seq::new(n, |i: int| 0u8)
}

/// The paced, buffered outbound producer: it turns a pull-based audio source
/// plus a one-time configuration into the ordered sequence of request units,
/// one driving step at a time. The driver alternates `step` (and, after a
/// `Pull`, `supply`) with the transmission and delays the returned actions
/// call for; the bounded hand-off to the transport and the delays themselves
/// live with the driver.
pub struct SessionStream {
    pub config: SessionConfig,
    pub policy: PacingPolicy,
    pub phase: StreamPhase,
    /// Warm-up chunks still to send while in `Warmup`.
    pub warmup_left: u32,
    /// Raised by the inbound flow; once set, no further unit is produced.
    pub cancelled: bool,
    /// Every unit emitted so far, in order.
    pub sent: Ghost<Seq<SentUnit>>,
    /// Every byte accepted from the source so far, in order.
    pub pulled: Ghost<Seq<u8>>,
}

impl SessionStream {
    /// The invariant every step preserves: if anything was emitted, the
    /// configuration unit stands first and nowhere else, and the real audio
    /// emitted so far is exactly what the source yielded so far.
    pub open spec fn wf(self) -> bool {
        &&& (self.sent@.len() > 0 ==> self.sent@[0] == SentUnit::ConfigSent(self.config))
        &&& (forall|i: int| 1 <= i < self.sent@.len() ==> !(self.sent@[i] is ConfigSent))
        &&& (self.phase is Init ==> self.sent@.len() == 0)
        &&& ((self.phase is Warmup || self.phase is Active || self.phase is Filler)
            ==> self.sent@.len() > 0)
        &&& (self.phase is Warmup ==> 1 <= self.warmup_left <= self.policy.warmup_chunks)
        &&& audio_bytes(self.sent@) == self.pulled@
    }

    /// Opens the producer for one session: nothing emitted yet, the
    /// configuration unit first in line.
    pub fn open(config: SessionConfig, policy: PacingPolicy) -> (s: SessionStream)
        ensures
            s.wf(),
            s.config == config,
            s.policy == policy,
            s.phase is Init,
            !s.cancelled,
            s.sent@ == Seq::<SentUnit>::empty(),
            s.pulled@ == Seq::<u8>::empty(),
    {
        let s = SessionStream {
            config,
            policy,
            phase: StreamPhase::Init,
            warmup_left: 0,
            cancelled: false,
            sent: Ghost(Seq::empty()),
            pulled: Ghost(Seq::empty()),
        };
        proof {
            assert(audio_bytes(s.sent@) =~= s.pulled@);
        }
        s
    }

    /// Raises the cancellation signal. The next step — so, within one pacing
    /// interval of a cooperative driver — stops producing for good.
    pub fn cancel(&mut self)
        ensures
            final(self).cancelled,
            final(self).config == old(self).config,
            final(self).policy == old(self).policy,
            final(self).phase == old(self).phase,
            final(self).warmup_left == old(self).warmup_left,
            final(self).sent@ == old(self).sent@,
            final(self).pulled@ == old(self).pulled@,
            old(self).wf() ==> final(self).wf(),
    {
        self.cancelled = true;
    }

    /// One driving step while no pull is pending. Emits the configuration
    /// first, then any warm-up padding, asks for a pull while active, emits
    /// filler in keep-alive mode, and closes once done — unless cancelled,
    /// in which case it stops producing at once.
    pub fn step(&mut self) -> (a: OutboundAction)
        requires
            old(self).wf(),
        ensures
            final(self).wf(),
            final(self).config == old(self).config,
            final(self).policy == old(self).policy,
            final(self).cancelled == old(self).cancelled,
            final(self).pulled@ == old(self).pulled@,
            old(self).cancelled ==> (a is Close && final(self).phase is Done && final(self).sent@ == old(self).sent@),
            !old(self).cancelled ==> match old(self).phase {
                StreamPhase::Init => {
                    &&& (a matches OutboundAction::Send(u, d) && u == RequestUnit::Config(
                        old(self).config,
                    ) && d == 0)
                    &&& final(self).sent@ == old(self).sent@.push(
                        SentUnit::ConfigSent(old(self).config),
                    )
                    &&& final(self).phase == (if old(self).policy.warmup_chunks > 0 {
                        StreamPhase::Warmup
                    } else {
                        StreamPhase::Active
                    })
                },
                StreamPhase::Warmup => {
                    &&& (a matches OutboundAction::Send(u, d) && (u matches RequestUnit::AudioChunk(
                        p,
                    ) && p@ == zero_seq(old(self).policy.warmup_chunk_bytes as nat)) && d == old(self).policy.warmup_interval_ms)
                    &&& final(self).sent@ == old(self).sent@.push(
                        SentUnit::PaddingSent(zero_seq(old(self).policy.warmup_chunk_bytes as nat)),
                    )
                    &&& final(self).phase == (if old(self).warmup_left == 1 {
                        StreamPhase::Active
                    } else {
                        StreamPhase::Warmup
                    })
                    &&& final(self).warmup_left == old(self).warmup_left - 1
                },
                StreamPhase::Active => {
                    &&& a is Pull
                    &&& final(self).sent@ == old(self).sent@
                    &&& final(self).phase is Active
                },
                StreamPhase::Filler => {
                    &&& (a matches OutboundAction::Send(u, d) && (u matches RequestUnit::AudioChunk(
                        p,
                    ) && p@ == zero_seq(old(self).policy.filler_chunk_bytes as nat)) && d == old(self).policy.filler_interval_ms)
                    &&& final(self).sent@ == old(self).sent@.push(
                        SentUnit::PaddingSent(zero_seq(old(self).policy.filler_chunk_bytes as nat)),
                    )
                    &&& final(self).phase is Filler
                },
                StreamPhase::Done => {
                    &&& a is Close
                    &&& final(self).sent@ == old(self).sent@
                    &&& final(self).phase is Done
                },
                StreamPhase::Failed => {
                    &&& a is Abort
                    &&& final(self).sent@ == old(self).sent@
                    &&& final(self).phase is Failed
                },
            },
    {
        if self.cancelled {
            self.phase = StreamPhase::Done;
            return OutboundAction::Close;
        }
        match self.phase {
            StreamPhase::Init => {
                let config = self.config.clone();
                proof {
                    lemma_audio_bytes_push_other(
                        self.sent@,
                        SentUnit::ConfigSent(self.config),
                    );
                }
                self.sent = Ghost(self.sent@.push(SentUnit::ConfigSent(self.config)));
                if self.policy.warmup_chunks > 0 {
                    self.warmup_left = self.policy.warmup_chunks;
                    self.phase = StreamPhase::Warmup;
                } else {
                    self.phase = StreamPhase::Active;
                }
                OutboundAction::Send(encode_config(config), 0)
            },
            StreamPhase::Warmup => {
                let chunk = zero_chunk(self.policy.warmup_chunk_bytes);
                proof {
                    lemma_audio_bytes_push_other(self.sent@, SentUnit::PaddingSent(chunk@));
                }
                self.sent = Ghost(self.sent@.push(SentUnit::PaddingSent(chunk@)));
                self.warmup_left = self.warmup_left - 1;
                if self.warmup_left == 0 {
                    self.phase = StreamPhase::Active;
                }
                OutboundAction::Send(encode_audio(chunk), self.policy.warmup_interval_ms)
            },
            StreamPhase::Active => OutboundAction::Pull,
            StreamPhase::Filler => {
                let chunk = zero_chunk(self.policy.filler_chunk_bytes);
                proof {
                    lemma_audio_bytes_push_other(self.sent@, SentUnit::PaddingSent(chunk@));
                }
                self.sent = Ghost(self.sent@.push(SentUnit::PaddingSent(chunk@)));
                OutboundAction::Send(encode_audio(chunk), self.policy.filler_interval_ms)
            },
            StreamPhase::Done => OutboundAction::Close,
            StreamPhase::Failed => OutboundAction::Abort,
        }
    }

    /// Hands the producer the outcome of the pull it asked for. A non-empty
    /// chunk is wrapped and emitted at the pacing interval; a zero-length
    /// chunk or an explicit end exhausts the source, after which the stream
    /// closes — or, in keep-alive mode, turns to filler; a read failure ends
    /// the stream without emitting further units. A cancellation raised
    /// meanwhile wins over all of these.
    pub fn supply(&mut self, pull: PullOutcome) -> (a: OutboundAction)
        requires
            old(self).wf(),
            old(self).phase is Active,
        ensures
            final(self).wf(),
            final(self).config == old(self).config,
            final(self).policy == old(self).policy,
            final(self).cancelled == old(self).cancelled,
            old(self).cancelled ==> (a is Close && final(self).phase is Done && final(self).sent@ == old(self).sent@ && final(self).pulled@ == old(self).pulled@),
            !old(self).cancelled && (pull matches PullOutcome::Chunk(c) && c@.len() > 0) ==> (
            pull matches PullOutcome::Chunk(c) && {
                &&& (a matches OutboundAction::Send(u, d) && u == RequestUnit::AudioChunk(c)
                    && d == old(self).policy.pacing_interval_ms)
                &&& final(self).sent@ == old(self).sent@.push(SentUnit::AudioSent(c@))
                &&& final(self).pulled@ == old(self).pulled@ + c@
                &&& final(self).phase is Active
            }),
            !old(self).cancelled && ((pull matches PullOutcome::Chunk(c) && c@.len() == 0)
                || pull is End) ==> {
                &&& final(self).pulled@ == old(self).pulled@
                &&& (if old(self).policy.keep_alive {
                    &&& final(self).phase is Filler
                    &&& (a matches OutboundAction::Send(u, d) && (
                    u matches RequestUnit::AudioChunk(p) && p@ == zero_seq(
                        old(self).policy.filler_chunk_bytes as nat,
                    )) && d == old(self).policy.filler_interval_ms)
                    &&& final(self).sent@ == old(self).sent@.push(
                        SentUnit::PaddingSent(zero_seq(old(self).policy.filler_chunk_bytes as nat)),
                    )
                } else {
                    &&& final(self).phase is Done
                    &&& a is Close
                    &&& final(self).sent@ == old(self).sent@
                })
            },
            !old(self).cancelled && pull is ReadFailed ==> (a is Abort && final(self).phase is Failed && final(self).sent@ == old(self).sent@ && final(self).pulled@ == old(self).pulled@),
    {
        if self.cancelled {
            self.phase = StreamPhase::Done;
            return OutboundAction::Close;
        }
        match pull {
            PullOutcome::Chunk(c) => {
                if c.len() > 0 {
                    proof {
                        lemma_audio_bytes_push_audio(self.sent@, c@);
                    }
                    self.sent = Ghost(self.sent@.push(SentUnit::AudioSent(c@)));
                    self.pulled = Ghost(self.pulled@ + c@);
                    OutboundAction::Send(encode_audio(c), self.policy.pacing_interval_ms)
                } else {
                    self.on_exhausted()
                }
            },
            PullOutcome::End => self.on_exhausted(),
            PullOutcome::ReadFailed => {
                self.phase = StreamPhase::Failed;
                OutboundAction::Abort
            },
        }
    }

    /// The source is exhausted: close, or turn to keep-alive filler.
    fn on_exhausted(&mut self) -> (a: OutboundAction)
        requires
            old(self).wf(),
            old(self).phase is Active,
            !old(self).cancelled,
        ensures
            final(self).wf(),
            final(self).config == old(self).config,
            final(self).policy == old(self).policy,
            final(self).cancelled == old(self).cancelled,
            final(self).pulled@ == old(self).pulled@,
            if old(self).policy.keep_alive {
                final(self).phase is Filler && (a matches OutboundAction::Send(u, d) && (
                u matches RequestUnit::AudioChunk(p) && p@ == zero_seq(
                    old(self).policy.filler_chunk_bytes as nat,
                )) && d == old(self).policy.filler_interval_ms) && final(self).sent@ == old(self).sent@.push(
                    SentUnit::PaddingSent(zero_seq(old(self).policy.filler_chunk_bytes as nat)),
                )
            } else {
                final(self).phase is Done && a is Close && final(self).sent@ == old(self).sent@
            },
    {
        if self.policy.keep_alive {
            self.phase = StreamPhase::Filler;
            let chunk = zero_chunk(self.policy.filler_chunk_bytes);
            proof {
                lemma_audio_bytes_push_other(self.sent@, SentUnit::PaddingSent(chunk@));
            }
            self.sent = Ghost(self.sent@.push(SentUnit::PaddingSent(chunk@)));
            OutboundAction::Send(encode_audio(chunk), self.policy.filler_interval_ms)
        } else {
            self.phase = StreamPhase::Done;
            OutboundAction::Close
        }
    }
}

/// Law: whatever a well-formed session has emitted, the configuration unit
/// stands first, and no audio unit precedes it or repeats it.
pub proof fn lemma_config_unit_first(s: SessionStream)
    requires
        s.wf(),
        s.sent@.len() > 0,
    ensures
        s.sent@[0] == SentUnit::ConfigSent(s.config),
        forall|i: int| 1 <= i < s.sent@.len() ==> !(s.sent@[i] is ConfigSent),
{
}

/// Law: the real audio a well-formed session has emitted — the payloads of
/// its audio units, concatenated in order, synthetic padding excluded — is
/// exactly the byte sequence its source yielded: nothing dropped, nothing
/// reordered.
pub proof fn lemma_audio_round_trip(s: SessionStream)
    requires
        s.wf(),
    ensures
        audio_bytes(s.sent@) == s.pulled@,
{
}

/// Appending a non-audio unit leaves the emitted real audio unchanged.
proof fn lemma_audio_bytes_push_other(s: Seq<SentUnit>, u: SentUnit)
    requires
        !(u is AudioSent),
    ensures
        audio_bytes(s.push(u)) == audio_bytes(s),
{
    assert(s.push(u).drop_last() =~= s);
    assert(audio_bytes(s.push(u)) =~= audio_bytes(s));
}

/// Appending an audio unit appends exactly its payload to the emitted real
/// audio.
proof fn lemma_audio_bytes_push_audio(s: Seq<SentUnit>, p: Seq<u8>)
    ensures
        audio_bytes(s.push(SentUnit::AudioSent(p))) == audio_bytes(s) + p,
{
    assert(s.push(SentUnit::AudioSent(p)).drop_last() =~= s);
}

/// A zero-filled chunk of the given length.
fn zero_chunk(n: usize) -> (v: Vec<u8>)
    ensures
        v@ == zero_seq(n as nat),
{
    let mut v: Vec<u8> = Vec::new();
    let mut i: usize = 0;
    while i < n
        invariant
            i <= n,
            v@ == zero_seq(i as nat),
        decreases n - i,
    {
        v.push(0u8);
        i = i + 1;
        proof {
            assert(v@ =~= zero_seq(i as nat));
        }
    }
    v
}

} // verus!
