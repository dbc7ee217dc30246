//! The generation/download lifecycle state machine.
//!
//! A `GenerationSession` is owned by the coordinator on the real-time thread.
//! Once per audio block the coordinator applies the host's transport values
//! and at most one polled input; `step` answers with at most one action for a
//! background worker and at most one event for the UI, so the work done per
//! block is bounded. The session's only cross-thread signal is the download
//! gate, which the caller mirrors into an atomic flag.

use vstd::prelude::*;

use crate::messages::{Command, Event, Note};
use crate::request::GenerateRequest;
use crate::style::Style;

verus! {

/// The phase the generation/download lifecycle is in.
#[derive(Debug, Clone, Copy, PartialEq, Eq, Structural)]
pub enum LifecycleState {
    /// No link is known and nothing is running.
    Idle,
    /// A generation call is outstanding.
    Generating,
    /// A link from the latest generation is ready to download.
    LinkReady,
    /// A download worker is running; a second one must not start.
    Downloading,
    /// The last download failed; the link stays valid and the next block
    /// recovers to `LinkReady`.
    DownloadError,
}

/// One input the coordinator drains per audio block.
pub enum Input {
    /// Nothing was queued this block.
    Quiet,
    /// A command from a producer thread.
    Command(Command),
    /// A generation worker finished. `counter` tags the request it answers;
    /// a stale counter means a newer generation has started since, and the
    /// outcome must be discarded.
    GenerationFinished { counter: u64, outcome: Result<String, String> },
    /// The download worker finished, successfully or with a message.
    DownloadFinished { outcome: Result<(), String> },
    /// Every producer hung up; polls stay empty from now on.
    ChannelClosed,
}

/// What the coordinator asks its surroundings to do after one step.
pub enum Action {
    /// Nothing to launch.
    Stay,
    /// Launch a generation worker for this request; its answer must come
    /// back tagged with `counter`.
    StartGeneration { counter: u64, request: GenerateRequest },
    /// Launch one download worker for this URL.
    StartDownload { url: String },
}

/// The visible outcome of one step: at most one action and one event.
pub struct StepEffect {
    /// Work to hand to a background worker.
    pub action: Action,
    /// Event to forward to the UI.
    pub event: Option<Event>,
}

/// The authoritative session state, owned by the coordinator.
pub struct GenerationSession {
    /// Current lifecycle phase.
    pub state: LifecycleState,
    /// Host tempo in thousandths of a beat per minute.
    pub tempo_milli_bpm: u64,
    /// Host time-signature numerator.
    pub time_sig_numerator: i32,
    /// Host time-signature denominator.
    pub time_sig_denominator: i32,
    /// Root note of the scale sent with generation requests.
    pub scale: Note,
    /// The instrument style chosen by the user, if any yet.
    pub selected_style: Option<Style>,
    /// The link from the most recent successful generation, if it is still
    /// current.
    pub download_link: Option<String>,
    /// The flag mirrored to the UI: true exactly while a current link
    /// exists. It is the only channel by which the UI learns of a link.
    pub download_gate: bool,
    /// Counts issued generation requests; a worker answer is discarded
    /// unless it carries the latest value.
    pub generation_counter: u64,
}

impl GenerationSession {
    /// States in which a link from the latest generation is held.
    pub open spec fn holds_link(self) -> bool {
        self.state is LinkReady || self.state is Downloading || self.state is DownloadError
    }

    /// Well-formedness: an open download flag means a stored link and a
    /// phase that holds one, and the other way round; any phase beyond
    /// `Idle` has a chosen style.
    pub open spec fn wf(self) -> bool {
        &&& (self.download_gate <==> self.download_link is Some)
        &&& (self.download_gate <==> self.holds_link())
        &&& (!(self.state is Idle) ==> self.selected_style is Some)
    }

    /// The next value of the request counter; it sticks at the maximum
    /// rather than wrapping, so a stale tag never looks fresh again.
    pub open spec fn spec_next_counter(c: u64) -> u64 {
        if c == u64::MAX {
            c
        } else {
            (c + 1) as u64
        }
    }

    /// The lifecycle phase after the start-of-block recovery: a failed
    /// download has been reported already, so the link is offered again.
    pub open spec fn spec_recovered(self) -> GenerationSession {
        if self.state is DownloadError {
            GenerationSession { state: LifecycleState::LinkReady, ..self }
        } else {
            self
        }
    }

    /// What one step does: the session after it, the action to launch and
    /// the event to forward.
    pub open spec fn spec_step(s: GenerationSession, inp: Input) -> (GenerationSession, Action, Option<
        Event,
    >) {
        let s0 = s.spec_recovered();
        match inp {
            Input::Quiet => (s0, Action::Stay, None),
            Input::ChannelClosed => (s0, Action::Stay, None),
            Input::Command(Command::SelectStyle(style)) => (
                GenerationSession { selected_style: Some(style), ..s0 },
                Action::Stay,
                None,
            ),
            Input::Command(Command::SelectNote(note)) => (
                GenerationSession { scale: note, ..s0 },
                Action::Stay,
                None,
            ),
            Input::Command(Command::SelectMode(_)) => (s0, Action::Stay, None),
            Input::Command(Command::Generate) => {
                if s0.selected_style is Some {
                    let style = s0.selected_style.unwrap();
                    let counter = Self::spec_next_counter(s0.generation_counter);
                    (
                        GenerationSession {
                            state: LifecycleState::Generating,
                            download_link: None,
                            download_gate: false,
                            generation_counter: counter,
                            ..s0
                        },
                        Action::StartGeneration {
                            counter,
                            request: GenerateRequest {
                                bpm_milli: s0.tempo_milli_bpm,
                                duration: 128,
                                scale: s0.scale,
                                style,
                                time_signature_num: s0.time_sig_numerator,
                                time_signature_den: s0.time_sig_denominator,
                            },
                        },
                        None,
                    )
                } else {
                    (s0, Action::Stay, None)
                }
            },
            Input::Command(Command::Download) => {
                if s0.state is LinkReady && s0.download_link is Some {
                    (
                        GenerationSession { state: LifecycleState::Downloading, ..s0 },
                        Action::StartDownload { url: s0.download_link.unwrap() },
                        None,
                    )
                } else {
                    (s0, Action::Stay, None)
                }
            },
            Input::GenerationFinished { counter, outcome } => {
                if counter == s0.generation_counter && s0.state is Generating {
                    match outcome {
                        Ok(link) => (
                            GenerationSession {
                                state: LifecycleState::LinkReady,
                                download_link: Some(link),
                                download_gate: true,
                                ..s0
                            },
                            Action::Stay,
                            Some(Event::DownloadLinkAvailable(true)),
                        ),
                        Err(_) => (
                            GenerationSession {
                                state: LifecycleState::Idle,
                                download_link: None,
                                download_gate: false,
                                ..s0
                            },
                            Action::Stay,
                            None,
                        ),
                    }
                } else {
                    (s0, Action::Stay, None)
                }
            },
            Input::DownloadFinished { outcome } => {
                if s0.state is Downloading {
                    match outcome {
                        Ok(_) => (
                            GenerationSession { state: LifecycleState::LinkReady, ..s0 },
                            Action::Stay,
                            Some(Event::DownloadProgress(100)),
                        ),
                        Err(message) => (
                            GenerationSession { state: LifecycleState::DownloadError, ..s0 },
                            Action::Stay,
                            Some(Event::DownloadError(message)),
                        ),
                    }
                } else {
                    (s0, Action::Stay, None)
                }
            },
        }
    }

    /// A fresh session: idle, gate closed, the defaults the plugin starts
    /// with (120 beats per minute, a 4-beat signature, scale rooted at C#).
    /// The state a session starts in: idle, flag down, the defaults the
    /// plugin ships with (120 beats per minute, a 4-beat signature, scale
    /// rooted at C#).
    pub open spec fn spec_initial() -> GenerationSession {
        GenerationSession {
            state: LifecycleState::Idle,
            tempo_milli_bpm: 120_000,
            time_sig_numerator: 4,
            time_sig_denominator: 0,
            scale: Note::CSharp,
            selected_style: None,
            download_link: None,
            download_gate: false,
            generation_counter: 0,
        }
    }

    pub fn new() -> (s: GenerationSession)
        ensures
            s == GenerationSession::spec_initial(),
            s.wf(),
    {
        GenerationSession {
            state: LifecycleState::Idle,
            tempo_milli_bpm: 120_000,
            time_sig_numerator: 4,
            time_sig_denominator: 0,
            scale: Note::CSharp,
            selected_style: None,
            download_link: None,
            download_gate: false,
            generation_counter: 0,
        }
    }

    /// Apply the host transport's values for this block: each value the
    /// host reports replaces the cached one, the rest stay.
    pub fn update_transport(
        &mut self,
        tempo_milli_bpm: Option<u64>,
        time_sig_numerator: Option<i32>,
        time_sig_denominator: Option<i32>,
    )
        ensures
            final(self).tempo_milli_bpm == if tempo_milli_bpm is Some {
                tempo_milli_bpm.unwrap()
            } else {
                old(self).tempo_milli_bpm
            },
            final(self).time_sig_numerator == if time_sig_numerator is Some {
                time_sig_numerator.unwrap()
            } else {
                old(self).time_sig_numerator
            },
            final(self).time_sig_denominator == if time_sig_denominator is Some {
                time_sig_denominator.unwrap()
            } else {
                old(self).time_sig_denominator
            },
            final(self).state == old(self).state,
            final(self).scale == old(self).scale,
            final(self).selected_style == old(self).selected_style,
            final(self).download_link == old(self).download_link,
            final(self).download_gate == old(self).download_gate,
            final(self).generation_counter == old(self).generation_counter,
    {
        if let Some(tempo) = tempo_milli_bpm {
            self.tempo_milli_bpm = tempo;
        }
        if let Some(numerator) = time_sig_numerator {
            self.time_sig_numerator = numerator;
        }
        if let Some(denominator) = time_sig_denominator {
            self.time_sig_denominator = denominator;
        }
    }

    /// Advance the lifecycle by one polled input. The whole behaviour is
    /// `spec_step`; the invariant is preserved.
    pub fn step(&mut self, inp: Input) -> (r: StepEffect)
        ensures
            (*final(self), r.action, r.event) == Self::spec_step(*old(self), inp),
            old(self).wf() ==> final(self).wf(),
    {
        if self.state == LifecycleState::DownloadError {
            self.state = LifecycleState::LinkReady;
        }
        match inp {
            Input::Quiet => StepEffect { action: Action::Stay, event: None },
            Input::ChannelClosed => StepEffect { action: Action::Stay, event: None },
            Input::Command(Command::SelectStyle(style)) => {
                self.selected_style = Some(style);
                StepEffect { action: Action::Stay, event: None }
            },
            Input::Command(Command::SelectNote(note)) => {
                self.scale = note;
                StepEffect { action: Action::Stay, event: None }
            },
            Input::Command(Command::SelectMode(_)) => StepEffect {
                action: Action::Stay,
                event: None,
            },
            Input::Command(Command::Generate) => {
                match self.selected_style {
                    Some(style) => {
                        let counter = if self.generation_counter == u64::MAX {
                            self.generation_counter
                        } else {
                            self.generation_counter + 1
                        };
                        let request = GenerateRequest {
                            bpm_milli: self.tempo_milli_bpm,
                            duration: 128,
                            scale: self.scale,
                            style,
                            time_signature_num: self.time_sig_numerator,
                            time_signature_den: self.time_sig_denominator,
                        };
                        self.state = LifecycleState::Generating;
                        self.download_link = None;
                        self.download_gate = false;
                        self.generation_counter = counter;
                        StepEffect {
                            action: Action::StartGeneration { counter, request },
                            event: None,
                        }
                    },
                    None => StepEffect { action: Action::Stay, event: None },
                }
            },
            Input::Command(Command::Download) => {
                if self.state == LifecycleState::LinkReady {
                    match &self.download_link {
                        Some(url) => {
                            let url = url.clone();
                            self.state = LifecycleState::Downloading;
                            StepEffect { action: Action::StartDownload { url }, event: None }
                        },
                        None => StepEffect { action: Action::Stay, event: None },
                    }
                } else {
                    StepEffect { action: Action::Stay, event: None }
                }
            },
            Input::GenerationFinished { counter, outcome } => {
                if counter == self.generation_counter && self.state == LifecycleState::Generating {
                    match outcome {
                        Ok(link) => {
                            self.state = LifecycleState::LinkReady;
                            self.download_link = Some(link);
                            self.download_gate = true;
                            StepEffect {
                                action: Action::Stay,
                                event: Some(Event::DownloadLinkAvailable(true)),
                            }
                        },
                        Err(_) => {
                            self.state = LifecycleState::Idle;
                            self.download_link = None;
                            self.download_gate = false;
                            StepEffect { action: Action::Stay, event: None }
                        },
                    }
                } else {
                    StepEffect { action: Action::Stay, event: None }
                }
            },
            Input::DownloadFinished { outcome } => {
                if self.state == LifecycleState::Downloading {
                    match outcome {
                        Ok(_) => {
                            self.state = LifecycleState::LinkReady;
                            StepEffect {
                                action: Action::Stay,
                                event: Some(Event::DownloadProgress(100)),
                            }
                        },
                        Err(message) => {
                            self.state = LifecycleState::DownloadError;
                            StepEffect {
                                action: Action::Stay,
                                event: Some(Event::DownloadError(message)),
                            }
                        },
                    }
                } else {
                    StepEffect { action: Action::Stay, event: None }
                }
            },
        }
    }

    /// One audio block's worth of coordination: apply the transport values,
    /// then drain the one polled input.
    pub fn process_block(
        &mut self,
        tempo_milli_bpm: Option<u64>,
        time_sig_numerator: Option<i32>,
        time_sig_denominator: Option<i32>,
        inp: Input,
    ) -> (r: StepEffect)
        ensures
            ({
                let mid = GenerationSession {
                    tempo_milli_bpm: if tempo_milli_bpm is Some {
                        tempo_milli_bpm.unwrap()
                    } else {
                        old(self).tempo_milli_bpm
                    },
                    time_sig_numerator: if time_sig_numerator is Some {
                        time_sig_numerator.unwrap()
                    } else {
                        old(self).time_sig_numerator
                    },
                    time_sig_denominator: if time_sig_denominator is Some {
                        time_sig_denominator.unwrap()
                    } else {
                        old(self).time_sig_denominator
                    },
                    ..*old(self)
                };
                (*final(self), r.action, r.event) == Self::spec_step(mid, inp)
            }),
            old(self).wf() ==> final(self).wf(),
    {
        self.update_transport(tempo_milli_bpm, time_sig_numerator, time_sig_denominator);
        self.step(inp)
    }
}

/// Every step keeps the session invariant.
pub proof fn lemma_step_preserves_wf(s: GenerationSession, inp: Input)
    requires
        s.wf(),
    ensures
        GenerationSession::spec_step(s, inp).0.wf(),
{
}

/// A block that polls nothing does nothing: beyond the one-off recovery
/// from a failed download, an empty poll changes no state, launches no
/// worker and emits no event — the per-block work is one poll and one
/// bounded step.
pub proof fn lemma_quiet_block_is_noop(s: GenerationSession)
    ensures
        GenerationSession::spec_step(s, Input::Quiet) == (
            s.spec_recovered(),
            Action::Stay,
            None::<Event>,
        ),
{
}

/// The request counter never moves backwards, so an answer that was
/// current can never be mistaken for one issued later.
pub proof fn lemma_counter_monotone(s: GenerationSession, inp: Input)
    ensures
        GenerationSession::spec_step(s, inp).0.generation_counter >= s.generation_counter,
{
}

/// At most one download worker is ever in flight: a `Download` command
/// while one is running changes nothing and launches nothing, and a
/// download is only ever launched out of `LinkReady` — the one state in
/// which none is running.
pub proof fn lemma_at_most_one_download_worker(s: GenerationSession, inp: Input)
    ensures
        s.state is Downloading ==> GenerationSession::spec_step(
            s,
            Input::Command(Command::Download),
        ) == (s, Action::Stay, None::<Event>),
        (GenerationSession::spec_step(s, inp).1 is StartDownload) ==> {
            &&& s.spec_recovered().state is LinkReady
            &&& inp is Command
            &&& GenerationSession::spec_step(s, inp).0.state is Downloading
        },
{
}

/// A `Download` command without a live link — before any generation
/// succeeded, or while one is still running — is a no-op: no worker is
/// launched, nothing changes, no event is sent.
pub proof fn lemma_download_without_link_is_noop(s: GenerationSession)
    requires
        s.state is Idle || s.state is Generating,
    ensures
        GenerationSession::spec_step(s, Input::Command(Command::Download)) == (
            s,
            Action::Stay,
            None::<Event>,
        ),
{
}

/// How the download flag moves: it agrees with the stored link at all
/// times; a `Generate` command shuts it at once; and it opens only when
/// the newest request's answer comes back well, storing that answer's
/// link.
pub proof fn lemma_gate_tracks_current_link(s: GenerationSession, inp: Input)
    requires
        s.wf(),
    ensures
        ({
            let (post, _, _) = GenerationSession::spec_step(s, inp);
            &&& (post.download_gate <==> post.download_link is Some)
            &&& (inp == Input::Command(Command::Generate) ==> !post.download_gate)
            &&& ((!s.download_gate && post.download_gate) ==> {
                &&& s.state is Generating
                &&& inp matches Input::GenerationFinished { counter, outcome }
                &&& counter == s.generation_counter
                &&& outcome is Ok
                &&& post.download_link == Some(outcome.unwrap())
            })
        }),
{
}

/// An answer tagged with anything but the latest request counter is stale:
/// it is discarded without any effect.
pub proof fn lemma_stale_generation_answer_discarded(
    s: GenerationSession,
    counter: u64,
    outcome: Result<String, String>,
)
    requires
        counter != s.spec_recovered().generation_counter,
    ensures
        GenerationSession::spec_step(s, Input::GenerationFinished { counter, outcome }) == (
            s.spec_recovered(),
            Action::Stay,
            None::<Event>,
        ),
{
}

/// A successful generation answer for the latest request round-trips its
/// link into the session and announces it: the stored link is exactly the
/// answered one, and `DownloadLinkAvailable(true)` is emitted on this
/// transition and on no other.
pub proof fn lemma_link_round_trip(s: GenerationSession, inp: Input)
    ensures
        ({
            let (post, action, event) = GenerationSession::spec_step(s, inp);
            &&& (inp matches Input::GenerationFinished { counter, outcome: Ok(link) } ==> ((
            s.state is Generating && counter == s.generation_counter) ==> {
                &&& post.state is LinkReady
                &&& post.download_link == Some(link)
                &&& post.download_gate
                &&& action is Stay
                &&& event == Some(Event::DownloadLinkAvailable(true))
            }))
            &&& ((event matches Some(e) && e is DownloadLinkAvailable) ==> {
                &&& s.state is Generating
                &&& inp matches Input::GenerationFinished { counter, outcome }
                &&& counter == s.generation_counter
                &&& outcome is Ok
            })
        }),
{
}

/// `Generate` with no style selected does nothing: no request is issued,
/// the session stays idle and no event is emitted.
pub proof fn lemma_generate_without_style_is_noop(s: GenerationSession)
    requires
        s.wf(),
        s.selected_style is None,
    ensures
        s.state is Idle,
        GenerationSession::spec_step(s, Input::Command(Command::Generate)) == (
            s,
            Action::Stay,
            None::<Event>,
        ),
{
}

/// When a generation call fails, the machine goes back to `Idle` with the
/// gate shut, no stored link, nothing launched and nothing emitted.
pub proof fn lemma_generation_failure_returns_to_idle(
    s: GenerationSession,
    counter: u64,
    message: String,
)
    requires
        s.wf(),
        s.state is Generating,
        counter == s.generation_counter,
    ensures
        ({
            let (post, action, event) = GenerationSession::spec_step(
                s,
                Input::GenerationFinished { counter, outcome: Err(message) },
            );
            &&& post == GenerationSession {
                state: LifecycleState::Idle,
                download_link: None,
                download_gate: false,
                ..s
            }
            &&& action is Stay
            &&& event is None
        }),
{
}

} // verus!
