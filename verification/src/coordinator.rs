//! The per-block coordinator: the consumer end of the command channel and
//! the lifecycle session, driven together. Each audio block does exactly
//! one non-blocking poll and one state-machine step; whatever the step asks
//! for is handed back to the caller to launch off the real-time thread.

use vstd::prelude::*;

use crate::channel::{ChannelSender, ControlChannel};
use crate::session::{GenerationSession, Input, StepEffect};

verus! {

/// The real-time thread's end of the control plane.
pub struct Coordinator {
    /// The authoritative session state.
    pub session: GenerationSession,
    commands: ControlChannel<Input>,
}

impl Coordinator {
    /// Whether the command channel's hang-up has been reported already.
    pub closed spec fn spec_commands_disconnected(self) -> bool {
        self.commands.spec_disconnected()
    }

    /// The session the coordinator owns.
    pub closed spec fn spec_session(self) -> GenerationSession {
        self.session
    }

    /// A fresh coordinator and the producer end of its command channel.
    pub fn new() -> (r: (ChannelSender<Input>, Coordinator))
        ensures
            ({
                let coordinator = r.1;
                &&& coordinator.spec_session() == GenerationSession::spec_initial()
                &&& !coordinator.spec_commands_disconnected()
            }),
    {
        let (sender, commands) = ControlChannel::new();
        (sender, Coordinator { session: GenerationSession::new(), commands })
    }

    /// One audio block: apply the transport values, poll at most one input,
    /// and advance the state machine by it. The ghost half of the answer
    /// names the input that was polled; the step's whole behaviour is
    /// `GenerationSession::spec_step` on it.
    pub fn run_block(
        &mut self,
        tempo_milli_bpm: Option<u64>,
        time_sig_numerator: Option<i32>,
        time_sig_denominator: Option<i32>,
    ) -> (r: (Ghost<Input>, StepEffect))
        ensures
            ({
                let mid = GenerationSession {
                    tempo_milli_bpm: if tempo_milli_bpm is Some {
                        tempo_milli_bpm.unwrap()
                    } else {
                        old(self).spec_session().tempo_milli_bpm
                    },
                    time_sig_numerator: if time_sig_numerator is Some {
                        time_sig_numerator.unwrap()
                    } else {
                        old(self).spec_session().time_sig_numerator
                    },
                    time_sig_denominator: if time_sig_denominator is Some {
                        time_sig_denominator.unwrap()
                    } else {
                        old(self).spec_session().time_sig_denominator
                    },
                    ..old(self).spec_session()
                };
                (final(self).spec_session(), (r.1).action, (r.1).event)
                    == GenerationSession::spec_step(mid, r.0@)
            }),
            old(self).spec_session().wf() ==> final(self).spec_session().wf(),
            ({
                let was_down = old(self).spec_commands_disconnected();
                let is_down = final(self).spec_commands_disconnected();
                let polled = r.0@;
                &&& (was_down ==> ((polled is Quiet) && is_down))
                &&& (is_down ==> (was_down || (polled is ChannelClosed)))
            }),
    {
        let input = self.commands.poll_input();
        let ghost polled = input;
        let effect = self.session.process_block(
            tempo_milli_bpm,
            time_sig_numerator,
            time_sig_denominator,
            input,
        );
        (Ghost(polled), effect)
    }
}

} // verus!
