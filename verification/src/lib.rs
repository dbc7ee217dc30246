//! Coordination core for a remote music-generation plugin.
//!
//! The library contains the cross-thread control plane of the plugin: the
//! typed command/event messages, the generation/download lifecycle state
//! machine driven once per audio block, the request/response framing for the
//! generation API, collision-resistant download filenames, and the shared
//! telemetry store. Network and file I/O live outside the library; the
//! library hands out the exact strings to send and interprets the bytes that
//! come back.

mod channel;
mod coordinator;
mod filename;
mod messages;
mod numfmt;
mod request;
mod response;
mod session;
mod style;
mod thread_safe_map;

pub use channel::{ChannelSender, ControlChannel, Poll};
pub use coordinator::Coordinator;
pub use filename::{build_midi_filename, generate_unique_filename, SUFFIX_LEN};
pub use messages::{Command, Event, Mode, Note, TimeSignature};
pub use request::{build_generate_body, encode_generate_request, GenerateRequest, GenerationError};
pub use response::{extract_download_link, unescape_json_string, ScanState};
pub use session::{Action, GenerationSession, Input, LifecycleState, StepEffect};
pub use style::Style;
pub use thread_safe_map::ThreadSafeMap;
