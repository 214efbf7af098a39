//! Handle registries and launch protocol for remote sessions.
//!
//! A caller launches a session against a remote machine, receives an integer
//! handle, and from then on names the session (and the processes spawned
//! through it) by handle alone. This crate holds the rules of that scheme:
//! how handles are drawn and kept unique, what a lookup answers when a
//! handle is gone, how a launch attempt moves through its phases, and how a
//! timed call settles. The network and the scheduler stay with the caller,
//! who performs each requested action and reports what happened.

pub mod api;
pub mod failure;
pub mod ids;
pub mod launch;
pub mod laws;
pub mod opts;
pub mod process;
pub mod registry;
pub mod session;
pub mod text;
pub mod timed;

pub use api::{Call, Dispatcher, DirEntry, FileType, Listing, Operation, Request};
pub use failure::{Failure, Fault, Handshake, Stream};
pub use ids::{rand_u32, IdAllocator};
pub use launch::{
    find_session_descriptor, pick_first, Launch, LaunchAction, LaunchEvent, Opening, Phase,
    SessionDescriptor,
};
pub use opts::{
    ConfigValue, ConversionError, LaunchFields, LaunchOpts, Method, SshOpts, ValueKind,
    DEFAULT_TIMEOUT_MS,
};
pub use process::{ProcessEntry, RemoteLspProcess, RemoteProcess};
pub use registry::Registry;
pub use session::{get_session_channel, Session};
pub use text::split_lines;
pub use timed::{settle, settle_after, Raced};
