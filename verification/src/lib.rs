//! State synchronisation and command dispatch for a shared presentation.
//!
//! Several front-ends (a control window, a visualization window and any
//! number of remote controls on the local network) observe and change one
//! state: which visualization is active, which messages exist and how they
//! look, and which folder of messages is being played. This library holds
//! that state, says what every command does to it, and says what is to be
//! published afterwards. It does no input or output of its own: the program
//! around it receives the commands, guards the state and sends what the
//! library hands back.
//!
//! Every function is verified against a contract over the mathematical value
//! of its arguments; the values are the `view` of each type.

/// Strings: comparison, copies and decimal digits.
pub mod text;
/// Schema-less documents and their records.
pub mod document;
/// Reading JSON text into documents.
pub mod json;
/// Messages, presets and settings, with the records they are read from.
pub mod models;
/// The message tree and its flat projection.
pub mod tree;
/// Trigger statistics with their bounded history.
pub mod stats;
/// The queue that plays the messages of a folder.
pub mod playback;
/// The state and its snapshot.
pub mod store;
/// The state at the start.
pub mod defaults;
/// The commands of the remote controls.
pub mod dispatch;
/// The changes that the windows report.
pub mod events;
/// Loading a configuration file.
pub mod config;
/// What a subscriber of the live feed is sent.
pub mod hub;
/// Paths relative to the configuration.
pub mod paths;
/// Which files are media.
pub mod media;
/// What the server decides before it listens, and its fixed answers.
pub mod serving;
/// The wall clock.
pub mod clock;
