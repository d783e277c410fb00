//! Core of a command-line SIP softphone: the user-agent coordinator, the call
//! and registration state machines, the CLI command grammar, the RTP
//! packetizer and the G.711 A-law codec path.
//!
//! Everything here is pure logic over plain values.  The surrounding program
//! owns the sockets, the async runtime and the audio device; it feeds this
//! library the observations (SIP responses, task completions, media events)
//! and carries out the actions the library decides on.

pub mod alaw;
pub mod audio;
pub mod call;
pub mod cli_input;
pub mod command;
pub mod invite_acceptor_layer;
pub mod parser;
pub mod registrator;
pub mod rtp;
pub mod text;
pub mod user_agent;
pub mod words;
