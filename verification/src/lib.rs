//! Protocol core of a terminal client for MUD-style servers.
//!
//! The crate speaks the Telnet control protocol at the event level: it decides
//! the WILL/WONT/DO/DONT option handshake, answers the multi-round
//! terminal-type (MTTS) sub-negotiation, and decodes the MSDP structured-data
//! encoding into a typed tree.  Transport I/O stays outside; the library turns
//! already-framed protocol events into state updates, outbound commands, and
//! client-facing output.
use vstd::prelude::*;

pub mod byteset;
pub mod cnx;
pub mod error;
pub mod gmcp;
pub mod lexer;
pub mod msdp;
pub mod mtts;
pub mod options;
pub mod state;
pub mod ui;

verus! {

use crate::mtts::Features;

/// How this client presents itself: its name, its terminal type, and the
/// capability bitmask it advertises in the MTTS handshake.
pub struct MudConfig {
    pub client_name: String,
    pub terminal_type: &'static str,
    pub features: Features,
}

impl MudConfig {
    /// The stock configuration: an xterm-compatible client named after this
    /// library, advertising ANSI colour and UTF-8 support.
    pub fn default() -> (c: MudConfig)
        ensures
            c.client_name@ == "mudnet"@,
            c.terminal_type@ == "XTERM"@,
            c.features.bits == crate::mtts::ANSI | crate::mtts::UTF8,
    {
        MudConfig {
            client_name: "mudnet".to_owned(),
            terminal_type: crate::mtts::TERM_XTERM,
            features: Features { bits: crate::mtts::ANSI | crate::mtts::UTF8 },
        }
    }
}

} // verus!
