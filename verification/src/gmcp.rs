//! The one GMCP message this client sends: asking the server for its
//! command list, as a literal ASCII payload.
use vstd::prelude::*;

use crate::options;
use crate::state::{TelnetOut, TelnetOutView};
use vstd::string::StrSliceExecFns;
use vstd::utf8::encode_utf8;

verus! {

/// The GMCP sub-negotiation `MSDP {"LIST" : "COMMANDS"}`, a literal ASCII
/// string, not itself MSDP-encoded.
pub fn list_command() -> (out: TelnetOut)
    ensures
        out@ matches TelnetOutView::Subnegotiate(opt, payload) && opt == options::GMCP && payload
            == encode_utf8("MSDP {\"LIST\" : \"COMMANDS\"}"@),
{
    let msg = "MSDP {\"LIST\" : \"COMMANDS\"}";
    TelnetOut::Subnegotiate(options::GMCP, msg.as_bytes_vec())
}

} // verus!
