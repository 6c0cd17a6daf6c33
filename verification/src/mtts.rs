//! The MTTS (Mud Terminal Type Standard) responder: three successive
//! terminal-type sub-negotiation replies — client name, terminal type, and
//! a capability bitmask — keyed by the connection's call counter.
use vstd::prelude::*;

use crate::error::TnError;
use crate::options;
use crate::state::{CnxState, TelnetOut};
use crate::MudConfig;
use vstd::string::StrSliceExecFns;
use vstd::utf8::encode_utf8;

verus! {

pub const ANSI: u16 = 0x001;
pub const VT100: u16 = 0x002;
pub const UTF8: u16 = 0x004;
pub const COLORS_256: u16 = 0x008;
pub const MOUSE_TRACKING: u16 = 0x010;
pub const OSC_COLOR_PALETTE: u16 = 0x020;
pub const SCREEN_READER: u16 = 0x040;
pub const PROXY: u16 = 0x080;
pub const TRUECOLOR: u16 = 0x100;
pub const MNES: u16 = 0x200;

/// The capability bitmask advertised in the third MTTS reply: a bitwise OR
/// of the flag constants above.
#[derive(Debug, Clone, Copy, PartialEq, Eq, Structural)]
pub struct Features {
    pub bits: u16,
}

/// Terminal with no ANSI colour or VT100 support.
pub const TERM_DUMB: &'static str = "DUMB";

/// Terminal with the common ANSI colour codes.
pub const TERM_ANSI: &'static str = "ANSI";

/// Terminal with most VT100 codes and ANSI colour codes.
pub const TERM_VT100: &'static str = "VT100";

/// Terminal with all VT100 and ANSI colour codes, 256 colours, mouse
/// tracking, and the commonly used xterm console codes.
pub const TERM_XTERM: &'static str = "XTERM";

/// The marker byte that opens every terminal-type reply.
pub const IS: u8 = 0;

/// The decimal digits of `n`, most significant first.
pub open spec fn spec_decimal(n: int) -> Seq<u8>
    decreases n,
{
    if n < 0 {
        Seq::empty()
    } else if n < 10 {
        seq![(48 + n) as u8]
    } else {
        spec_decimal(n / 10) + seq![(48 + n % 10) as u8]
    }
}

/// Appends the decimal digits of `n` to `out`.
fn push_decimal(n: u16, out: &mut Vec<u8>)
    ensures
        final(out)@ == old(out)@ + spec_decimal(n as int),
    decreases n,
{
    if n < 10 {
        out.push(48 + n as u8);
        proof {
            assert(final(out)@ =~= old(out)@ + spec_decimal(n as int));
        }
    } else {
        push_decimal(n / 10, out);
        out.push(48 + (n % 10) as u8);
        proof {
            assert((48 + (n % 10) as u8 as int) as u8 == (48 + n as int % 10) as u8) by (
            nonlinear_arith);
            assert(final(out)@ =~= old(out)@ + spec_decimal(n as int));
        }
    }
}

/// The reply owed to the `call`-th terminal-type request of one connection:
/// the `IS` marker, then the client's name, its terminal type, or `MTTS `
/// and the capability bitmask in decimal; a fourth request is refused.
pub open spec fn spec_mtts_reply(config: MudConfig, call: u8) -> Result<Seq<u8>, TnError> {
    if call == 0 {
        Ok(seq![IS] + encode_utf8(config.client_name@))
    } else if call == 1 {
        Ok(seq![IS] + encode_utf8(config.terminal_type@))
    } else if call == 2 {
        Ok(seq![IS] + encode_utf8("MTTS "@) + spec_decimal(config.features.bits as int))
    } else {
        Err(TnError::MttsExhausted)
    }
}

/// Answers one terminal-type sub-negotiation request: builds the reply the
/// call counter asks for and advances the counter by exactly one; from the
/// fourth request on it fails and leaves the counter alone.
pub fn handle_sub_negotiations(config: &MudConfig, cnx_state: &mut CnxState) -> (r: Result<
    TelnetOut,
    TnError,
>)
    ensures
        match r {
            Ok(out) => {
                &&& old(cnx_state)@.mtts_num_call <= 2
                &&& (out@ matches crate::state::TelnetOutView::Subnegotiate(opt, payload)
                    && opt == options::TTYPE && spec_mtts_reply(
                    *config,
                    old(cnx_state)@.mtts_num_call,
                ) == Ok::<Seq<u8>, TnError>(payload))
                &&& final(cnx_state)@.mtts_num_call == old(cnx_state)@.mtts_num_call + 1
                &&& final(cnx_state)@.options == old(cnx_state)@.options
            },
            Err(e) => {
                &&& old(cnx_state)@.mtts_num_call > 2
                &&& e == TnError::MttsExhausted
                &&& final(cnx_state)@ == old(cnx_state)@
            },
        },
{
    let call = cnx_state.mtts_num_call;
    if call > 2 {
        return Err(TnError::MttsExhausted);
    }
    let mut payload: Vec<u8> = Vec::new();
    payload.push(IS);
    if call == 0 {
        let mut msg = config.client_name.as_str().as_bytes_vec();
        payload.append(&mut msg);
    } else if call == 1 {
        let mut msg = config.terminal_type.as_bytes_vec();
        payload.append(&mut msg);
    } else {
        let mut prefix = "MTTS ".as_bytes_vec();
        payload.append(&mut prefix);
        push_decimal(config.features.bits, &mut payload);
    }
    proof {
        assert(spec_mtts_reply(*config, call) == Ok::<Seq<u8>, TnError>(payload@)) by {
            if call == 0 {
                assert(payload@ =~= seq![IS] + encode_utf8(config.client_name@));
            } else if call == 1 {
                assert(payload@ =~= seq![IS] + encode_utf8(config.terminal_type@));
            } else {
                assert(payload@ =~= seq![IS] + encode_utf8("MTTS "@) + spec_decimal(
                    config.features.bits as int,
                ));
            }
        }
    }
    cnx_state.mtts_num_call = call + 1;
    Ok(TelnetOut::Subnegotiate(options::TTYPE, payload))
}

/// Law: one connection gets exactly three terminal-type replies.  With the
/// counter at 0, 1 or 2 the request succeeds; once it has passed 2 — after
/// the third success — every further request fails with the input error.
pub proof fn lemma_mtts_exactly_three(config: MudConfig)
    ensures
        forall|c: u8| c <= 2 ==> #[trigger] spec_mtts_reply(config, c) is Ok,
        forall|c: u8|
            c > 2 ==> #[trigger] spec_mtts_reply(config, c) == Err::<Seq<u8>, TnError>(
                TnError::MttsExhausted,
            ),
{
}

} // verus!
