//! The option-negotiation state: one record per option of what was received
//! and sent, and the per-connection map of those records.
use vstd::prelude::*;

use crate::options;

verus! {

/// A top-level Telnet negotiation verb.
#[derive(Debug, Clone, Copy, PartialEq, Eq, Structural)]
pub enum NegotiationAction {
    Will,
    Wont,
    Do,
    Dont,
}

/// One outbound protocol command for the transport to write.
#[derive(Debug)]
pub enum TelnetOut {
    /// Send `IAC <action> <option>`.
    Negotiate(NegotiationAction, u8),
    /// Send `IAC SB <option> <payload> IAC SE`.
    Subnegotiate(u8, Vec<u8>),
}

/// The mathematical shape of an outbound command.
pub enum TelnetOutView {
    Negotiate(NegotiationAction, u8),
    Subnegotiate(u8, Seq<u8>),
}

impl View for TelnetOut {
    type V = TelnetOutView;

    open spec fn view(&self) -> TelnetOutView {
        match self {
            TelnetOut::Negotiate(a, o) => TelnetOutView::Negotiate(*a, *o),
            TelnetOut::Subnegotiate(o, p) => TelnetOutView::Subnegotiate(*o, p@),
        }
    }
}

impl DeepView for TelnetOut {
    type V = TelnetOutView;

    open spec fn deep_view(&self) -> TelnetOutView {
        self.view()
    }
}

/// The options this client actively negotiates: terminal type and GMCP.
pub open spec fn is_supported_option(opt: u8) -> bool {
    opt == options::TTYPE || opt == options::GMCP
}

/// True of the option codes in the allow-list.
pub fn supported_option(opt: u8) -> (r: bool)
    ensures
        r == is_supported_option(opt),
{
    opt == options::TTYPE || opt == options::GMCP
}

/// Per-option record of the WILL/WONT/DO/DONT flags received and sent.
/// Every flag only ever moves from false to true: the record keeps history
/// for the life of the connection; a later event does not clear an earlier
/// flag.
#[derive(Debug, Clone, Copy, PartialEq, Eq, Structural)]
pub struct NegotiationState {
    pub option: u8,
    pub received_will: bool,
    pub received_wont: bool,
    pub received_do: bool,
    pub received_dont: bool,
    pub send_will: bool,
    pub send_wont: bool,
    pub send_do: bool,
    pub send_dont: bool,
}

/// The record of an option nothing has happened to yet.
pub open spec fn initial_negotiation_state(option: u8) -> NegotiationState {
    NegotiationState {
        option,
        received_will: false,
        received_wont: false,
        received_do: false,
        received_dont: false,
        send_will: false,
        send_wont: false,
        send_do: false,
        send_dont: false,
    }
}

impl NegotiationState {
    /// A fresh record for `option`, all flags cleared.
    pub fn new(option: u8) -> (r: NegotiationState)
        ensures
            r == initial_negotiation_state(option),
    {
        NegotiationState {
            option,
            received_will: false,
            received_wont: false,
            received_do: false,
            received_dont: false,
            send_will: false,
            send_wont: false,
            send_do: false,
            send_dont: false,
        }
    }

    /// The negotiation policy: initiate only for an allow-listed option that
    /// the peer has not refused and that we have not already asked for.
    pub open spec fn spec_should_negotiate(self) -> bool {
        is_supported_option(self.option) && !self.received_dont && !self.received_wont
            && !self.send_do
    }

    /// Whether this option should (still) be negotiated.
    pub fn should_negotiate(&self) -> (r: bool)
        ensures
            r == self.spec_should_negotiate(),
    {
        supported_option(self.option) && !self.received_dont && !self.received_wont
            && !self.send_do
    }

    /// Whether the handshake for this option has gone through.
    pub open spec fn spec_is_active(self) -> bool {
        (self.received_will || self.received_do) && self.send_do && !self.received_wont
            && !self.received_dont
    }

    /// True when the option's handshake has gone through and the peer has
    /// not refused it.
    pub fn is_active(&self) -> (r: bool)
        ensures
            r == self.spec_is_active(),
    {
        (self.received_will || self.received_do) && self.send_do && !self.received_wont
            && !self.received_dont
    }
}

/// The mathematical shape of the per-connection state.
pub struct CnxView {
    pub options: Map<u8, NegotiationState>,
    pub mtts_num_call: u8,
}

/// Per-connection state: the record of every option touched so far, one per
/// option code, and the terminal-type responder's call counter.
#[derive(Debug)]
pub struct CnxState {
    pub negociated_options: std::collections::HashMap<u8, NegotiationState>,
    pub mtts_num_call: u8,
}

impl View for CnxState {
    type V = CnxView;

    open spec fn view(&self) -> CnxView {
        CnxView { options: self.negociated_options@, mtts_num_call: self.mtts_num_call }
    }
}

impl CnxState {
    /// A fresh connection: no option touched, the responder counter at zero.
    pub fn new() -> (r: CnxState)
        ensures
            r@.options == Map::<u8, NegotiationState>::empty(),
            r@.mtts_num_call == 0,
    {
        CnxState { negociated_options: std::collections::HashMap::new(), mtts_num_call: 0 }
    }

    /// Records `opt` under its option code, replacing any earlier record.
    pub fn add_negociated_option(&mut self, opt: NegotiationState)
        ensures
            final(self)@.options == old(self)@.options.insert(opt.option, opt),
            final(self)@.mtts_num_call == old(self)@.mtts_num_call,
    {
        self.negociated_options.insert(opt.option, opt);
    }

    /// The record for `option`: the one on file, or a fresh one if the
    /// option has not been touched yet.
    pub fn negotiation_state(&self, option: u8) -> (r: NegotiationState)
        ensures
            r == spec_negotiation_state(self@, option),
    {
        match self.negociated_options.get(&option) {
            Some(state) => *state,
            None => NegotiationState::new(option),
        }
    }
}

/// Every flag set in `a` is set in `b`: the record `b` keeps all of `a`'s
/// history.
pub open spec fn flags_le(a: NegotiationState, b: NegotiationState) -> bool {
    &&& (a.received_will ==> b.received_will)
    &&& (a.received_wont ==> b.received_wont)
    &&& (a.received_do ==> b.received_do)
    &&& (a.received_dont ==> b.received_dont)
    &&& (a.send_will ==> b.send_will)
    &&& (a.send_wont ==> b.send_wont)
    &&& (a.send_do ==> b.send_do)
    &&& (a.send_dont ==> b.send_dont)
}

/// Well-formed per-connection state: every record sits under its own option
/// code.  A fresh state is well-formed, and recording an option keeps it so,
/// since a record is always filed under its own code.
pub open spec fn cnx_wf(s: CnxView) -> bool {
    forall|k: u8| s.options.contains_key(k) ==> (#[trigger] s.options[k]).option == k
}

/// The record for `option` in state `s`, or a fresh one if absent.
pub open spec fn spec_negotiation_state(s: CnxView, option: u8) -> NegotiationState {
    if s.options.contains_key(option) {
        s.options[option]
    } else {
        initial_negotiation_state(option)
    }
}

} // verus!
