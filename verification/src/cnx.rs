//! The connection's event core: classifies one framed protocol event into a
//! chunk, drives the WILL/WONT/DO/DONT handshake, dispatches terminal-type
//! and MSDP sub-negotiations, and says what to hand the client and what to
//! write back — all as pure transitions, with the transport kept outside.
use vstd::prelude::*;

use crate::error::TnError;
use crate::msdp::{parse_msdp, s_parse_msdp, MsdpData, MsdpDataView};
use crate::options;
use crate::state::{
    spec_negotiation_state, CnxState, CnxView, NegotiationAction, NegotiationState, TelnetOut,
    TelnetOutView,
};
use crate::MudConfig;
use vstd::utf8::{decode_utf8, valid_utf8};

verus! {

/// One negotiation event taken from the transport: a top-level verb for an
/// option, or a sub-negotiation block with its payload.
#[derive(Debug)]
pub enum Negotiation {
    Negotiation(NegotiationAction, u8),
    Subnegotiation(u8, Vec<u8>),
}

/// The mathematical shape of a negotiation event.
pub enum NegotiationView {
    Negotiation(NegotiationAction, u8),
    Subnegotiation(u8, Seq<u8>),
}

impl View for Negotiation {
    type V = NegotiationView;

    open spec fn view(&self) -> NegotiationView {
        match self {
            Negotiation::Negotiation(a, o) => NegotiationView::Negotiation(*a, *o),
            Negotiation::Subnegotiation(o, d) => NegotiationView::Subnegotiation(*o, d@),
        }
    }
}

impl DeepView for Negotiation {
    type V = NegotiationView;

    open spec fn deep_view(&self) -> NegotiationView {
        self.view()
    }
}

/// One already-framed event from the transport's Telnet layer.
#[derive(Debug)]
pub enum ProtocolEvent {
    /// A top-level WILL/WONT/DO/DONT for an option.
    Negotiation(NegotiationAction, u8),
    /// An `SB … SE` block with its option and payload.
    Subnegotiation(u8, Vec<u8>),
    /// Plain data bytes.
    Data(Vec<u8>),
    /// An IAC command this client does not know.
    UnknownIac(u8),
    /// A read that returned nothing.
    NoData,
    /// A read that timed out.
    TimedOut,
    /// A protocol-level error reported by the transport layer.
    Error(String),
}

/// The mathematical shape of a protocol event.
pub enum ProtocolEventView {
    Negotiation(NegotiationAction, u8),
    Subnegotiation(u8, Seq<u8>),
    Data(Seq<u8>),
    UnknownIac(u8),
    NoData,
    TimedOut,
    Error(Seq<char>),
}

impl View for ProtocolEvent {
    type V = ProtocolEventView;

    open spec fn view(&self) -> ProtocolEventView {
        match self {
            ProtocolEvent::Negotiation(a, o) => ProtocolEventView::Negotiation(*a, *o),
            ProtocolEvent::Subnegotiation(o, d) => ProtocolEventView::Subnegotiation(*o, d@),
            ProtocolEvent::Data(d) => ProtocolEventView::Data(d@),
            ProtocolEvent::UnknownIac(c) => ProtocolEventView::UnknownIac(*c),
            ProtocolEvent::NoData => ProtocolEventView::NoData,
            ProtocolEvent::TimedOut => ProtocolEventView::TimedOut,
            ProtocolEvent::Error(m) => ProtocolEventView::Error(m@),
        }
    }
}

impl DeepView for ProtocolEvent {
    type V = ProtocolEventView;

    open spec fn deep_view(&self) -> ProtocolEventView {
        self.view()
    }
}

/// One read cycle's result: the decoded text, and the negotiation events
/// seen, in the order the transport delivered them.
#[derive(Debug)]
pub struct Chunk {
    pub negotiations: Vec<Negotiation>,
    pub data: String,
}

/// The mathematical shape of a chunk.
pub struct ChunkView {
    pub negotiations: Seq<NegotiationView>,
    pub data: Seq<char>,
}

impl DeepView for Chunk {
    type V = ChunkView;

    open spec fn deep_view(&self) -> ChunkView {
        ChunkView { negotiations: self.negotiations.deep_view(), data: self.data@ }
    }
}

/// The client-facing output: plain text, or one decoded MSDP payload.
#[derive(Debug)]
pub enum CnxOutput {
    Data(String),
    Msdp(MsdpData),
}

/// The mathematical shape of a client-facing output.
pub enum CnxOutputView {
    Data(Seq<char>),
    Msdp(MsdpDataView),
}

impl DeepView for CnxOutput {
    type V = CnxOutputView;

    open spec fn deep_view(&self) -> CnxOutputView {
        match self {
            CnxOutput::Data(s) => CnxOutputView::Data(s@),
            CnxOutput::Msdp(d) => CnxOutputView::Msdp(d.deep_view()),
        }
    }
}

/// What one protocol event contributes to a read cycle: negotiation events
/// are queued, data is decoded as UTF-8, an unknown IAC command and a
/// timeout are fatal, and a transport-level error event is skipped.
pub open spec fn s_classify(e: ProtocolEventView) -> Result<ChunkView, TnError> {
    match e {
        ProtocolEventView::Negotiation(a, o) => Ok(
            ChunkView {
                negotiations: seq![NegotiationView::Negotiation(a, o)],
                data: Seq::empty(),
            },
        ),
        ProtocolEventView::Subnegotiation(o, d) => Ok(
            ChunkView {
                negotiations: seq![NegotiationView::Subnegotiation(o, d)],
                data: Seq::empty(),
            },
        ),
        ProtocolEventView::Data(bytes) => if valid_utf8(bytes) {
            Ok(ChunkView { negotiations: Seq::empty(), data: decode_utf8(bytes) })
        } else {
            Err(TnError::InvalidUtf8)
        },
        ProtocolEventView::UnknownIac(c) => Err(TnError::UnknownIac(c)),
        ProtocolEventView::NoData => Ok(
            ChunkView { negotiations: Seq::empty(), data: Seq::empty() },
        ),
        ProtocolEventView::TimedOut => Err(TnError::TimedOut),
        ProtocolEventView::Error(_) => Ok(
            ChunkView { negotiations: Seq::empty(), data: Seq::empty() },
        ),
    }
}

/// Turns one framed protocol event into a chunk: text is decoded, the
/// negotiation events are queued for the handshake, an unknown IAC command
/// and a timed-out read fail, and a transport error event is skipped.
pub fn classify_event(event: ProtocolEvent) -> (r: Result<Chunk, TnError>)
    ensures
        match r {
            Ok(c) => s_classify(event.deep_view()) == Ok::<ChunkView, TnError>(c.deep_view()),
            Err(e) => s_classify(event.deep_view()) == Err::<ChunkView, TnError>(e),
        },
{
    let ghost ev = event.deep_view();
    let mut negotiations: Vec<Negotiation> = Vec::new();
    match event {
        ProtocolEvent::Negotiation(act, opt) => {
            negotiations.push(Negotiation::Negotiation(act, opt));
            proof {
                assert(negotiations.deep_view() =~= seq![NegotiationView::Negotiation(act, opt)]);
            }
            Ok(Chunk { negotiations, data: String::new() })
        },
        ProtocolEvent::Subnegotiation(opt, nego_data) => {
            let ghost dv = nego_data@;
            negotiations.push(Negotiation::Subnegotiation(opt, nego_data));
            proof {
                assert(negotiations.deep_view() =~= seq![
                    NegotiationView::Subnegotiation(opt, dv),
                ]);
            }
            Ok(Chunk { negotiations, data: String::new() })
        },
        ProtocolEvent::Data(buffer) => {
            match crate::msdp::string_from_u8(buffer.as_slice()) {
                Ok(data) => {
                    proof {
                        assert(negotiations.deep_view() =~= Seq::<NegotiationView>::empty());
                    }
                    Ok(Chunk { negotiations, data })
                },
                Err(_) => Err(TnError::InvalidUtf8),
            }
        },
        ProtocolEvent::UnknownIac(code) => Err(TnError::UnknownIac(code)),
        ProtocolEvent::NoData => {
            proof {
                assert(negotiations.deep_view() =~= Seq::<NegotiationView>::empty());
            }
            Ok(Chunk { negotiations, data: String::new() })
        },
        ProtocolEvent::TimedOut => Err(TnError::TimedOut),
        ProtocolEvent::Error(_msg) => {
            proof {
                assert(negotiations.deep_view() =~= Seq::<NegotiationView>::empty());
            }
            Ok(Chunk { negotiations, data: String::new() })
        },
    }
}

/// The handshake step for one option record: accept an allow-listed option
/// that is still open by sending WILL then DO and marking both sent, or
/// refuse with a single WONT and mark it sent.
pub open spec fn spec_do_negotiate(ns: NegotiationState) -> (NegotiationState, Seq<TelnetOutView>) {
    if ns.spec_should_negotiate() {
        (
            NegotiationState { send_will: true, send_do: true, ..ns },
            seq![
                TelnetOutView::Negotiate(NegotiationAction::Will, ns.option),
                TelnetOutView::Negotiate(NegotiationAction::Do, ns.option),
            ],
        )
    } else {
        (
            NegotiationState { send_wont: true, ..ns },
            seq![TelnetOutView::Negotiate(NegotiationAction::Wont, ns.option)],
        )
    }
}

/// Drives the handshake for one option record; WILL always goes out before
/// DO when accepting.
fn do_negotiate(nego_state: &mut NegotiationState) -> (out: Vec<TelnetOut>)
    ensures
        *final(nego_state) == spec_do_negotiate(*old(nego_state)).0,
        out.deep_view() == spec_do_negotiate(*old(nego_state)).1,
{
    let mut out: Vec<TelnetOut> = Vec::new();
    if nego_state.should_negotiate() {
        out.push(TelnetOut::Negotiate(NegotiationAction::Will, nego_state.option));
        out.push(TelnetOut::Negotiate(NegotiationAction::Do, nego_state.option));
        nego_state.send_will = true;
        nego_state.send_do = true;
    } else {
        out.push(TelnetOut::Negotiate(NegotiationAction::Wont, nego_state.option));
        nego_state.send_wont = true;
    }
    proof {
        assert(out.deep_view() =~= spec_do_negotiate(*old(nego_state)).1);
    }
    out
}

/// What proactively negotiating `opt` does to the connection state, and the
/// commands it sends.
pub open spec fn spec_negotiate(s: CnxView, opt: u8) -> (CnxView, Seq<TelnetOutView>) {
    let r = spec_do_negotiate(spec_negotiation_state(s, opt));
    (
        CnxView { options: s.options.insert(r.0.option, r.0), mtts_num_call: s.mtts_num_call },
        r.1,
    )
}

/// Negotiates `opt` with the peer: decides by the option's record, updates
/// it, and returns the commands to write.
pub fn negotiate(state: &mut CnxState, opt: u8) -> (out: Vec<TelnetOut>)
    ensures
        final(state)@ == spec_negotiate(old(state)@, opt).0,
        out.deep_view() == spec_negotiate(old(state)@, opt).1,
{
    let mut nego_state = state.negotiation_state(opt);
    let out = do_negotiate(&mut nego_state);
    state.add_negociated_option(nego_state);
    out
}

/// What answering a peer's `action` for `opt` does to the connection state,
/// and the commands it sends: the handshake step, then the peer's DO or
/// WILL recorded — never cleared.
pub open spec fn spec_negotiate_answer(s: CnxView, action: NegotiationAction, opt: u8) -> (
    CnxView,
    Seq<TelnetOutView>,
) {
    let r = spec_do_negotiate(spec_negotiation_state(s, opt));
    let ns = NegotiationState {
        received_do: r.0.received_do || action == NegotiationAction::Do,
        received_will: r.0.received_will || action == NegotiationAction::Will,
        ..r.0
    };
    (CnxView { options: s.options.insert(ns.option, ns), mtts_num_call: s.mtts_num_call }, r.1)
}

/// Answers a peer-initiated request for `opt`: drives the handshake, then
/// records the received DO or WILL on top of it.
pub fn negotiate_answer(state: &mut CnxState, action: &NegotiationAction, opt: u8) -> (out: Vec<
    TelnetOut,
>)
    ensures
        final(state)@ == spec_negotiate_answer(old(state)@, *action, opt).0,
        out.deep_view() == spec_negotiate_answer(old(state)@, *action, opt).1,
{
    let mut nego_state = state.negotiation_state(opt);
    let out = do_negotiate(&mut nego_state);

    nego_state.received_do = nego_state.received_do || *action == NegotiationAction::Do;
    nego_state.received_will = nego_state.received_will || *action == NegotiationAction::Will;

    state.add_negociated_option(nego_state);
    out
}

/// Law: an option outside the allow-list is always refused.  Whatever has
/// been received or sent for it, `should_negotiate` is false, and both the
/// proactive and the answering step send one WONT — never WILL, never DO.
pub proof fn lemma_unsupported_refused(s: CnxView, action: NegotiationAction, opt: u8)
    requires
        crate::state::cnx_wf(s),
        !crate::state::is_supported_option(opt),
    ensures
        forall|ns: NegotiationState|
            ns.option == opt ==> !(#[trigger] ns.spec_should_negotiate()),
        spec_negotiate(s, opt).1 == seq![
            TelnetOutView::Negotiate(NegotiationAction::Wont, opt),
        ],
        spec_negotiate_answer(s, action, opt).1 == seq![
            TelnetOutView::Negotiate(NegotiationAction::Wont, opt),
        ],
{
}

/// Law: negotiation flags only ever move from false to true.  Both the
/// proactive step and the answering step leave every flag that was set in
/// an option's record set afterwards — the record keeps history, a later
/// event never clears an earlier flag.
pub proof fn lemma_flags_set_only(s: CnxView, action: NegotiationAction, opt: u8)
    requires
        crate::state::cnx_wf(s),
    ensures
        crate::state::flags_le(
            spec_negotiation_state(s, opt),
            spec_negotiation_state(spec_negotiate(s, opt).0, opt),
        ),
        crate::state::flags_le(
            spec_negotiation_state(s, opt),
            spec_negotiation_state(spec_negotiate_answer(s, action, opt).0, opt),
        ),
{
}

/// What one sub-negotiation block does: a terminal-type request gets the
/// MTTS reply and advances the call counter; an MSDP payload is decoded for
/// the client; exactly the other options are reported unsupported.
pub open spec fn s_handle_sub(config: MudConfig, s: CnxView, opt: u8, data: Seq<u8>) -> Result<
    (CnxView, Option<CnxOutputView>, Seq<TelnetOutView>),
    TnError,
> {
    if opt == options::TTYPE {
        match crate::mtts::spec_mtts_reply(config, s.mtts_num_call) {
            Ok(payload) => Ok(
                (
                    CnxView { options: s.options, mtts_num_call: (s.mtts_num_call + 1) as u8 },
                    None::<CnxOutputView>,
                    seq![TelnetOutView::Subnegotiate(options::TTYPE, payload)],
                ),
            ),
            Err(e) => Err(e),
        }
    } else if opt == options::MSDP {
        match s_parse_msdp(data) {
            Ok(d) => Ok((s, Some(CnxOutputView::Msdp(d)), Seq::empty())),
            Err(e) => Err(TnError::Decode(e)),
        }
    } else {
        Err(TnError::UnsupportedOption(opt))
    }
}

/// Dispatches one sub-negotiation block by its option: the terminal-type
/// responder, the MSDP decoder, or an unsupported-option error.
pub fn handle_sub_negotiations(
    config: &MudConfig,
    state: &mut CnxState,
    opt: u8,
    data: &Vec<u8>,
) -> (r: Result<(Option<CnxOutput>, Vec<TelnetOut>), TnError>)
    ensures
        match r {
            Ok(p) => s_handle_sub(*config, old(state)@, opt, data@) matches Ok(t)
                && t.0 == final(state)@ && t.1 == p.0.deep_view() && t.2 == p.1.deep_view(),
            Err(e) => s_handle_sub(*config, old(state)@, opt, data@) == Err::<
                (CnxView, Option<CnxOutputView>, Seq<TelnetOutView>),
                TnError,
            >(e) && final(state)@ == old(state)@,
        },
{
    if opt == options::TTYPE {
        match crate::mtts::handle_sub_negotiations(config, state) {
            Ok(out) => {
                let mut cmds: Vec<TelnetOut> = Vec::new();
                let ghost outv = out@;
                cmds.push(out);
                proof {
                    assert(cmds.deep_view() =~= seq![outv]);
                }
                Ok((None, cmds))
            },
            Err(e) => Err(e),
        }
    } else if opt == options::MSDP {
        match parse_msdp(data.as_slice()) {
            Ok(msdp_data) => {
                let r = (Some(CnxOutput::Msdp(msdp_data)), Vec::<TelnetOut>::new());
                proof {
                    assert(r.1.deep_view() =~= Seq::<TelnetOutView>::empty());
                }
                Ok(r)
            },
            Err(e) => Err(TnError::Decode(e)),
        }
    } else {
        Err(TnError::UnsupportedOption(opt))
    }
}

/// What one negotiation event does: a peer DO or WILL is answered, a
/// sub-negotiation is dispatched, and a WONT or DONT changes nothing.
pub open spec fn s_handle_negotiation(config: MudConfig, s: CnxView, n: NegotiationView) -> Result<
    (CnxView, Option<CnxOutputView>, Seq<TelnetOutView>),
    TnError,
> {
    match n {
        NegotiationView::Negotiation(action, opt) => if action == NegotiationAction::Do || action
            == NegotiationAction::Will {
            let r = spec_negotiate_answer(s, action, opt);
            Ok((r.0, None::<CnxOutputView>, r.1))
        } else {
            Ok((s, None::<CnxOutputView>, Seq::empty()))
        },
        NegotiationView::Subnegotiation(opt, data) => s_handle_sub(config, s, opt, data),
    }
}

/// Routes one negotiation event: answers a peer's DO or WILL, dispatches a
/// sub-negotiation block, and lets everything else pass.
pub fn handle_negotiation(config: &MudConfig, state: &mut CnxState, n: &Negotiation) -> (r: Result<
    (Option<CnxOutput>, Vec<TelnetOut>),
    TnError,
>)
    ensures
        match r {
            Ok(p) => s_handle_negotiation(*config, old(state)@, n.deep_view()) matches Ok(t) && t.0
                == final(state)@ && t.1 == p.0.deep_view() && t.2 == p.1.deep_view(),
            Err(e) => s_handle_negotiation(*config, old(state)@, n.deep_view()) == Err::<
                (CnxView, Option<CnxOutputView>, Seq<TelnetOutView>),
                TnError,
            >(e) && final(state)@ == old(state)@,
        },
{
    match n {
        Negotiation::Negotiation(action, opt) => {
            if *action == NegotiationAction::Do || *action == NegotiationAction::Will {
                let out = negotiate_answer(state, action, *opt);
                Ok((None, out))
            } else {
                let r = (None::<CnxOutput>, Vec::<TelnetOut>::new());
                proof {
                    assert(r.1.deep_view() =~= Seq::<TelnetOutView>::empty());
                }
                Ok(r)
            }
        },
        Negotiation::Subnegotiation(option, data) => handle_sub_negotiations(
            config,
            state,
            *option,
            data,
        ),
    }
}

/// A `Some` output as a sequence of zero or one outputs.
pub open spec fn opt_seq(o: Option<CnxOutputView>) -> Seq<CnxOutputView> {
    match o {
        Some(x) => seq![x],
        None => Seq::empty(),
    }
}

/// What handling the negotiation events from index `i` on does: each event
/// steps the state and contributes its output and commands in order; an
/// event that fails contributes its error and leaves the state alone.
pub open spec fn s_handle_all(
    config: MudConfig,
    s: CnxView,
    ns: Seq<NegotiationView>,
    i: int,
) -> (CnxView, Seq<CnxOutputView>, Seq<TelnetOutView>, Seq<TnError>)
    decreases ns.len() - i,
{
    if 0 <= i < ns.len() {
        match s_handle_negotiation(config, s, ns[i]) {
            Ok(t) => {
                let rest = s_handle_all(config, t.0, ns, i + 1);
                (rest.0, opt_seq(t.1) + rest.1, t.2 + rest.2, rest.3)
            },
            Err(e) => {
                let rest = s_handle_all(config, s, ns, i + 1);
                (rest.0, rest.1, rest.2, seq![e] + rest.3)
            },
        }
    } else {
        (s, Seq::empty(), Seq::empty(), Seq::empty())
    }
}

/// What one whole inbound event does: classify it, handle every negotiation
/// event in delivery order, and append the cycle's text as a final output.
pub open spec fn s_next(config: MudConfig, s: CnxView, e: ProtocolEventView) -> Result<
    (CnxView, Seq<CnxOutputView>, Seq<TelnetOutView>, Seq<TnError>),
    TnError,
> {
    match s_classify(e) {
        Ok(c) => {
            let r = s_handle_all(config, s, c.negotiations, 0);
            Ok((r.0, r.1 + seq![CnxOutputView::Data(c.data)], r.2, r.3))
        },
        Err(e2) => Err(e2),
    }
}

/// What one inbound read cycle produced: outputs for the client, commands
/// for the transport's write side, and the value-level errors of the events
/// that failed — surfaced, not fatal, so the caller can log or drop them.
#[derive(Debug)]
pub struct NextOutput {
    pub outputs: Vec<CnxOutput>,
    pub commands: Vec<TelnetOut>,
    pub errors: Vec<TnError>,
}

/// The handling of the whole event list equals what was gathered so far
/// plus whatever handling from `i` on in state `s` yields.
spec fn handle_all_continue(
    config: MudConfig,
    s0: CnxView,
    ns: Seq<NegotiationView>,
    acc_out: Seq<CnxOutputView>,
    acc_cmd: Seq<TelnetOutView>,
    acc_err: Seq<TnError>,
    s: CnxView,
    i: int,
) -> bool {
    ({
        let rest = s_handle_all(config, s, ns, i);
        s_handle_all(config, s0, ns, 0) == (
            rest.0,
            acc_out + rest.1,
            acc_cmd + rest.2,
            acc_err + rest.3,
        )
    })
}

/// Processes one inbound protocol event: classifies it, routes each
/// negotiation event in order — failures are collected, not fatal — and
/// hands back the decoded text as the last output.  Only an unknown IAC
/// command, a timeout, or undecodable text fails the cycle, and then the
/// connection state is untouched.
pub fn next(config: &MudConfig, state: &mut CnxState, event: ProtocolEvent) -> (r: Result<
    NextOutput,
    TnError,
>)
    ensures
        match r {
            Ok(out) => s_next(*config, old(state)@, event.deep_view()) matches Ok(t) && t.0
                == final(state)@ && t.1 == out.outputs.deep_view() && t.2
                == out.commands.deep_view() && t.3 == out.errors@,
            Err(e) => s_next(*config, old(state)@, event.deep_view()) == Err::<
                (CnxView, Seq<CnxOutputView>, Seq<TelnetOutView>, Seq<TnError>),
                TnError,
            >(e) && final(state)@ == old(state)@,
        },
{
    let ghost ev = event.deep_view();
    let ghost s0 = state@;
    let chunk = match classify_event(event) {
        Ok(c) => c,
        Err(e) => {
            return Err(e);
        },
    };
    let ghost nvs = chunk.negotiations.deep_view();

    let mut outputs: Vec<CnxOutput> = Vec::new();
    let mut commands: Vec<TelnetOut> = Vec::new();
    let mut errors: Vec<TnError> = Vec::new();
    let mut idx: usize = 0;

    proof {
        assert(outputs.deep_view() =~= Seq::<CnxOutputView>::empty());
        assert(commands.deep_view() =~= Seq::<TelnetOutView>::empty());
        assert(errors@ =~= Seq::<TnError>::empty());
        let rest = s_handle_all(*config, s0, nvs, 0);
        assert(Seq::<CnxOutputView>::empty() + rest.1 =~= rest.1);
        assert(Seq::<TelnetOutView>::empty() + rest.2 =~= rest.2);
        assert(Seq::<TnError>::empty() + rest.3 =~= rest.3);
    }

    while idx < chunk.negotiations.len()
        invariant
            idx <= chunk.negotiations.len(),
            nvs == chunk.negotiations.deep_view(),
            handle_all_continue(
                *config,
                s0,
                nvs,
                outputs.deep_view(),
                commands.deep_view(),
                errors@,
                state@,
                idx as int,
            ),
        decreases chunk.negotiations.len() - idx,
    {
        proof {
            assert(nvs[idx as int] == chunk.negotiations[idx as int].deep_view());
        }
        let n = &chunk.negotiations[idx];
        match handle_negotiation(config, state, n) {
            Ok(p) => {
                let (out_opt, mut cmds) = p;
                let ghost old_outputs = outputs.deep_view();
                let ghost old_commands = commands.deep_view();
                let ghost pushed = opt_seq(out_opt.deep_view());
                let ghost cmdsv = cmds.deep_view();
                match out_opt {
                    Some(o) => {
                        outputs.push(o);
                    },
                    None => {},
                }
                commands.append(&mut cmds);
                proof {
                    assert(outputs.deep_view() =~= old_outputs + pushed);
                    assert(commands.deep_view() =~= old_commands + cmdsv);
                    let rest = s_handle_all(*config, state@, nvs, idx + 1);
                    assert(old_outputs + (pushed + rest.1) =~= (old_outputs + pushed) + rest.1);
                    assert(old_commands + (cmdsv + rest.2) =~= (old_commands + cmdsv) + rest.2);
                }
            },
            Err(e) => {
                let ghost old_errors = errors@;
                errors.push(e);
                proof {
                    assert(errors@ =~= old_errors + seq![e]);
                    let rest = s_handle_all(*config, state@, nvs, idx + 1);
                    assert(old_errors + (seq![e] + rest.3) =~= (old_errors + seq![e]) + rest.3);
                }
            },
        }
        idx = idx + 1;
    }

    proof {
        let fin = s_handle_all(*config, state@, nvs, idx as int);
        assert(outputs.deep_view() + fin.1 =~= outputs.deep_view());
        assert(commands.deep_view() + fin.2 =~= commands.deep_view());
        assert(errors@ + fin.3 =~= errors@);
    }
    let ghost pre_data_outputs = outputs.deep_view();
    let data_output = CnxOutput::Data(chunk.data);
    let ghost datav = data_output.deep_view();
    outputs.push(data_output);
    proof {
        assert(outputs.deep_view() =~= pre_data_outputs + seq![datav]);
    }
    Ok(NextOutput { outputs, commands, errors })
}

} // verus!
