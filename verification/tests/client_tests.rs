use mct::cnx::{classify_event, next, CnxOutput, ProtocolEvent};
use mct::error::{DecodeError, TnError};
use mct::gmcp::list_command;
use mct::msdp::{MsdpData, MsdpVal, MSDP_VAL, MSDP_VAR};
use mct::options;
use mct::state::{CnxState, NegotiationAction, TelnetOut};
use mct::ui::{App, AppArea};
use mct::MudConfig;

#[test]
fn data_event_becomes_text_output() {
    let config = MudConfig::default();
    let mut state = CnxState::new();
    let out = next(
        &config,
        &mut state,
        ProtocolEvent::Data(b"hello".to_vec()),
    )
    .unwrap();
    assert_eq!(out.commands.len(), 0);
    assert_eq!(out.errors.len(), 0);
    assert_eq!(out.outputs.len(), 1);
    match &out.outputs[0] {
        CnxOutput::Data(s) => assert_eq!(s, "hello"),
        _ => panic!("fail"),
    }
}

#[test]
fn invalid_utf8_data_fails_the_chunk() {
    let config = MudConfig::default();
    let mut state = CnxState::new();
    match next(&config, &mut state, ProtocolEvent::Data(vec![0xff, 0xfe])) {
        Err(TnError::InvalidUtf8) => {}
        _ => panic!("fail"),
    }
}

#[test]
fn unknown_iac_is_fatal() {
    let config = MudConfig::default();
    let mut state = CnxState::new();
    match next(&config, &mut state, ProtocolEvent::UnknownIac(250)) {
        Err(TnError::UnknownIac(250)) => {}
        _ => panic!("fail"),
    }
}

#[test]
fn timed_out_read_is_surfaced() {
    let config = MudConfig::default();
    let mut state = CnxState::new();
    match next(&config, &mut state, ProtocolEvent::TimedOut) {
        Err(TnError::TimedOut) => {}
        _ => panic!("fail"),
    }
}

#[test]
fn transport_error_event_is_skipped() {
    let config = MudConfig::default();
    let mut state = CnxState::new();
    let out = next(
        &config,
        &mut state,
        ProtocolEvent::Error(String::from("boom")),
    )
    .unwrap();
    assert_eq!(out.commands.len(), 0);
    assert_eq!(out.errors.len(), 0);
    assert_eq!(out.outputs.len(), 1);
    match &out.outputs[0] {
        CnxOutput::Data(s) => assert_eq!(s, ""),
        _ => panic!("fail"),
    }
}

#[test]
fn peer_do_is_answered_with_will_then_do() {
    let config = MudConfig::default();
    let mut state = CnxState::new();
    let out = next(
        &config,
        &mut state,
        ProtocolEvent::Negotiation(NegotiationAction::Do, options::TTYPE),
    )
    .unwrap();
    assert_eq!(out.errors.len(), 0);
    assert_eq!(out.commands.len(), 2);
    match (&out.commands[0], &out.commands[1]) {
        (TelnetOut::Negotiate(a0, o0), TelnetOut::Negotiate(a1, o1)) => {
            assert_eq!((*a0, *o0), (NegotiationAction::Will, options::TTYPE));
            assert_eq!((*a1, *o1), (NegotiationAction::Do, options::TTYPE));
        }
        _ => panic!("fail"),
    }
    assert!(state.negotiation_state(options::TTYPE).received_do);
}

#[test]
fn peer_dont_is_ignored() {
    let config = MudConfig::default();
    let mut state = CnxState::new();
    let out = next(
        &config,
        &mut state,
        ProtocolEvent::Negotiation(NegotiationAction::Dont, options::TTYPE),
    )
    .unwrap();
    assert_eq!(out.commands.len(), 0);
    assert_eq!(out.errors.len(), 0);
}

#[test]
fn ttype_subnegotiation_gets_an_mtts_reply() {
    let config = MudConfig::default();
    let mut state = CnxState::new();
    let out = next(
        &config,
        &mut state,
        ProtocolEvent::Subnegotiation(options::TTYPE, Vec::new()),
    )
    .unwrap();
    assert_eq!(out.errors.len(), 0);
    assert_eq!(out.commands.len(), 1);
    match &out.commands[0] {
        TelnetOut::Subnegotiate(opt, payload) => {
            assert_eq!(*opt, options::TTYPE);
            let mut expected: Vec<u8> = vec![0];
            expected.extend_from_slice(b"mudnet");
            assert_eq!(*payload, expected);
        }
        _ => panic!("fail"),
    }
    assert_eq!(state.mtts_num_call, 1);
}

#[test]
fn msdp_subnegotiation_is_decoded() {
    let config = MudConfig::default();
    let mut state = CnxState::new();
    let mut payload: Vec<u8> = Vec::new();
    payload.push(MSDP_VAR);
    payload.extend_from_slice(b"SEND");
    payload.push(MSDP_VAL);
    payload.extend_from_slice(b"HEALTH");

    let out = next(
        &config,
        &mut state,
        ProtocolEvent::Subnegotiation(options::MSDP, payload),
    )
    .unwrap();
    assert_eq!(out.errors.len(), 0);
    assert_eq!(out.outputs.len(), 2);
    match &out.outputs[0] {
        CnxOutput::Msdp(MsdpData { key, value: MsdpVal::Value(v) }) => {
            assert_eq!(key, "SEND");
            assert_eq!(v, "HEALTH");
        }
        _ => panic!("fail"),
    }
}

#[test]
fn malformed_msdp_payload_is_an_error_value_not_fatal() {
    let config = MudConfig::default();
    let mut state = CnxState::new();
    let payload: Vec<u8> = vec![MSDP_VAL];
    let out = next(
        &config,
        &mut state,
        ProtocolEvent::Subnegotiation(options::MSDP, payload),
    )
    .unwrap();
    assert_eq!(out.errors.len(), 1);
    assert_eq!(out.errors[0], TnError::Decode(DecodeError::ExpectedVar));
    // the loop goes on: the chunk still carries its (empty) text output
    assert_eq!(out.outputs.len(), 1);
}

#[test]
fn unsupported_subnegotiation_is_recoverable() {
    let config = MudConfig::default();
    let mut state = CnxState::new();
    let out = next(
        &config,
        &mut state,
        ProtocolEvent::Subnegotiation(options::MSSP, vec![1, 2, 3]),
    )
    .unwrap();
    assert_eq!(out.errors.len(), 1);
    assert_eq!(out.errors[0], TnError::UnsupportedOption(options::MSSP));
    assert_eq!(out.commands.len(), 0);
}

#[test]
fn no_data_event_classifies_to_an_empty_chunk() {
    let chunk = classify_event(ProtocolEvent::NoData).unwrap();
    assert_eq!(chunk.negotiations.len(), 0);
    assert_eq!(chunk.data, "");
}

#[test]
fn list_command_is_the_gmcp_probe() {
    match list_command() {
        TelnetOut::Subnegotiate(opt, payload) => {
            assert_eq!(opt, options::GMCP);
            assert_eq!(payload, b"MSDP {\"LIST\" : \"COMMANDS\"}".to_vec());
        }
        _ => panic!("fail"),
    }
}

#[test]
fn default_config_is_an_xterm_client() {
    let config = MudConfig::default();
    assert_eq!(config.client_name, "mudnet");
    assert_eq!(config.terminal_type, "XTERM");
    assert_eq!(config.features.bits, 5);
}

#[test]
fn app_areas_have_names() {
    assert_eq!(AppArea::Main.name(), "Main");
    assert_eq!(AppArea::Input.name(), "Input");
    assert_eq!(AppArea::CharacterSheet.name(), "Character Sheet");
    assert_eq!(AppArea::WorldMap.name(), "Map");
    assert_eq!(AppArea::Chat.name(), "Chat");
}

#[test]
fn fresh_app_focuses_the_input_box() {
    let app = App::new();
    assert!(app.focused_area == AppArea::Input);
    assert_eq!(app.input, "");
    assert_eq!(app.messages.len(), 0);
}
