use mct::cnx::{negotiate, negotiate_answer};
use mct::options;
use mct::state::{CnxState, NegotiationAction, NegotiationState, TelnetOut};

fn actions(out: &[TelnetOut]) -> Vec<(NegotiationAction, u8)> {
    out.iter()
        .map(|c| match c {
            TelnetOut::Negotiate(a, o) => (*a, *o),
            _ => panic!("fail"),
        })
        .collect()
}

#[test]
fn supported_option_sends_will_before_do() {
    let mut state = CnxState::new();
    let out = negotiate(&mut state, options::TTYPE);
    assert_eq!(
        actions(&out),
        vec![
            (NegotiationAction::Will, options::TTYPE),
            (NegotiationAction::Do, options::TTYPE)
        ]
    );
    let ns = state.negotiation_state(options::TTYPE);
    assert!(ns.send_will);
    assert!(ns.send_do);
    assert!(!ns.send_wont);
}

#[test]
fn unsupported_option_gets_only_wont() {
    let mut state = CnxState::new();
    let out = negotiate_answer(&mut state, &NegotiationAction::Will, options::MSSP);
    assert_eq!(actions(&out), vec![(NegotiationAction::Wont, options::MSSP)]);
    let ns = state.negotiation_state(options::MSSP);
    assert!(ns.send_wont);
    assert!(!ns.send_will);
    assert!(!ns.send_do);
    assert!(!ns.should_negotiate());
}

#[test]
fn negotiation_is_not_reinitiated() {
    let mut state = CnxState::new();
    let first = negotiate(&mut state, options::GMCP);
    assert_eq!(first.len(), 2);
    // send_do is on file now, so a second round refuses instead
    let second = negotiate(&mut state, options::GMCP);
    assert_eq!(actions(&second), vec![(NegotiationAction::Wont, options::GMCP)]);
}

#[test]
fn received_wont_blocks_negotiation() {
    let mut ns = NegotiationState::new(options::TTYPE);
    assert!(ns.should_negotiate());
    ns.received_wont = true;
    assert!(!ns.should_negotiate());
}

#[test]
fn answer_records_received_do() {
    let mut state = CnxState::new();
    negotiate_answer(&mut state, &NegotiationAction::Do, options::TTYPE);
    let ns = state.negotiation_state(options::TTYPE);
    assert!(ns.received_do);
    assert!(!ns.received_will);
    assert!(ns.send_will);
    assert!(ns.send_do);
    assert!(ns.is_active());
}

#[test]
fn is_active_needs_handshake_both_ways() {
    let mut ns = NegotiationState::new(options::GMCP);
    assert!(!ns.is_active());
    ns.received_will = true;
    assert!(!ns.is_active());
    ns.send_do = true;
    assert!(ns.is_active());
    ns.received_wont = true;
    assert!(!ns.is_active());
}

#[test]
fn negotiation_state_starts_fresh() {
    let state = CnxState::new();
    let ns = state.negotiation_state(options::MXP);
    assert_eq!(ns.option, options::MXP);
    assert!(!ns.received_will);
    assert!(!ns.received_wont);
    assert!(!ns.received_do);
    assert!(!ns.received_dont);
    assert!(!ns.send_will);
    assert!(!ns.send_wont);
    assert!(!ns.send_do);
    assert!(!ns.send_dont);
}

#[test]
fn add_negociated_option_replaces_the_record() {
    let mut state = CnxState::new();
    let mut ns = NegotiationState::new(options::ATCP);
    ns.received_will = true;
    state.add_negociated_option(ns);
    assert!(state.negotiation_state(options::ATCP).received_will);

    let mut ns2 = NegotiationState::new(options::ATCP);
    ns2.received_dont = true;
    state.add_negociated_option(ns2);
    let found = state.negotiation_state(options::ATCP);
    assert!(found.received_dont);
    assert!(!found.received_will);
}

#[test]
fn str_of_mud_option_names_each_code() {
    assert_eq!(mct::options::str_of_mud_option(68).unwrap(), "MSLP");
    assert_eq!(mct::options::str_of_mud_option(69).unwrap(), "MSDP");
    assert_eq!(mct::options::str_of_mud_option(70).unwrap(), "MSSP");
    assert_eq!(mct::options::str_of_mud_option(85).unwrap(), "MCCP1");
    assert_eq!(mct::options::str_of_mud_option(86).unwrap(), "MCCP2");
    assert_eq!(mct::options::str_of_mud_option(87).unwrap(), "MCCP3");
    assert_eq!(mct::options::str_of_mud_option(90).unwrap(), "MSP");
    assert_eq!(mct::options::str_of_mud_option(91).unwrap(), "MXP");
    assert_eq!(
        mct::options::str_of_mud_option(102).unwrap(),
        "AARDWOLF's 102 channel"
    );
    assert_eq!(mct::options::str_of_mud_option(200).unwrap(), "ATCP");
    assert_eq!(mct::options::str_of_mud_option(201).unwrap(), "GMCP");
    match mct::options::str_of_mud_option(42) {
        Err(mct::error::TnError::UnknownOption(42)) => {}
        _ => panic!("fail"),
    }
}
