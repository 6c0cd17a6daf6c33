use mct::error::TnError;
use mct::mtts::{handle_sub_negotiations, Features, ANSI, COLORS_256, UTF8};
use mct::state::{CnxState, TelnetOut};
use mct::MudConfig;

#[test]
fn print_vector_bit() {
    let feat: Features = Features { bits: ANSI | UTF8 | COLORS_256 };
    assert_eq!(format!("{}", feat.bits), "13");
}

fn reply_payload(config: &MudConfig, state: &mut CnxState) -> Vec<u8> {
    match handle_sub_negotiations(config, state) {
        Ok(TelnetOut::Subnegotiate(opt, payload)) => {
            assert_eq!(opt, mct::options::TTYPE);
            payload
        }
        _ => panic!("fail"),
    }
}

#[test]
fn three_replies_then_input_error() {
    let config = MudConfig::default();
    let mut state = CnxState::new();
    assert_eq!(state.mtts_num_call, 0);

    let first = reply_payload(&config, &mut state);
    let mut expected: Vec<u8> = vec![0];
    expected.extend_from_slice(b"mudnet");
    assert_eq!(first, expected);
    assert_eq!(state.mtts_num_call, 1);

    let second = reply_payload(&config, &mut state);
    let mut expected: Vec<u8> = vec![0];
    expected.extend_from_slice(b"XTERM");
    assert_eq!(second, expected);
    assert_eq!(state.mtts_num_call, 2);

    let third = reply_payload(&config, &mut state);
    let mut expected: Vec<u8> = vec![0];
    expected.extend_from_slice(b"MTTS 5");
    assert_eq!(third, expected);
    assert_eq!(state.mtts_num_call, 3);

    match handle_sub_negotiations(&config, &mut state) {
        Err(e) => assert_eq!(e, TnError::MttsExhausted),
        _ => panic!("fail"),
    }
    assert_eq!(state.mtts_num_call, 3);
}

#[test]
fn feature_bitmask_is_rendered_in_decimal() {
    let config = MudConfig {
        client_name: String::from("mudnet"),
        terminal_type: "XTERM",
        features: Features { bits: 1000 },
    };
    let mut state = CnxState::new();
    reply_payload(&config, &mut state);
    reply_payload(&config, &mut state);
    let third = reply_payload(&config, &mut state);
    let mut expected: Vec<u8> = vec![0];
    expected.extend_from_slice(b"MTTS 1000");
    assert_eq!(third, expected);
}
