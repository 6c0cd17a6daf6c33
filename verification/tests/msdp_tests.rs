use mct::error::DecodeError;
use mct::lexer::Token;
use mct::msdp::{
    parse_msdp, parse_tokens, send_key_val, MsdpData, MsdpVal, MSDP_ARRAY_CLOSE, MSDP_ARRAY_OPEN,
    MSDP_TABLE_CLOSE, MSDP_TABLE_OPEN, MSDP_VAL, MSDP_VAR,
};
use mct::state::TelnetOut;

fn data(s: &str) -> Token {
    Token::Data(s.as_bytes().to_vec())
}

#[test]
fn key_val() {
    let tokens = vec![
        Token::Delim(MSDP_VAR),
        data("SEND"),
        Token::Delim(MSDP_VAL),
        data("HEALTH"),
    ];

    match parse_tokens(&tokens) {
        Ok(MsdpData { key: k, value: MsdpVal::Value(v) }) => {
            assert_eq!(k, String::from("SEND"));
            assert_eq!(v, String::from("HEALTH"));
        }
        _ => panic!("fail"),
    }
}

fn is_val(found: &Option<&MsdpVal>, expected: &str) {
    match found {
        Some(MsdpVal::Value(v)) => assert_eq!(*v, String::from(expected)),
        _ => panic!("fail"),
    }
}

#[test]
fn array() {
    let tokens = vec![
        Token::Delim(MSDP_VAR),
        data("REPORTABLE_VARIABLES"),
        Token::Delim(MSDP_VAL),
        Token::Delim(MSDP_ARRAY_OPEN),
        Token::Delim(MSDP_VAL),
        data("HEALTH"),
        Token::Delim(MSDP_VAL),
        data("HEALTH_MAX"),
        Token::Delim(MSDP_VAL),
        data("MANA"),
        Token::Delim(MSDP_VAL),
        data("MANA_MAX"),
        Token::Delim(MSDP_ARRAY_CLOSE),
    ];

    match parse_tokens(&tokens) {
        Ok(MsdpData { key: k, value: MsdpVal::Array(vec) }) => {
            assert_eq!(k, String::from("REPORTABLE_VARIABLES"));
            is_val(&vec.get(0), "HEALTH");
            is_val(&vec.get(1), "HEALTH_MAX");
            is_val(&vec.get(2), "MANA");
            is_val(&vec.get(3), "MANA_MAX");
        }
        _ => panic!("fail"),
    }
}

fn is_key_val(found: &Option<&(String, MsdpVal)>, expected_key: &str, expected_val: &str) {
    match found {
        Some((k, MsdpVal::Value(v))) => {
            assert_eq!(*k, String::from(expected_key));
            assert_eq!(*v, String::from(expected_val))
        }
        _ => panic!("fail"),
    }
}

#[test]
fn table() {
    let tokens = vec![
        Token::Delim(MSDP_VAR),
        data("ROOM"),
        Token::Delim(MSDP_VAL),
        Token::Delim(MSDP_TABLE_OPEN),
        Token::Delim(MSDP_VAR),
        data("VNUM"),
        Token::Delim(MSDP_VAL),
        data("6008"),
        Token::Delim(MSDP_VAR),
        data("NAME"),
        Token::Delim(MSDP_VAL),
        data("The forest clearing"),
        Token::Delim(MSDP_VAR),
        data("AREA"),
        Token::Delim(MSDP_VAL),
        data("Haon Dor"),
        Token::Delim(MSDP_VAR),
        data("TERRAIN"),
        Token::Delim(MSDP_VAL),
        data("forest"),
        Token::Delim(MSDP_VAR),
        data("EXITS"),
        Token::Delim(MSDP_VAL),
        Token::Delim(MSDP_TABLE_OPEN),
        Token::Delim(MSDP_VAR),
        data("n"),
        Token::Delim(MSDP_VAL),
        data("6011"),
        Token::Delim(MSDP_VAR),
        data("e"),
        Token::Delim(MSDP_VAL),
        data("6007"),
        Token::Delim(MSDP_TABLE_CLOSE),
        Token::Delim(MSDP_TABLE_CLOSE),
    ];

    match parse_tokens(&tokens) {
        Ok(MsdpData { key: k, value: MsdpVal::Table(vec) }) => {
            assert_eq!(k, String::from("ROOM"));
            is_key_val(&vec.get(0), "VNUM", "6008");
            is_key_val(&vec.get(1), "NAME", "The forest clearing");
            is_key_val(&vec.get(2), "AREA", "Haon Dor");
            is_key_val(&vec.get(3), "TERRAIN", "forest");

            match vec.get(4) {
                Some((k, MsdpVal::Table(inner))) => {
                    assert_eq!(*k, String::from("EXITS"));
                    is_key_val(&inner.get(0), "n", "6011");
                    is_key_val(&inner.get(1), "e", "6007");
                }
                _ => panic!("fail"),
            }
        }
        _ => panic!("fail"),
    }
}

#[test]
fn unterminated_array_fails() {
    let tokens = vec![
        Token::Delim(MSDP_VAR),
        data("REPORTABLE_VARIABLES"),
        Token::Delim(MSDP_VAL),
        Token::Delim(MSDP_ARRAY_OPEN),
        Token::Delim(MSDP_VAL),
        data("HEALTH"),
    ];
    assert_eq!(parse_tokens(&tokens).unwrap_err(), DecodeError::UnterminatedArray);
}

#[test]
fn unterminated_table_fails() {
    let tokens = vec![
        Token::Delim(MSDP_VAR),
        data("ROOM"),
        Token::Delim(MSDP_VAL),
        Token::Delim(MSDP_TABLE_OPEN),
        Token::Delim(MSDP_VAR),
        data("VNUM"),
        Token::Delim(MSDP_VAL),
        data("6008"),
    ];
    assert_eq!(parse_tokens(&tokens).unwrap_err(), DecodeError::UnterminatedTable);
}

#[test]
fn missing_var_fails() {
    let tokens = vec![Token::Delim(MSDP_VAL), data("HEALTH")];
    assert_eq!(parse_tokens(&tokens).unwrap_err(), DecodeError::ExpectedVar);
}

#[test]
fn missing_var_name_fails() {
    let tokens = vec![Token::Delim(MSDP_VAR), Token::Delim(MSDP_VAL)];
    assert_eq!(parse_tokens(&tokens).unwrap_err(), DecodeError::ExpectedVarData);
}

#[test]
fn missing_val_fails() {
    let tokens = vec![Token::Delim(MSDP_VAR), data("SEND")];
    assert_eq!(parse_tokens(&tokens).unwrap_err(), DecodeError::ExpectedVal);
}

#[test]
fn val_followed_by_close_is_malformed() {
    let tokens = vec![
        Token::Delim(MSDP_VAR),
        data("SEND"),
        Token::Delim(MSDP_VAL),
        Token::Delim(MSDP_TABLE_CLOSE),
    ];
    assert_eq!(parse_tokens(&tokens).unwrap_err(), DecodeError::Malformed);
}

#[test]
fn invalid_utf8_value_fails() {
    let tokens = vec![
        Token::Delim(MSDP_VAR),
        data("SEND"),
        Token::Delim(MSDP_VAL),
        Token::Data(vec![0xff, 0xfe]),
    ];
    assert_eq!(parse_tokens(&tokens).unwrap_err(), DecodeError::InvalidUtf8);
}

#[test]
fn parse_msdp_from_raw_bytes() {
    // VAR "SEND" VAL "HEALTH" as raw payload bytes
    let mut payload: Vec<u8> = Vec::new();
    payload.push(MSDP_VAR);
    payload.extend_from_slice(b"SEND");
    payload.push(MSDP_VAL);
    payload.extend_from_slice(b"HEALTH");

    match parse_msdp(&payload) {
        Ok(MsdpData { key: k, value: MsdpVal::Value(v) }) => {
            assert_eq!(k, String::from("SEND"));
            assert_eq!(v, String::from("HEALTH"));
        }
        _ => panic!("fail"),
    }
}

#[test]
fn trailing_tokens_are_ignored() {
    let tokens = vec![
        Token::Delim(MSDP_VAR),
        data("SEND"),
        Token::Delim(MSDP_VAL),
        data("HEALTH"),
        Token::Delim(MSDP_VAR),
        data("IGNORED"),
    ];
    match parse_tokens(&tokens) {
        Ok(MsdpData { key: k, value: MsdpVal::Value(v) }) => {
            assert_eq!(k, String::from("SEND"));
            assert_eq!(v, String::from("HEALTH"));
        }
        _ => panic!("fail"),
    }
}

#[test]
fn send_key_val_frames_the_pair() {
    let k = String::from("REPORT");
    let v = String::from("HEALTH");
    match send_key_val(&k, &v) {
        TelnetOut::Subnegotiate(opt, payload) => {
            assert_eq!(opt, mct::options::MSDP);
            let mut expected: Vec<u8> = vec![MSDP_VAR];
            expected.extend_from_slice(b"REPORT");
            expected.push(MSDP_VAL);
            expected.extend_from_slice(b"HEALTH");
            assert_eq!(payload, expected);
        }
        _ => panic!("fail"),
    }
}
