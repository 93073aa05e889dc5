use abstract_ws_tungstenite::address::{default_port, pick_address};

#[test]
fn ws_scheme_defaults_to_port_80() {
    assert_eq!(default_port("ws"), Some(80));
}

#[test]
fn wss_scheme_defaults_to_port_443() {
    assert_eq!(default_port("wss"), Some(443));
}

#[test]
fn other_schemes_have_no_default_port() {
    assert_eq!(default_port("http"), None);
    assert_eq!(default_port("https"), None);
    assert_eq!(default_port(""), None);
    assert_eq!(default_port("WS"), None);
    assert_eq!(default_port("wsss"), None);
    assert_eq!(default_port("w"), None);
}

#[test]
fn first_resolved_address_is_picked() {
    assert_eq!(pick_address(&[7u32, 8, 9]), Some(7));
    assert_eq!(pick_address(&[5u32]), Some(5));
}

#[test]
fn no_resolved_address_picks_none() {
    let none: [u32; 0] = [];
    assert_eq!(pick_address(&none), None);
}
