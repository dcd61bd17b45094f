use samesame::commands::{connect_to_server, disconnect_from_server, toggle_mode};
use samesame::state::{AppState, InputMode};

#[test]
fn connecting_records_the_address() {
    let mut s: AppState<u8> = AppState::new();
    let msg = connect_to_server(&mut s, 9, "192.168.1.100", 24800);
    assert_eq!(msg, "Connected to 192.168.1.100:24800");
    assert_eq!(s.server_address.as_deref(), Some("192.168.1.100:24800"));
    assert_eq!(s.network_client, Some(9));
    assert_eq!(s.mode, InputMode::MacOS);
    assert_eq!(s.sequence, 0);
}

#[test]
fn port_zero_and_largest_port_are_written_in_decimal() {
    let mut s: AppState<u8> = AppState::new();
    assert_eq!(connect_to_server(&mut s, 1, "h", 0), "Connected to h:0");
    assert_eq!(connect_to_server(&mut s, 1, "h", 65535), "Connected to h:65535");
    assert_eq!(connect_to_server(&mut s, 1, "10.0.0.1", 10), "Connected to 10.0.0.1:10");
    assert_eq!(s.server_address.as_deref(), Some("10.0.0.1:10"));
}

#[test]
fn disconnecting_forgets_the_server() {
    let mut s: AppState<u8> = AppState::new();
    connect_to_server(&mut s, 9, "10.0.0.2", 24800);
    s.sequence = 5;
    disconnect_from_server(&mut s);
    assert_eq!(s.network_client, None);
    assert_eq!(s.server_address, None);
    assert_eq!(s.sequence, 5);
}

#[test]
fn toggling_twice_restores_the_mode() {
    let mut s: AppState<u8> = AppState::new();
    assert_eq!(toggle_mode(&mut s), InputMode::Windows);
    assert_eq!(s.mode, InputMode::Windows);
    assert_eq!(toggle_mode(&mut s), InputMode::MacOS);
    assert_eq!(s.mode, InputMode::MacOS);
    assert_eq!(format!("{:?}", InputMode::Windows), "Windows");
}
