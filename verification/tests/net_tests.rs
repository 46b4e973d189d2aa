use beep_sfu::net::IpV4;
use beep_sfu::net::NetErr;
use beep_sfu::net::is_usable;
use beep_sfu::net::select_host_address;

fn ip(a: u8, b: u8, c: u8, d: u8) -> IpV4 {
    IpV4 { a, b, c, d }
}

#[test]
fn loopback_link_local_and_broadcast_are_unusable() {
    assert!(!is_usable(&ip(127, 0, 0, 1)));
    assert!(!is_usable(&ip(127, 255, 0, 3)));
    assert!(!is_usable(&ip(169, 254, 0, 7)));
    assert!(!is_usable(&ip(255, 255, 255, 255)));
    assert!(is_usable(&ip(192, 168, 1, 10)));
    assert!(is_usable(&ip(10, 0, 0, 1)));
    assert!(is_usable(&ip(169, 253, 0, 7)));
}

#[test]
fn first_usable_address_is_selected() {
    let candidates = vec![
        ip(127, 0, 0, 1),
        ip(169, 254, 1, 1),
        ip(192, 168, 1, 10),
        ip(10, 0, 0, 1),
    ];
    assert_eq!(select_host_address(&candidates), Ok(ip(192, 168, 1, 10)));
}

#[test]
fn no_usable_address_reports_no_interface() {
    let candidates = vec![ip(127, 0, 0, 1), ip(169, 254, 1, 1), ip(255, 255, 255, 255)];
    assert_eq!(
        select_host_address(&candidates),
        Err(NetErr::NoNetworkInterface)
    );
    assert_eq!(
        select_host_address(&Vec::new()),
        Err(NetErr::NoNetworkInterface)
    );
}
