use qrshare::config::{BindOptions, Config, ImageOptions};
use qrshare::net::{get_first_net, host_text, is_global_4, HostAddr};
use qrshare::textfmt::{dec_u16, hex_bytes};
use qrshare::utils::Thing;

fn v4(a: u8, b: u8, c: u8, d: u8) -> HostAddr {
    HostAddr::V4 { a, b, c, d }
}

#[test]
fn globally_routable_predicate() {
    assert!(!is_global_4(&v4(0, 0, 0, 0)));
    assert!(!is_global_4(&v4(127, 0, 0, 1)));
    assert!(!is_global_4(&v4(169, 254, 7, 9)));
    assert!(is_global_4(&v4(203, 0, 113, 5)));
    assert!(!is_global_4(&v4(224, 0, 0, 1)));
    assert!(!is_global_4(&v4(239, 255, 255, 255)));
    assert!(!is_global_4(&v4(255, 255, 255, 255)));
    assert!(is_global_4(&v4(8, 8, 8, 8)));
    assert!(!is_global_4(&HostAddr::V6 { s: [0x2001, 0xdb8, 0, 0, 0, 0, 0, 1] }));
}

#[test]
fn first_global_address() {
    let addrs = vec![v4(127, 0, 0, 1), v4(169, 254, 0, 1), v4(203, 0, 113, 5), v4(8, 8, 8, 8)];
    assert_eq!(get_first_net(&addrs), Some(v4(203, 0, 113, 5)));
    let none = vec![v4(127, 0, 0, 1), v4(0, 0, 0, 0)];
    assert_eq!(get_first_net(&none), None);
    assert_eq!(get_first_net(&vec![]), None);
}

#[test]
fn primary_host_selection() {
    let explicit = BindOptions { hosts: vec![v4(10, 1, 2, 3), v4(203, 0, 113, 5)], port: Some(80) };
    let interfaces = vec![v4(203, 0, 113, 9)];
    assert_eq!(explicit.primary_host(&interfaces), v4(10, 1, 2, 3));

    let unconfigured = BindOptions { hosts: vec![], port: None };
    assert_eq!(unconfigured.primary_host(&interfaces), v4(203, 0, 113, 9));
    assert_eq!(unconfigured.primary_host(&vec![v4(127, 0, 0, 1)]), v4(0, 0, 0, 0));
}

#[test]
fn effective_hosts() {
    let unconfigured = BindOptions { hosts: vec![], port: None };
    let hosts = unconfigured.hosts_iter();
    assert_eq!(hosts.len(), 2);
    assert_eq!(hosts[0], v4(0, 0, 0, 0));
    assert_eq!(hosts[1], HostAddr::V6 { s: [0, 0, 0, 0, 0, 0, 0, 0] });

    let explicit = BindOptions { hosts: vec![v4(1, 2, 3, 4)], port: Some(8000) };
    assert_eq!(explicit.hosts_iter(), vec![v4(1, 2, 3, 4)]);
    assert_eq!(explicit.port(), 8000);
    assert_eq!(BindOptions::default().port(), 0);
}

#[test]
fn address_text() {
    assert_eq!(host_text(&v4(203, 0, 113, 5)), "203.0.113.5");
    assert_eq!(host_text(&v4(0, 0, 0, 0)), "0.0.0.0");
    assert_eq!(
        host_text(&HostAddr::V6 { s: [0x2001, 0xdb8, 0, 0, 0, 0, 0, 1] }),
        "2001:db8::1"
    );
    assert_eq!(host_text(&HostAddr::V6 { s: [0, 0, 0, 0, 0, 0, 0, 0] }), "::");
    assert_eq!(host_text(&HostAddr::V6 { s: [0, 0, 0, 0, 0, 0, 0, 1] }), "::1");
    assert_eq!(
        host_text(&HostAddr::V6 { s: [1, 2, 3, 4, 5, 6, 7, 8] }),
        "1:2:3:4:5:6:7:8"
    );
    // a single zero group is not compressed
    assert_eq!(
        host_text(&HostAddr::V6 { s: [1, 0, 1, 1, 1, 1, 1, 1] }),
        "1:0:1:1:1:1:1:1"
    );
    // on a tie, the leftmost run is compressed
    assert_eq!(
        host_text(&HostAddr::V6 { s: [1, 0, 0, 1, 0, 0, 1, 1] }),
        "1::1:0:0:1:1"
    );
    assert_eq!(
        host_text(&HostAddr::V6 { s: [0xfe80, 0, 0, 0, 0x1ff, 0xfe23, 0x4567, 0x890a] }),
        "fe80::1ff:fe23:4567:890a"
    );
}

#[test]
fn number_rendering() {
    assert_eq!(dec_u16(0), "0");
    assert_eq!(dec_u16(8080), "8080");
    assert_eq!(dec_u16(65535), "65535");
    assert_eq!(hex_bytes(&vec![0xabu8, 0x01]), "ab01");
}

#[test]
fn config_getters() {
    let config = Config::default();
    assert!(matches!(config.image(), ImageOptions::Png));
    assert!(!config.is_strict());
    assert!(!config.is_quiet());

    let set = Config {
        image: Some(ImageOptions::Svg),
        quiet: Some(true),
        strict: Some(true),
        bind: BindOptions::default(),
    };
    assert!(matches!(set.image(), ImageOptions::Svg));
    assert!(set.is_strict());
    assert!(set.is_quiet());
}

#[test]
fn thing_getter_defaults() {
    assert_eq!(Thing { field: Some(2) }.field(), 2);
    assert_eq!(Thing { field: None }.field(), 3);
}
