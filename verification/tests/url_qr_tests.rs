use qrshare::config::{BindOptions, Config, ImageOptions};
use qrshare::errors::{Error, IoKind};
use qrshare::html::{a_href, list_rows};
use qrshare::net::HostAddr;
use qrshare::qr::{gen_qr, qr_svg_image, show_qr_image, QrFileType};
use qrshare::registry::PathCandidate;
use qrshare::server::{FileRef, Server};
use qrshare::url::{checked_url, compose_url};

fn v4(a: u8, b: u8, c: u8, d: u8) -> HostAddr {
    HostAddr::V4 { a, b, c, d }
}

fn sample_server() -> Server {
    let config = Config {
        image: Some(ImageOptions::Svg),
        quiet: None,
        strict: None,
        bind: BindOptions { hosts: vec![v4(203, 0, 113, 5)], port: Some(8080) },
    };
    let cands = vec![PathCandidate {
        supplied: "file.txt".to_string(),
        canonical: Some("/srv/file.txt".to_string()),
    }];
    let mut server = Server::new(config, &cands).unwrap();
    server.registry.record_digest("abcd1234".to_string(), "/srv/file.txt".to_string());
    server
}

#[test]
fn url_composition() {
    assert_eq!(
        compose_url("http", "1.2.3.4", 8080, "sha512", "abc"),
        "http://1.2.3.4:8080/sha512/?h=abc"
    );
    assert_eq!(
        compose_url("http", "0.0.0.0", 0, "qr/sha512", ""),
        "http://0.0.0.0:0/qr/sha512/?h="
    );
}

#[test]
fn url_validation() {
    assert!(checked_url("http", "1.2.3.4", 80, "sha512", "abc").is_ok());
    match checked_url("http", "bad host", 80, "sha512", "abc") {
        Err(Error::Uri(u)) => assert_eq!(u, "http://bad host:80/sha512/?h=abc"),
        _ => panic!("a host with a space must not validate"),
    }
}

#[test]
fn server_urls() {
    let server = sample_server();
    let interfaces = vec![];
    let by_digest = FileRef::ByDigest("abcd1234".to_string());
    assert_eq!(
        server.file_url(&by_digest, &interfaces).unwrap(),
        "http://203.0.113.5:8080/sha512/?h=abcd1234"
    );
    assert_eq!(
        server.qr_url(&by_digest, &interfaces).unwrap(),
        "http://203.0.113.5:8080/qr/sha512/?h=abcd1234"
    );
    let by_path = FileRef::ByPath("/srv/file.txt".to_string());
    assert_eq!(
        server.file_url(&by_path, &interfaces).unwrap(),
        "http://203.0.113.5:8080/sha512/?h=abcd1234"
    );
    let unknown = FileRef::ByPath("/srv/other.txt".to_string());
    assert!(server.file_url(&unknown, &interfaces).is_none());
    assert_eq!(server.query_digest("/srv/file.txt").unwrap(), "abcd1234");
}

#[test]
fn qr_svg_rendering() {
    let svg = qr_svg_image("hello").unwrap();
    assert_ne!(svg, "hello");
    assert!(svg.contains("svg"));
    // deterministic across calls
    assert_eq!(qr_svg_image("hello").unwrap(), svg);
    // data too long for any QR code version
    let huge = "x".repeat(8000);
    assert!(matches!(qr_svg_image(&huge), Err(Error::Qr)));
}

#[test]
fn qr_image_for_digest_encodes_download_url() {
    let server = sample_server();
    let svg = show_qr_image(&server, "abcd1234", &vec![]).unwrap();
    let direct = qr_svg_image("http://203.0.113.5:8080/sha512/?h=abcd1234").unwrap();
    assert_eq!(svg, direct);
}

#[test]
fn qr_generation_plan() {
    let interfaces = vec![v4(203, 0, 113, 9)];
    let plan = gen_qr(
        &v4(203, 0, 113, 5),
        8080,
        "abc",
        "sha512",
        "http",
        ImageOptions::Svg,
        "/tmp/qrdir",
        &interfaces,
    )
    .unwrap();
    assert_eq!(plan.url, "http://203.0.113.5:8080/sha512/?h=abc");
    assert_eq!(plan.file_path, "/tmp/qrdir/sha512_qrshare.svg");

    // a non-routable bind address falls back to the first global interface
    let plan = gen_qr(
        &v4(127, 0, 0, 1),
        80,
        "abc",
        "sha512",
        "http",
        ImageOptions::Png,
        "/tmp/qrdir",
        &interfaces,
    )
    .unwrap();
    assert_eq!(plan.url, "http://203.0.113.9:80/sha512/?h=abc");
    assert_eq!(plan.file_path, "/tmp/qrdir/sha512_qrshare.png");

    // no routable address anywhere
    let lonely = vec![v4(127, 0, 0, 1)];
    assert!(matches!(
        gen_qr(&v4(0, 0, 0, 0), 80, "a", "sha512", "http", ImageOptions::Svg, "/d", &lonely),
        Err(Error::NoGlobalIpv4)
    ));

    // image output disabled
    assert!(matches!(
        gen_qr(
            &v4(203, 0, 113, 5),
            80,
            "a",
            "sha512",
            "http",
            ImageOptions::NoImage,
            "/d",
            &interfaces
        ),
        Err(Error::IO(IoKind::Other))
    ));
}

#[test]
fn listing_rows() {
    let server = sample_server();
    let rows = list_rows(&server, &vec![]);
    assert_eq!(rows.len(), 1);
    assert_eq!(rows[0].digest_short, "abcd1234");
    assert_eq!(
        rows[0].download,
        "<a href=\"http://203.0.113.5:8080/sha512/?h=abcd1234\">file.txt</a>"
    );
    assert_eq!(
        rows[0].qr,
        "<a href=\"http://203.0.113.5:8080/qr/sha512/?h=abcd1234\">QR code</a>"
    );
}

#[test]
fn long_digests_are_shortened() {
    let config = Config {
        image: None,
        quiet: None,
        strict: None,
        bind: BindOptions { hosts: vec![v4(1, 2, 3, 4)], port: Some(1) },
    };
    let cands = vec![PathCandidate {
        supplied: "x".to_string(),
        canonical: Some("/x".to_string()),
    }];
    let mut server = Server::new(config, &cands).unwrap();
    server
        .registry
        .record_digest("0123456789abcdef".to_string(), "/x".to_string());
    let rows = list_rows(&server, &vec![]);
    assert_eq!(rows[0].digest_short, "0123456789");
}

#[test]
fn anchors() {
    assert_eq!(a_href("http://u", "label"), "<a href=\"http://u\">label</a>");
}

#[test]
fn format_names() {
    assert_eq!(ImageOptions::Png.text(), "png");
    assert_eq!(ImageOptions::Svg.text(), "svg");
    assert_eq!(ImageOptions::NoImage.text(), "none");
    assert_eq!(QrFileType::Png.text(), "png");
    assert_eq!(QrFileType::Svg.text(), "svg");
}

#[test]
fn error_texts_and_status() {
    assert_eq!(Error::NoFiles.text(), "No files supplied");
    assert_eq!(
        Error::InvalidFile("/gone".to_string()).text(),
        "Invalid file at /gone"
    );
    assert_eq!(
        Error::HttpResponse(404, "missing".to_string()).text(),
        "(404) missing"
    );
    assert_eq!(Error::HttpResponse(404, "missing".to_string()).status_code(), 404);
    assert_eq!(Error::NoFiles.status_code(), 500);
    assert_eq!(Error::PoisonSync.text(), "Lock poisoned");
    assert_eq!(
        Error::IO(IoKind::NotFound).text(),
        "Error from std::io: entity not found"
    );
    assert_eq!(
        Error::Uri("zzz".to_string()).text(),
        "Cannot parse as URI: zzz"
    );
}
