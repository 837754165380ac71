use qrshare::errors::Error;
use qrshare::registry::{is_multiread_md, FileKind, PathCandidate, Registry};

fn cand(supplied: &str, canonical: Option<&str>) -> PathCandidate {
    PathCandidate {
        supplied: supplied.to_string(),
        canonical: canonical.map(|c| c.to_string()),
    }
}

#[test]
fn duplicate_path_enqueued_once() {
    let cands = vec![
        cand("a.txt", Some("/abs/a.txt")),
        cand("./a.txt", Some("/abs/a.txt")),
    ];
    let reg = Registry::new(&cands, false).unwrap();
    assert_eq!(reg.pending.len(), 1);
    assert_eq!(reg.pending[0], "/abs/a.txt");
    assert_eq!(reg.entries.len(), 0);
}

#[test]
fn duplicate_path_digested_once() {
    let cands = vec![cand("a.txt", Some("/abs/a.txt"))];
    let mut reg = Registry::new(&cands, false).unwrap();
    let bytes = b"same contents".to_vec();
    let path = "/abs/a.txt".to_string();
    reg.record_file(&path, FileKind::File, Some(&bytes));
    reg.record_file(&path, FileKind::File, Some(&bytes));
    assert_eq!(reg.entries.len(), 1);
    assert_eq!(reg.entries[0].path, "/abs/a.txt");
}

#[test]
fn first_writer_wins() {
    let cands = vec![cand("a", Some("/a")), cand("b", Some("/b"))];
    let mut reg = Registry::new(&cands, false).unwrap();
    reg.record_digest("d0d0".to_string(), "/a".to_string());
    reg.record_digest("d0d0".to_string(), "/b".to_string());
    assert_eq!(reg.entries.len(), 1);
    let found = reg.lookup_by_digest("d0d0").unwrap();
    assert_eq!(found, "/a");
}

#[test]
fn single_read_kinds_are_excluded() {
    let cands = vec![cand("p", Some("/p"))];
    let mut reg = Registry::new(&cands, false).unwrap();
    let bytes = b"stream data".to_vec();
    let path = "/p".to_string();
    reg.record_file(&path, FileKind::Fifo, Some(&bytes));
    reg.record_file(&path, FileKind::Socket, Some(&bytes));
    assert_eq!(reg.entries.len(), 0);
    reg.record_file(&path, FileKind::File, None);
    assert_eq!(reg.entries.len(), 0);
}

#[test]
fn multiread_predicate() {
    assert!(is_multiread_md(&FileKind::File));
    assert!(is_multiread_md(&FileKind::Directory));
    assert!(is_multiread_md(&FileKind::Symlink));
    assert!(is_multiread_md(&FileKind::CharDevice));
    assert!(is_multiread_md(&FileKind::BlockDevice));
    assert!(!is_multiread_md(&FileKind::Fifo));
    assert!(!is_multiread_md(&FileKind::Socket));
}

#[test]
fn empty_input_rejected_in_all_modes() {
    let none: Vec<PathCandidate> = vec![];
    assert!(matches!(Registry::new(&none, false), Err(Error::NoFiles)));
    assert!(matches!(Registry::new(&none, true), Err(Error::NoFiles)));

    let all_bad = vec![cand("gone", None), cand("missing", None)];
    assert!(matches!(Registry::new(&all_bad, false), Err(Error::NoFiles)));
}

#[test]
fn strict_vs_lenient() {
    let cands = vec![cand("ok.txt", Some("/abs/ok.txt")), cand("missing", None)];
    match Registry::new(&cands, true) {
        Err(Error::InvalidFile(p)) => assert_eq!(p, "missing"),
        _ => panic!("strict mode must reject the invalid candidate"),
    }
    let reg = Registry::new(&cands, false).unwrap();
    assert_eq!(reg.pending.len(), 1);
    assert_eq!(reg.pending[0], "/abs/ok.txt");
}

#[test]
fn pop_pending_fifo() {
    let cands = vec![cand("a", Some("/a")), cand("b", Some("/b"))];
    let mut reg = Registry::new(&cands, false).unwrap();
    assert_eq!(reg.pop_pending().unwrap(), "/a");
    assert_eq!(reg.pop_pending().unwrap(), "/b");
    assert!(reg.pop_pending().is_none());
}

#[test]
fn enqueue_appends_valid_paths() {
    let cands = vec![cand("a", Some("/a"))];
    let mut reg = Registry::new(&cands, false).unwrap();
    let more = vec![cand("b", Some("/b")), cand("bad", None), cand("c", Some("/c"))];
    reg.enqueue(&more);
    assert_eq!(reg.pending, vec!["/a", "/b", "/c"]);
}

#[test]
fn query_digest_inverse_lookup() {
    let cands = vec![cand("a", Some("/a"))];
    let mut reg = Registry::new(&cands, false).unwrap();
    let bytes = b"contents".to_vec();
    let path = "/a".to_string();
    reg.record_file(&path, FileKind::File, Some(&bytes));
    let digest = reg.query_digest("/a").unwrap();
    let back = reg.lookup_by_digest(&digest).unwrap();
    assert_eq!(back, "/a");
    assert!(reg.query_digest("/nowhere").is_none());
}
