use tripwired::audit::AuditTrail;
use tripwired::audit::ModelFingerprint;
use tripwired::audit::now_ms;
use tripwired::audit::sha256_hex;

#[test]
fn test_model_fingerprint() {
    let fp = ModelFingerprint::new("llama-3.2", "http://localhost:1234/v1", 30, 0);
    assert!(fp.fingerprint().starts_with("llama-3.2@"));
    // a full SHA-256 digest in hex
    assert_eq!(fp.config_hash.len(), 64);
}

#[test]
fn test_audit_trail() {
    let fp = ModelFingerprint::new("test-model", "http://localhost", 30, 0);
    let (mut trail, header) = AuditTrail::new(fp, "test prompt", 1_000);

    let (r1, l1) = trail.record("test log", "KILL", 90, false, 100, None, 1_001);
    let (r2, l2) = trail.record("safe log", "SUSTAIN", 100, true, 0, None, 1_002);

    let lines = vec![header, l1, l2];
    assert_eq!(lines.len(), 3); // header + 2 records
    assert!(lines.iter().all(|l| !l.is_empty() && !l.contains('\n')));
    assert_eq!(r1.id, 1);
    assert_eq!(r2.id, 2);
}

#[test]
fn test_content_hash_is_pure() {
    let a = sha256_hex("same text");
    let b = sha256_hex("same text");
    assert_eq!(a, b);
    assert_eq!(a.len(), 64);
    assert!(a.chars().all(|c| c.is_ascii_hexdigit()));
    let c = sha256_hex("other text");
    assert_ne!(a, c, "distinct texts should fingerprint apart");
}

#[test]
fn test_content_hash_known_digests() {
    // published SHA-256 test vectors
    assert_eq!(
        sha256_hex(""),
        "e3b0c44298fc1c149afbf4c8996fb92427ae41e4649b934ca495991b7852b855"
    );
    assert_eq!(
        sha256_hex("abc"),
        "ba7816bf8f01cfea414140de5dae2223b00361a396177a9cb410ff61f20015ad"
    );
}

#[test]
fn test_record_ids_count_up_from_one() {
    let fp = ModelFingerprint::new("m", "u", 30, 0);
    let (mut trail, _header) = AuditTrail::new(fp, "p", 5);
    assert_eq!(trail.next_id(), 1);
    for expected in 1u64..=5 {
        let (rec, _line) = trail.record("line", "SUSTAIN", 100, true, 1, None, 6);
        assert_eq!(rec.id, expected);
    }
    assert_eq!(trail.next_id(), 6);
}

#[test]
fn test_header_line_shape() {
    let fp = ModelFingerprint::new("test-model", "http://localhost", 30, 0);
    let hash = fp.config_hash.clone();
    let (_trail, header) = AuditTrail::new(fp, "test prompt", 1234);
    assert!(header.starts_with("{\"version\":\"1.0.0\",\"created_at\":1234,"));
    assert!(header.contains("\"model_fingerprint\":{\"model_name\":\"test-model\""));
    assert!(header.contains("\"llm_url\":\"http://localhost\""));
    assert!(header.contains("\"max_tokens\":30"));
    assert!(header.contains("\"temperature\":0.0"));
    assert!(header.contains(&format!("\"config_hash\":\"{}\"", hash)));
    let prompt_hash = sha256_hex("test prompt");
    assert!(header.ends_with(&format!("\"prompt_hash\":\"{}\"}}", prompt_hash)));
}

#[test]
fn test_record_line_shape() {
    let fp = ModelFingerprint::new("test-model", "http://localhost", 30, 0);
    let short = fp.fingerprint();
    let (mut trail, _header) = AuditTrail::new(fp, "test prompt", 1);
    let (rec, line) = trail.record("rm -rf /", "KILL", 90, false, 17, Some("{\"action\":\"KILL\"}".to_string()), 99);
    assert!(line.starts_with("{\"id\":1,\"timestamp_ms\":99,\"input_log\":\"rm -rf /\","));
    assert!(line.contains(&format!("\"input_hash\":\"{}\"", sha256_hex("rm -rf /"))));
    assert!(line.contains("\"action\":\"KILL\",\"confidence\":90,\"filtered\":false,\"latency_ms\":17,"));
    assert!(line.contains(&format!("\"model_fingerprint\":\"{}\"", short)));
    assert!(line.ends_with("\"raw_response\":\"{\\\"action\\\":\\\"KILL\\\"}\"}"));
    assert_eq!(rec.input_hash, sha256_hex("rm -rf /"));
    assert_eq!(&rec.prompt_hash, &sha256_hex("test prompt")[..8]);
}

#[test]
fn test_record_line_null_raw_response() {
    let fp = ModelFingerprint::new("m", "u", 30, 0);
    let (mut trail, _header) = AuditTrail::new(fp, "p", 1);
    let (_rec, line) = trail.record("ok", "SUSTAIN", 100, true, 3, None, 2);
    assert!(line.ends_with("\"raw_response\":null}"));
    assert!(line.contains("\"filtered\":true"));
}

#[test]
fn test_record_line_escapes_input() {
    let fp = ModelFingerprint::new("m", "u", 30, 0);
    let (mut trail, _header) = AuditTrail::new(fp, "p", 1);
    let (_rec, line) = trail.record("say \"hi\"\\\n", "SUSTAIN", 100, true, 3, None, 2);
    assert!(line.contains("\"input_log\":\"say \\\"hi\\\"\\\\\\n\""));
    // the escaped line stays a single ledger line
    assert!(!line.contains('\n'));
}

#[test]
fn test_fingerprint_depends_on_config() {
    let a = ModelFingerprint::new("m", "u", 30, 0);
    let b = ModelFingerprint::new("m", "u", 31, 0);
    assert_ne!(a.config_hash, b.config_hash);
    let c = ModelFingerprint::new("m", "u", 30, 0);
    assert_eq!(a.config_hash, c.config_hash);
}

#[test]
fn test_now_ms_is_plausible() {
    let t = now_ms();
    // after 2020-01-01 in milliseconds
    assert!(t > 1_577_836_800_000);
}
