use aegis::analysis::sandbox::{sandbox_flagged, sandbox_outcome, sandbox_summary_text};
use aegis::analysis::keystroke::keystroke_outcome;
use sha2::Digest;
use aegis::analysis::honey_token::{extract_token_id, generate_honey_token, generate_token_content};
use aegis::analysis::threat_intel::{ThreatFeed, ThreatIntelSync};
use aegis::analysis::yara_engine::{is_rule_file_extension, yara_report, RuleMatch, YaraEngine};
use aegis::client::{
    action_message, audit_entries, check_reply, config_json, config_update_outcome,
    daemon_socket_path, device_list, pong_status,
};
use aegis::device::DeviceStatus;
use aegis::ipc::DaemonResponse;

const NAMES: [&str; 6] = [
    ".DS_Store",
    "Thumbs.db",
    "desktop.ini",
    ".directory",
    "~$Document.tmp",
    ".metadata_never_index",
];

fn v4_id(seed: u128) -> u128 {
    // Version 4 and RFC variant bits set, as `Uuid::new_v4` produces.
    let id = uuid::Builder::from_random_bytes(seed.to_be_bytes()).into_uuid();
    id.as_u128()
}

#[test]
fn test_generate_and_verify_token() {
    let session_id = uuid::Uuid::new_v4().as_u128();
    let passport = "abc123def456";

    let (filename, content, info) = generate_honey_token(session_id, passport);

    assert!(!filename.is_empty());
    assert!(!content.is_empty());
    assert_eq!(info.device_session_id, session_id);
    assert_eq!(info.device_passport, passport);

    let extracted = extract_token_id(&content);
    assert!(
        extracted.is_some(),
        "Should be able to extract token from content"
    );
    assert_eq!(extracted.unwrap(), info.token_id);
}

#[test]
fn test_no_false_positive() {
    let normal_content = b"This is a totally normal file with no tokens.";
    assert!(extract_token_id(normal_content).is_none());
}

#[test]
fn test_different_devices_different_tokens() {
    let (_, _, info1) = generate_honey_token(uuid::Uuid::new_v4().as_u128(), "pass1");
    let (_, _, info2) = generate_honey_token(uuid::Uuid::new_v4().as_u128(), "pass2");
    assert_ne!(info1.token_id, info2.token_id);
}

#[test]
fn token_record_matches_file() {
    for _ in 0..20 {
        let (filename, content, info) = generate_honey_token(7, "pp");
        let first_byte = (info.token_id >> 120) as usize;
        assert_eq!(filename, NAMES[first_byte % 6]);
        assert_eq!(info.filename, filename);
        assert_eq!(info.content_hash, hex::encode(sha2::Sha256::digest(&content)));
        assert_eq!(uuid::Uuid::from_u128(info.token_id).get_version_num(), 4);
        assert_eq!(extract_token_id(&content), Some(info.token_id));
        assert!(info.planted_at > 0);
    }
}

#[test]
fn desktop_ini_token_text() {
    let id = v4_id(0x1234_5678_9abc_def0_0fed_cba9_8765_4321);
    let text = uuid::Uuid::from_u128(id).to_string();
    let content = generate_token_content(id, "desktop.ini");
    let expected = format!(
        "[.ShellClassInfo]\nIconResource=C:\\Windows\\System32\\SHELL32.dll,4\n[ViewState]\nMode=\nVid=\n; AEGIS-TK:{text}\n"
    );
    assert_eq!(content, expected.into_bytes());
    assert_eq!(extract_token_id(&content), Some(id));
}

#[test]
fn directory_token_text() {
    let id = v4_id(42);
    let text = uuid::Uuid::from_u128(id).to_string();
    let content = generate_token_content(id, ".directory");
    let expected = format!("[Desktop Entry]\nIcon=folder\nComment=AEGIS-TK:{text}\n");
    assert_eq!(content, expected.into_bytes());
    assert_eq!(extract_token_id(&content), Some(id));
}

#[test]
fn binary_token_layout() {
    let id = v4_id(0xffff_0000_ffff_0000_ffff_0000_ffff_0000);
    for name in [".DS_Store", "Thumbs.db", "~$Document.tmp", ".metadata_never_index", "other"] {
        let content = generate_token_content(id, name);
        assert_eq!(content.len(), 100);
        assert_eq!(&content[0..4], &[0x00, 0x01, 0x00, 0x00]);
        assert!(content[4..36].iter().all(|b| *b == 0x20));
        assert_eq!(&content[36..52], &id.to_be_bytes());
        assert!(content[52..].iter().all(|b| *b == 0));
        assert_eq!(extract_token_id(&content), Some(id));
    }
}

#[test]
fn binary_token_nil_is_ignored() {
    let mut content = vec![0x00, 0x01, 0x00, 0x00];
    content.extend_from_slice(&[0x20; 32]);
    content.extend_from_slice(&[0x00; 16]);
    content.extend_from_slice(&[0x00; 48]);
    assert_eq!(extract_token_id(&content), None);
    // Shorter than 52 bytes: nothing to read.
    assert_eq!(extract_token_id(&content[..51]), None);
}

#[test]
fn text_token_trimmed_and_cut_at_36_bytes() {
    let id = v4_id(99);
    let text = uuid::Uuid::from_u128(id).to_string();
    let content = format!("notes\n AEGIS-TK: \t {text}and more text\n");
    assert_eq!(extract_token_id(content.as_bytes()), Some(id));
    // Only the first marker counts.
    let other = v4_id(100);
    let two = format!(
        "AEGIS-TK:{text}\nAEGIS-TK:{}\n",
        uuid::Uuid::from_u128(other)
    );
    assert_eq!(extract_token_id(two.as_bytes()), Some(id));
}

#[test]
fn text_token_unparsable_falls_back_to_binary() {
    // A marker followed by 36 bytes that are not a UUID: no text token, and
    // the content is too short for the binary form.
    let content = "AEGIS-TK:this-is-definitely-not-a-uuid-at-all!!";
    assert_eq!(extract_token_id(content.as_bytes()), None);
    // Too few bytes after the marker.
    assert_eq!(extract_token_id(b"AEGIS-TK:1234"), None);
    // The simple (unhyphenated) form is 32 characters and would need the
    // next 4 bytes too, so it is read together with them.
    let id = v4_id(5);
    let simple = uuid::Uuid::from_u128(id).simple().to_string();
    let padded = format!("AEGIS-TK:{{{}}}\n", uuid::Uuid::from_u128(id).hyphenated());
    assert_eq!(extract_token_id(padded.as_bytes()), None);
    let with_tail = format!("AEGIS-TK:{simple}abcd");
    assert_eq!(extract_token_id(with_tail.as_bytes()), None);
}

#[test]
fn invalid_utf8_skips_text_form() {
    let id = v4_id(7);
    let text = uuid::Uuid::from_u128(id).to_string();
    let mut content = format!("AEGIS-TK:{text}").into_bytes();
    content.push(0xff);
    assert_eq!(extract_token_id(&content), None);
}


#[test]
fn yara_rules_compile_and_match() {
    let sources = vec![
        "rule evil_marker { strings: $a = \"EVIL-PAYLOAD\" condition: $a }".to_string(),
        "this is not a rule".to_string(),
    ];
    let (engine, accepted) = YaraEngine::new(&sources);
    assert_eq!(accepted, vec![true, false]);

    let hit = engine.scan_buffer("payload.bin", b"xx EVIL-PAYLOAD xx");
    assert!(hit.flagged);
    assert_eq!(hit.severity, 8);
    assert_eq!(hit.matches.len(), 1);
    assert_eq!(hit.matches[0].rule, "evil_marker");
    assert_eq!(hit.matches[0].namespace, "default");
    assert_eq!(hit.summary, "🚨 1 YARA signature(s) matched in 'payload.bin'");

    let clean = engine.scan_buffer("readme.txt", b"nothing to see");
    assert!(!clean.flagged);
    assert_eq!(clean.severity, 0);
    assert!(clean.matches.is_empty());
    assert_eq!(clean.summary, "✅ No YARA signatures matched in 'readme.txt'");
}

#[test]
fn yara_without_rules_never_matches() {
    let (engine, accepted) = YaraEngine::new(&Vec::new());
    assert!(accepted.is_empty());
    let r = engine.scan_buffer("a", b"anything at all");
    assert!(!r.flagged);
    let (engine, accepted) = YaraEngine::new(&vec!["rule {".to_string()]);
    assert_eq!(accepted, vec![false]);
    assert!(!engine.scan_buffer("b", b"rule {").flagged);
}

#[test]
fn yara_report_summaries() {
    let m = |r: &str| RuleMatch { rule: r.to_string(), namespace: "default".to_string() };
    let r = yara_report("f.exe", vec![m("a"), m("b"), m("c")]);
    assert!(r.flagged);
    assert_eq!(r.severity, 8);
    assert_eq!(r.summary, "🚨 3 YARA signature(s) matched in 'f.exe'");
    let r = yara_report("", Vec::new());
    assert_eq!(r.summary, "✅ No YARA signatures matched in ''");
    assert!(is_rule_file_extension("yar"));
    assert!(is_rule_file_extension("yara"));
    assert!(!is_rule_file_extension("YAR"));
    assert!(!is_rule_file_extension("txt"));
}

fn feed(name: &str, enabled: bool) -> ThreatFeed {
    ThreatFeed {
        name: name.to_string(),
        url: format!("https://{name}.example"),
        api_key: None,
        enabled,
        last_sync: Some(5),
        sync_interval_secs: 60,
    }
}

#[test]
fn threat_feeds_default_and_sync() {
    let mut sync = ThreatIntelSync::new();
    let feeds = sync.get_feed_status();
    assert_eq!(feeds.len(), 2);
    assert_eq!(feeds[0].name, "MISP Community");
    assert_eq!(feeds[0].sync_interval_secs, 3600);
    assert_eq!(feeds[1].name, "Abuse.ch MalwareBazaar");
    assert_eq!(feeds[1].url, "https://bazaar.abuse.ch/export/txt/yara/full/");
    assert!(feeds.iter().all(|f| !f.enabled && f.last_sync.is_none()));
    assert!(sync.sync_all().is_empty());

    let mut sync = ThreatIntelSync::with_feeds(vec![feed("a", true), feed("b", false), feed("c", true)]);
    let results = sync.sync_all_at(1_000);
    let names: Vec<&str> = results.iter().map(|r| r.feed_name.as_str()).collect();
    assert_eq!(names, vec!["a", "c"]);
    assert!(results.iter().all(|r| r.success && r.new_rules_count == 0 && r.errors.is_empty() && r.timestamp == 1_000));
    let status = sync.get_feed_status();
    assert_eq!(status[0].last_sync, Some(1_000));
    assert_eq!(status[1].last_sync, Some(5));
    assert_eq!(status[2].last_sync, Some(1_000));
}

#[test]
fn client_socket_path_and_replies() {
    assert_eq!(daemon_socket_path(None, None), "/tmp/aegis.sock");
    assert_eq!(daemon_socket_path(Some("/a".into()), Some("/b".into())), "/a");
    assert_eq!(daemon_socket_path(None, Some("/b".into())), "/b");

    let err = DaemonResponse::Error { code: 403, message: "Permission denied".into() };
    assert_eq!(check_reply(err).err().unwrap(), "Daemon Error [403]: Permission denied");
    assert!(check_reply(DaemonResponse::ShuttingDown).is_ok());

    let act = DaemonResponse::DeviceActionResult {
        session_id: 1,
        new_status: DeviceStatus::Authorized,
        message: "Device authorized".into(),
    };
    assert_eq!(action_message(act).unwrap(), "Device authorized");
    assert_eq!(
        action_message(DaemonResponse::ShuttingDown).err().unwrap(),
        "Invalid response type from daemon"
    );
    let pong = DaemonResponse::Pong { version: "0.1.0".into(), uptime_secs: 9 };
    assert_eq!(pong_status(pong).unwrap(), ("0.1.0".to_string(), 9));
    assert!(device_list(DaemonResponse::DeviceList { devices: Vec::new() }).unwrap().is_empty());
    let logs = DaemonResponse::AuditLogEntries { entries: vec!["{}".into()], total_count: 1 };
    assert_eq!(audit_entries(logs).unwrap(), vec!["{}".to_string()]);
    assert_eq!(config_json(DaemonResponse::Config { config_json: "{}".into() }).unwrap(), "{}");
    assert_eq!(
        config_update_outcome(DaemonResponse::Config { config_json: "x".into() }).unwrap(),
        "Config updated"
    );
    assert_eq!(
        config_update_outcome(DaemonResponse::Error { code: 1, message: "bad".into() }).err().unwrap(),
        "bad"
    );
}

#[test]
fn sandbox_verdict() {
    let elf = "/tmp/x: ELF 64-bit LSB pie executable, x86-64, dynamically linked";
    assert!(sandbox_flagged(elf, 1001));
    assert!(!sandbox_flagged(elf, 1000));
    assert!(sandbox_flagged("PE32 EXECUTABLE (GUI)", 5000));
    assert!(sandbox_flagged("Executable", 5000));
    assert!(!sandbox_flagged("ASCII text", 5000));
    assert!(!sandbox_flagged("executabl", 5000));
    assert!(!sandbox_flagged("", 5000));
    assert_eq!(
        sandbox_summary_text("a.exe", true),
        "Suspicious executable behavior detected dynamically for a.exe"
    );
    assert_eq!(sandbox_summary_text("a.txt", false), "Sandbox execution clean for a.txt");
}

#[test]
fn text_token_cut_inside_a_character_is_no_token() {
    // After the marker, byte 36 falls inside the two-byte 'é'.
    let content = format!("AEGIS-TK:{}é", "a".repeat(35));
    assert_eq!(extract_token_id(content.as_bytes()), None);
    let content = format!("AEGIS-TK: {}é ", "b".repeat(35));
    assert_eq!(extract_token_id(content.as_bytes()), None);
}

#[test]
fn yara_sources_compile_in_order() {
    let sources = vec![
        "rule a { condition: true }".to_string(),
        "rule a { condition: true }".to_string(),
        "rule b { condition: true }".to_string(),
    ];
    let (engine, accepted) = YaraEngine::new(&sources);
    assert_eq!(accepted, vec![true, false, true]);
    let r = engine.scan_buffer("f", b"x");
    let rules: Vec<&str> = r.matches.iter().map(|m| m.rule.as_str()).collect();
    assert_eq!(rules, vec!["a", "b"]);
}

#[test]
fn keystroke_and_sandbox_outcomes() {
    assert_eq!(keystroke_outcome(5, 10, 4, 4, true), (false, 0));
    assert_eq!(keystroke_outcome(20, 10, 0, 0, true), (false, 0));
    assert_eq!(keystroke_outcome(20, 10, 19, 19, true), (true, 9));
    assert_eq!(keystroke_outcome(20, 10, 19, 10, false), (true, 7));
    assert_eq!(keystroke_outcome(20, 10, 19, 9, true), (true, 6));
    assert_eq!(keystroke_outcome(20, 10, 19, 9, false), (false, 0));
    assert_eq!(sandbox_outcome(Some("ELF executable"), 2000), (true, 8));
    assert_eq!(sandbox_outcome(Some("ELF executable"), 10), (false, 0));
    assert_eq!(sandbox_outcome(None, 2000), (false, 0));
}

#[test]
fn yara_include_statements_are_refused() {
    let (_, accepted) = YaraEngine::new(&vec!["include \"other.yar\"\nrule a { condition: true }".to_string()]);
    assert_eq!(accepted, vec![false]);
}
