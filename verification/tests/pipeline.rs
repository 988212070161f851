use awg_sig_gen::collector::{collect_from_lines, Collector, LineReport};
use awg_sig_gen::decode::{decode_line, DecodeOutcome};
use awg_sig_gen::errors::ConfigError;
use awg_sig_gen::pattern::DomainPattern;
use awg_sig_gen::validate::{evaluate, has_tls_framing, normalize_payload, FilterOutcome,
    RejectReason};

fn ru_pattern() -> DomainPattern {
    DomainPattern::new(r"\.ru$").expect("pattern compiles")
}

fn decode(line: &str) -> awg_sig_gen::decode::DecodedRecord {
    match decode_line(line.as_bytes()) {
        DecodeOutcome::Record(rec) => rec,
        _ => panic!("expected a decoded record"),
    }
}

#[test]
fn scenario_accepted_ru_domain() {
    let rec = decode("example.ru|1603010002010");
    assert_eq!(rec.sni, b"example.ru".to_vec());
    assert_eq!(rec.payload_hex, b"1603010002010".to_vec());
    match evaluate(&ru_pattern(), &rec) {
        FilterOutcome::Accepted(sig) => assert_eq!(sig, b"<b 0x1603010002010>".to_vec()),
        FilterOutcome::Rejected(reason) => panic!("unexpected rejection: {:?}", reason),
    }
}

#[test]
fn scenario_domain_mismatch() {
    let rec = decode("example.com|16030100");
    match evaluate(&ru_pattern(), &rec) {
        FilterOutcome::Rejected(reason) => assert_eq!(reason, RejectReason::DomainMismatch),
        FilterOutcome::Accepted(_) => panic!("must not accept a non-matching domain"),
    }
}

#[test]
fn scenario_non_hex_payload_is_empty() {
    let rec = decode("example.ru|zz");
    match evaluate(&ru_pattern(), &rec) {
        FilterOutcome::Rejected(reason) => assert_eq!(reason, RejectReason::EmptyPayload),
        FilterOutcome::Accepted(_) => panic!("must not accept an all-non-hex payload"),
    }
}

#[test]
fn scenario_wrong_framing_prefix() {
    let rec = decode("example.ru|aa1603");
    match evaluate(&ru_pattern(), &rec) {
        FilterOutcome::Rejected(reason) => assert_eq!(reason, RejectReason::InvalidFraming),
        FilterOutcome::Accepted(_) => panic!("must not accept a payload without the 1603 prefix"),
    }
}

#[test]
fn empty_payload_rejected() {
    let rec = decode("example.ru|");
    match evaluate(&ru_pattern(), &rec) {
        FilterOutcome::Rejected(reason) => assert_eq!(reason, RejectReason::EmptyPayload),
        FilterOutcome::Accepted(_) => panic!("must not accept an empty payload"),
    }
}

#[test]
fn payload_is_normalized_and_lowercased() {
    let rec = decode("example.ru|16:03:01AA");
    match evaluate(&ru_pattern(), &rec) {
        FilterOutcome::Accepted(sig) => assert_eq!(sig, b"<b 0x160301aa>".to_vec()),
        FilterOutcome::Rejected(reason) => panic!("unexpected rejection: {:?}", reason),
    }
}

#[test]
fn split_is_on_first_separator_only() {
    let rec = decode("a.ru|16|03");
    assert_eq!(rec.sni, b"a.ru".to_vec());
    assert_eq!(rec.payload_hex, b"16|03".to_vec());
    match evaluate(&ru_pattern(), &rec) {
        FilterOutcome::Accepted(sig) => assert_eq!(sig, b"<b 0x1603>".to_vec()),
        FilterOutcome::Rejected(reason) => panic!("unexpected rejection: {:?}", reason),
    }
}

#[test]
fn blank_and_malformed_lines_yield_no_record() {
    assert!(matches!(decode_line(b""), DecodeOutcome::Blank));
    assert!(matches!(decode_line(b"no separator here"), DecodeOutcome::Malformed));
}

#[test]
fn normalize_strips_and_lowercases() {
    assert_eq!(normalize_payload(b"16:03:01:AB"), b"160301ab".to_vec());
    assert_eq!(normalize_payload(b"zz--!!"), Vec::<u8>::new());
    assert_eq!(normalize_payload(b""), Vec::<u8>::new());
}

#[test]
fn framing_check_needs_1603_prefix() {
    assert!(has_tls_framing(b"1603"));
    assert!(has_tls_framing(b"16030100"));
    assert!(!has_tls_framing(b"160"));
    assert!(!has_tls_framing(b"aa1603"));
}

#[test]
fn invalid_pattern_is_rejected() {
    match DomainPattern::new("(") {
        Err(e) => assert_eq!(e, ConfigError::InvalidPattern),
        Ok(_) => panic!("an unclosed group must not compile"),
    }
}

#[test]
fn pattern_matches_unanchored() {
    let p = DomainPattern::new("ru").expect("pattern compiles");
    assert!(p.is_match(b"example.rug.com"));
    assert!(!p.is_match(b"example.net"));
}

#[test]
fn zero_target_rejected_at_construction() {
    match Collector::new(0) {
        Err(e) => assert_eq!(e, ConfigError::ZeroTarget),
        Ok(_) => panic!("a zero target must be rejected"),
    }
}

#[test]
fn scenario_early_stop_at_target() {
    let lines: Vec<Vec<u8>> = vec![
        b"one.ru|160301aa".to_vec(),
        b"two.ru|160301bb".to_vec(),
        b"three.ru|160301cc".to_vec(),
    ];
    let (sigs, consumed) = collect_from_lines(&ru_pattern(), 2, &lines).expect("positive target");
    assert_eq!(
        sigs,
        vec![b"<b 0x160301aa>".to_vec(), b"<b 0x160301bb>".to_vec()],
    );
    assert_eq!(consumed, 2);
}

#[test]
fn scenario_no_matching_lines_is_empty_result() {
    let lines: Vec<Vec<u8>> = vec![
        b"example.com|160301aa".to_vec(),
        b"".to_vec(),
        b"malformed".to_vec(),
    ];
    let (sigs, consumed) = collect_from_lines(&ru_pattern(), 2, &lines).expect("positive target");
    assert!(sigs.is_empty());
    assert_eq!(consumed, 3);

    let (sigs, consumed) =
        collect_from_lines(&ru_pattern(), 2, &Vec::new()).expect("positive target");
    assert!(sigs.is_empty());
    assert_eq!(consumed, 0);
}

#[test]
fn never_more_signatures_than_lines() {
    let lines: Vec<Vec<u8>> = vec![
        b"one.ru|160301aa".to_vec(),
        b"junk".to_vec(),
        b"two.ru|zz".to_vec(),
        b"two.ru|160301bb".to_vec(),
    ];
    let (sigs, consumed) = collect_from_lines(&ru_pattern(), 10, &lines).expect("positive target");
    assert!(sigs.len() <= lines.len());
    assert_eq!(consumed, 4);
    assert_eq!(
        sigs,
        vec![b"<b 0x160301aa>".to_vec(), b"<b 0x160301bb>".to_vec()],
    );
}

#[test]
fn collector_reports_each_line() {
    let pattern = ru_pattern();
    let mut collector = Collector::new(1).expect("positive target");
    assert_eq!(collector.offer_line(&pattern, b""), LineReport::SkippedBlank);
    assert_eq!(collector.offer_line(&pattern, b"junk"), LineReport::SkippedMalformed);
    assert_eq!(
        collector.offer_line(&pattern, b"a.com|160301aa"),
        LineReport::Rejected(RejectReason::DomainMismatch),
    );
    assert_eq!(collector.offer_line(&pattern, b"a.ru|160301aa"), LineReport::Accepted);
    assert!(collector.is_full());
    assert_eq!(collector.count(), 1);
    assert_eq!(collector.offer_line(&pattern, b"b.ru|160301bb"), LineReport::TargetReached);
    assert_eq!(collector.into_signatures(), vec![b"<b 0x160301aa>".to_vec()]);
}
