use create2_vanity::oracle::DeploymentContext;
use create2_vanity::pattern::{CompiledMatcher, PatternKind, PatternSet, PatternSpec};
use create2_vanity::worker::evaluate_candidate;

fn spec(kind: &str, value: &str) -> PatternSpec {
    PatternSpec { kind: kind.to_string(), value: value.to_string() }
}

fn one(kind: &str, value: &str) -> CompiledMatcher {
    match CompiledMatcher::compile(&spec(kind, value)) {
        Ok(m) => m,
        Err(e) => panic!("pattern did not compile: {}", e),
    }
}

#[test]
fn prefix_pattern() {
    let m = one("prefix", "dead");
    assert!(m.is_match("0xdeadbeef00000000000000000000000000000000"));
    assert!(m.is_match("0xDEADbeef00000000000000000000000000000000"));
    assert!(!m.is_match("0x1234dead00000000000000000000000000000000"));
    assert_eq!(m.description(), "starts with dead");
}

#[test]
fn suffix_pattern() {
    let m = one("suffix", "beef");
    assert!(m.is_match("0x000000000000000000000000000000000000beef"));
    assert!(!m.is_match("0xbeef000000000000000000000000000000001234"));
    assert_eq!(m.description(), "ends with beef");
}

#[test]
fn contains_and_regex_patterns() {
    let c = one("contains", "cafe");
    assert!(c.is_match("0x0000cafe00000000000000000000000000000000"));
    assert!(!c.is_match("0x0000caf000000000000000000000000000000000"));
    assert_eq!(c.description(), "contains cafe");
    let r = one("regex", "^0x0{4}");
    assert!(r.is_match("0x0000ab0000000000000000000000000000000000"));
    assert!(!r.is_match("0x000ab00000000000000000000000000000000000"));
    assert_eq!(r.description(), "matches regex ^0x0{4}");
}

#[test]
fn unknown_kind_is_prefix() {
    assert_eq!(PatternKind::from_name("both"), PatternKind::Prefix);
    assert_eq!(PatternKind::from_name("prefix"), PatternKind::Prefix);
    assert_eq!(PatternKind::from_name("suffix"), PatternKind::Suffix);
    assert_eq!(PatternKind::from_name("contains"), PatternKind::Contains);
    assert_eq!(PatternKind::from_name("regex"), PatternKind::Regex);
    let m = one("both", "ab");
    assert!(m.is_match("0xab00"));
    assert!(!m.is_match("0x00ab"));
    assert_eq!(m.description(), "starts with ab");
}

#[test]
fn literal_kinds_always_compile() {
    let m = one("prefix", "de(ad");
    assert!(m.is_match("0xde(ad"));
    assert!(!m.is_match("0xdead"));
}

#[test]
fn invalid_regex_is_reported() {
    let specs = vec![spec("prefix", "aa"), spec("regex", "(dead"), spec("regex", "[")];
    match PatternSet::compile(&specs) {
        Ok(_) => panic!("an unbalanced parenthesis must not compile"),
        Err(e) => {
            assert_eq!(e.index, 1);
            assert_eq!(e.value, "(dead");
            assert!(!e.reason.is_empty());
        }
    }
}

#[test]
fn first_declared_match_wins() {
    let specs = vec![spec("prefix", "de"), spec("contains", "dead"), spec("suffix", "ff")];
    let set = PatternSet::compile(&specs).ok().unwrap();
    assert_eq!(set.len(), 3);
    assert_eq!(set.match_first("0xdead0000000000000000000000000000000000ff"), Some(0));
    assert_eq!(set.match_first("0x00dead00000000000000000000000000000000ff"), Some(1));
    assert_eq!(set.match_first("0x00000000000000000000000000000000000000ff"), Some(2));
    assert_eq!(set.match_first("0x0000000000000000000000000000000000000000"), None);
    assert_eq!(set.description(1), "contains dead");
}

#[test]
fn match_record_names_first_pattern() {
    let ctx = DeploymentContext::new([0x11u8; 20], [0x22u8; 32]);
    let entropy = [1u8, 2, 3, 4, 5, 6, 7, 8, 9, 10, 11];
    // The fixture's address is 0x6b40736f865c6103c9444bb2fa6b47e14846fcda.
    let specs = vec![spec("suffix", "fcda"), spec("prefix", "6b40"), spec("contains", "c944")];
    let set = PatternSet::compile(&specs).ok().unwrap();
    let rec = evaluate_candidate(&ctx, &set, &entropy, 7).unwrap();
    assert_eq!(rec.pattern, "ends with fcda");
    assert_eq!(rec.address, "0x6b40736f865c6103c9444bb2fa6b47e14846fcda");
    assert_eq!(rec.salt, "0x1111111111111111111111111111111111111111000102030405060708090a0b");
    assert_eq!(rec.attempt, 7);
    let later = vec![spec("prefix", "6b40"), spec("suffix", "fcda")];
    let set2 = PatternSet::compile(&later).ok().unwrap();
    assert_eq!(evaluate_candidate(&ctx, &set2, &entropy, 0).unwrap().pattern, "starts with 6b40");
    let none = vec![spec("prefix", "0000")];
    let set3 = PatternSet::compile(&none).ok().unwrap();
    assert!(evaluate_candidate(&ctx, &set3, &entropy, 0).is_none());
}
