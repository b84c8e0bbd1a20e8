use create2_vanity::config::{parse_deployer, resolve_code_hash, ConfigError};
use create2_vanity::oracle::{create_x_factory, init_code_hash, DeploymentContext};
use create2_vanity::text::prefixed_hex;

fn hex_bytes(s: &str) -> Vec<u8> {
    (0..s.len() / 2).map(|i| u8::from_str_radix(&s[2 * i..2 * i + 2], 16).unwrap()).collect()
}

fn fixture() -> DeploymentContext {
    DeploymentContext::new([0x11u8; 20], [0x22u8; 32])
}

fn entropy() -> [u8; 11] {
    [1, 2, 3, 4, 5, 6, 7, 8, 9, 10, 11]
}

#[test]
fn guarded_salt_layout() {
    let ctx = fixture();
    let salt = ctx.generate_guarded_salt(&entropy());
    assert_eq!(&salt[0..20], &[0x11u8; 20]);
    assert_eq!(salt[20], 0);
    assert_eq!(&salt[21..32], &entropy());
}

#[test]
fn guarding_transform_hashes_owned_salt() {
    let ctx = fixture();
    let salt = ctx.generate_guarded_salt(&entropy());
    let eff = ctx.calculate_create_x_salt(&salt);
    assert_eq!(eff.to_vec(), hex_bytes("1fff88a18f922a497c2edc9edb8d96c7cd53e919daed725647f2d9947a352c5a"));
}

#[test]
fn guarding_transform_keeps_other_salts() {
    let ctx = fixture();
    let mut salt = ctx.generate_guarded_salt(&entropy());
    salt[20] = 1;
    assert_eq!(ctx.calculate_create_x_salt(&salt), salt);
    let mut foreign = ctx.generate_guarded_salt(&entropy());
    foreign[0] = 0x12;
    assert_eq!(ctx.calculate_create_x_salt(&foreign), foreign);
}

#[test]
fn derived_address_fixture() {
    let ctx = fixture();
    let salt = ctx.generate_guarded_salt(&entropy());
    let addr = ctx.compute_create2_address(&salt);
    assert_eq!(addr.to_vec(), hex_bytes("6b40736f865c6103c9444bb2fa6b47e14846fcda"));
}

#[test]
fn derived_address_unguarded_fixture() {
    let ctx = fixture();
    let mut salt = ctx.generate_guarded_salt(&entropy());
    salt[20] = 1;
    let addr = ctx.compute_create2_address(&salt);
    assert_eq!(addr.to_vec(), hex_bytes("2ec961d607f85f70c8ebfa450da02b422e0a15d2"));
}

#[test]
fn derivation_is_deterministic() {
    let ctx = fixture();
    let salt = ctx.generate_guarded_salt(&[0xab; 11]);
    let a = ctx.compute_create2_address(&salt);
    let b = ctx.compute_create2_address(&salt);
    assert_eq!(a, b);
    let other = DeploymentContext::new([0x11u8; 20], [0x22u8; 32]);
    assert_eq!(other.compute_create2_address(&salt), a);
}

#[test]
fn factory_constant() {
    assert_eq!(create_x_factory().to_vec(), hex_bytes("ba5ed099633d3b313e4d5f7bdc1305d3c28ba5ed"));
    assert_eq!(fixture().factory, create_x_factory());
}

#[test]
fn code_hash_of_bytecode() {
    let h = init_code_hash(&vec![0x60, 0x01]);
    assert_eq!(h.to_vec(), hex_bytes("309c67890bde4c575dc23d2cc3b5c3a3d599e312e980e9b61b5bc8f3cd87c8bb"));
}

#[test]
fn prefixed_hex_text() {
    assert_eq!(prefixed_hex(&[0x00, 0xab, 0x10]), "0x00ab10");
    assert_eq!(prefixed_hex(&[]), "0x");
}

#[test]
fn deployer_parsing() {
    let a = parse_deployer("0x1111111111111111111111111111111111111111").unwrap();
    assert_eq!(a, [0x11u8; 20]);
    let b = parse_deployer("BA5ED099633D3B313E4D5F7BDC1305D3C28BA5ED").unwrap();
    assert_eq!(b, create_x_factory());
    assert_eq!(parse_deployer("0x1234"), Err(ConfigError::InvalidDeployer));
    assert_eq!(parse_deployer("0xzz11111111111111111111111111111111111111"), Err(ConfigError::InvalidDeployer));
}

#[test]
fn code_hash_resolution() {
    let given = "0x2222222222222222222222222222222222222222222222222222222222222222";
    assert_eq!(resolve_code_hash(given, "zz"), Ok([0x22u8; 32]));
    assert_eq!(resolve_code_hash("0x22", "6001"), Err(ConfigError::InvalidCodeHash));
    let h = resolve_code_hash("", "0x6001").unwrap();
    assert_eq!(h.to_vec(), hex_bytes("309c67890bde4c575dc23d2cc3b5c3a3d599e312e980e9b61b5bc8f3cd87c8bb"));
    assert_eq!(resolve_code_hash("", "0x6g"), Err(ConfigError::InvalidBytecode));
}
