use config::{Config, File, FileFormat};
use validium_proxy::auth::JwtSignerKeyConfig;
use validium_proxy::config::{
    default_bind_address, default_validium_url, is_http_url, starts_with, AppConfig, ConfigError,
};

fn optional(cfg: &Config, key: &str) -> Option<String> {
    cfg.get_string(key).ok()
}

fn parse(toml: &str) -> AppConfig {
    let cfg = Config::builder()
        .add_source(File::from_str(toml, FileFormat::Toml))
        .build()
        .unwrap();
    let admin_keys = cfg
        .get_array("admin_keys")
        .unwrap()
        .into_iter()
        .map(|v| v.into_string().unwrap())
        .collect();
    let jwt_signer_keys = cfg
        .get_array("jwt_signer_keys")
        .unwrap()
        .into_iter()
        .map(|v| {
            let table = v.into_table().unwrap();
            JwtSignerKeyConfig {
                kid: table["kid"].clone().into_string().unwrap(),
                secret: table["secret"].clone().into_string().unwrap(),
            }
        })
        .collect();
    AppConfig::from_parts(
        optional(&cfg, "bind_address"),
        optional(&cfg, "validium_url"),
        cfg.get_string("withdraw_proofs_url").unwrap(),
        admin_keys,
        cfg.get_int("jwt_expiry_secs").unwrap() as usize,
        cfg.get_string("default_kid").unwrap(),
        jwt_signer_keys,
    )
}

#[test]
fn test_app_config_parse_from_toml() {
    // Example TOML configuration string
    let toml = r#"
            bind_address = "127.0.0.1:12345"
            validium_url = "http://example.com:8545"
            withdraw_proofs_url = "http://example.com:8546"
            admin_keys = [
              "admin-token-1-abcdefg",
              "admin-token-2-hijklmn"
            ]
            jwt_expiry_secs = 3600
            default_kid = "key-2025-07"

            jwt_signer_keys = [
              { kid = "key-2025-07", secret = "supersecret1" },
              { kid = "key-2025-06", secret = "supersecret2" }
            ]
        "#;

    // Parse config from string
    let cfg: AppConfig = parse(toml);

    // Check values
    assert_eq!(cfg.bind_address, "127.0.0.1:12345");
    assert_eq!(cfg.validium_url, "http://example.com:8545");
    assert_eq!(cfg.withdraw_proofs_url, "http://example.com:8546");
    assert_eq!(
        cfg.admin_keys,
        vec![
            "admin-token-1-abcdefg".to_string(),
            "admin-token-2-hijklmn".to_string()
        ]
    );
    assert_eq!(cfg.jwt_expiry_secs, 3600);
    assert_eq!(cfg.default_kid, "key-2025-07".to_string());
    assert_eq!(cfg.jwt_signer_keys.len(), 2);
    assert_eq!(cfg.jwt_signer_keys[0].kid, "key-2025-07");
    assert_eq!(cfg.jwt_signer_keys[0].secret, "supersecret1");
    assert_eq!(cfg.jwt_signer_keys[1].kid, "key-2025-06");
    assert_eq!(cfg.jwt_signer_keys[1].secret, "supersecret2");
}

#[test]
fn config_defaults_fill_what_the_file_leaves_out() {
    let toml = r#"
            withdraw_proofs_url = "http://example.com:8546"
            admin_keys = []
            jwt_expiry_secs = 60
            default_kid = "k"
            jwt_signer_keys = [ { kid = "k", secret = "s" } ]
        "#;
    let cfg = parse(toml);
    assert_eq!(cfg.bind_address, "0.0.0.0:8080");
    assert_eq!(cfg.validium_url, "http://validium-sequencer:8545");
    assert_eq!(default_bind_address(), "0.0.0.0:8080");
    assert_eq!(default_validium_url(), "http://validium-sequencer:8545");
    assert!(cfg.admin_keys.is_empty());
}

fn sample() -> AppConfig {
    AppConfig::from_parts(
        None,
        None,
        "https://proofs:8545".to_string(),
        vec![],
        3600,
        "k".to_string(),
        vec![],
    )
}

#[test]
fn command_line_overrides_replace_addresses() {
    let mut cfg = sample();
    cfg.apply_overrides(Some("127.0.0.1:1".to_string()), None, Some("http://p".to_string()));
    assert_eq!(cfg.bind_address, "127.0.0.1:1");
    assert_eq!(cfg.validium_url, "http://validium-sequencer:8545");
    assert_eq!(cfg.withdraw_proofs_url, "http://p");
    assert_eq!(cfg.jwt_expiry_secs, 3600);
    cfg.apply_overrides(None, Some("https://seq".to_string()), None);
    assert_eq!(cfg.bind_address, "127.0.0.1:1");
    assert_eq!(cfg.validium_url, "https://seq");
    assert_eq!(cfg.withdraw_proofs_url, "http://p");
}

#[test]
fn urls_must_be_http_or_https() {
    let mut cfg = sample();
    assert!(cfg.validate_urls().is_ok());

    cfg.validium_url = "ftp://seq".to_string();
    cfg.withdraw_proofs_url = "also-bad".to_string();
    match cfg.validate_urls() {
        Err(e @ ConfigError::InvalidValidiumUrl(_)) => assert_eq!(
            e.message(),
            "Invalid validium_url: ftp://seq. Must start with http:// or https://"
        ),
        other => panic!("unexpected: {:?}", other),
    }

    cfg.validium_url = "https://seq".to_string();
    match cfg.validate_urls() {
        Err(e @ ConfigError::InvalidWithdrawProofsUrl(_)) => assert_eq!(
            e.message(),
            "Invalid withdraw_proofs_url: also-bad. Must start with http:// or https://"
        ),
        other => panic!("unexpected: {:?}", other),
    }
}

#[test]
fn prefix_test_edge_cases() {
    assert!(starts_with("http://x", "http://"));
    assert!(starts_with("http://", "http://"));
    assert!(starts_with("anything", ""));
    assert!(!starts_with("http:/", "http://"));
    assert!(!starts_with("", "h"));
    assert!(!starts_with("Http://x", "http://"));
    assert!(starts_with("héllo", "hé"));
    assert!(is_http_url("https://a"));
    assert!(is_http_url("http://a"));
    assert!(!is_http_url("ws://a"));
    assert!(!is_http_url(" http://a"));
}

#[test]
fn resolve_applies_the_command_line_and_then_checks() {
    // The file's sequencer address is bad, the command line mends it.
    let mut cfg = sample();
    cfg.validium_url = "ftp://seq".to_string();
    let resolved = cfg
        .clone()
        .resolve(Some("127.0.0.1:9".to_string()), Some("http://seq".to_string()), None, true)
        .unwrap();
    assert_eq!(resolved.bind_address, "127.0.0.1:9");
    assert_eq!(resolved.validium_url, "http://seq");
    assert_eq!(resolved.withdraw_proofs_url, "https://proofs:8545");
    assert_eq!(resolved.jwt_expiry_secs, 3600);
    assert_eq!(resolved.default_kid, "k");

    // Without the command line the file's address is refused.
    match cfg.clone().resolve(None, None, None, true) {
        Err(e) => assert_eq!(
            e.message(),
            "Invalid validium_url: ftp://seq. Must start with http:// or https://"
        ),
        Ok(_) => panic!("a bad address was accepted"),
    }

    // The file is good, the command line spoils it.
    match sample().resolve(None, None, Some("proofs".to_string()), true) {
        Err(e @ ConfigError::InvalidWithdrawProofsUrl(_)) => assert_eq!(
            e.message(),
            "Invalid withdraw_proofs_url: proofs. Must start with http:// or https://"
        ),
        other => panic!("unexpected: {:?}", other),
    }
}

#[test]
fn resolve_looks_at_the_bind_address_first() {
    let mut cfg = sample();
    cfg.validium_url = "bad".to_string();
    cfg.withdraw_proofs_url = "bad".to_string();
    match cfg.clone().resolve(Some("nowhere".to_string()), None, None, false) {
        Err(e @ ConfigError::InvalidBindAddress(_)) => assert_eq!(
            e.message(),
            "Invalid bind_address: nowhere. Expected format like 0.0.0.0:8080"
        ),
        other => panic!("unexpected: {:?}", other),
    }
    match cfg.clone().resolve(None, None, None, false) {
        Err(ConfigError::InvalidBindAddress(value)) => assert_eq!(value, "0.0.0.0:8080"),
        other => panic!("unexpected: {:?}", other),
    }
    assert!(matches!(
        cfg.resolve(None, None, None, true),
        Err(ConfigError::InvalidValidiumUrl(_))
    ));
}

#[test]
fn the_bind_address_in_force() {
    let cfg = sample();
    assert_eq!(cfg.bind_address_with(&None), "0.0.0.0:8080");
    assert_eq!(cfg.bind_address_with(&Some("[::1]:80".to_string())), "[::1]:80");
}
