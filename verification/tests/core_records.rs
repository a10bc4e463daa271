use rover::error::RoverError;
use rover::manifest::{AppManifest, AppSection, BuildSection, RunSection};
use rover::profile::{ConnectionProfile, ConnectionProfileStore};
use rover::server::auth::{api_key_from, base64url, generate_api_key, hash_token, token_from, AuthManager};
use rover::status::Runtime;

fn valid_toml() -> &'static str {
    r#"
[app]
name = "my-app"
runtime = "python"

[build]
command = "pip install -r requirements.txt"

[run]
command = "python main.py"

[env]
DATABASE_URL = "sqlite:///data.db"
"#
}

/// Reads a manifest text into the library's record and validates it.
fn from_toml(text: &str) -> Result<AppManifest, String> {
    let t: toml::Table = toml::from_str(text).map_err(|e| e.to_string())?;
    let field = |section: &str, key: &str| -> Result<String, String> {
        t.get(section)
            .and_then(|s| s.get(key))
            .and_then(|v| v.as_str())
            .map(|s| s.to_string())
            .ok_or_else(|| format!("missing {section}.{key}"))
    };
    let env = t
        .get("env")
        .and_then(|e| e.as_table())
        .map(|e| {
            e.iter()
                .map(|(k, v)| (k.clone(), v.as_str().unwrap_or_default().to_string()))
                .collect()
        })
        .unwrap_or_default();
    let manifest = AppManifest {
        app: AppSection { name: field("app", "name")?, runtime: field("app", "runtime")?, version: None },
        build: BuildSection { command: field("build", "command")? },
        run: RunSection { command: field("run", "command")? },
        env,
    };
    manifest.validate().map_err(|e| e.message())?;
    Ok(manifest)
}

#[test]
fn parse_valid_manifest() {
    let m = from_toml(valid_toml()).unwrap();
    assert_eq!(m.app.name, "my-app");
    assert_eq!(m.app.runtime, "python");
    assert_eq!(m.runtime().unwrap(), Runtime::Python);
}

#[test]
fn reject_empty_name() {
    let toml = valid_toml().replace("my-app", "");
    assert!(from_toml(&toml).is_err());
}

#[test]
fn reject_unknown_runtime() {
    let toml = valid_toml().replace("python", "lua");
    assert!(from_toml(&toml).is_err());
}

#[test]
fn reject_empty_build_command() {
    let toml = valid_toml().replace("pip install -r requirements.txt", "");
    assert!(from_toml(&toml).is_err());
}

#[test]
fn validation_messages() {
    let mut m = from_toml(valid_toml()).unwrap();
    m.app.name = "my app".into();
    match m.validate() {
        Err(RoverError::ManifestValidation(msg)) => assert_eq!(msg, "app.name must not contain whitespace"),
        _ => panic!("expected a validation error"),
    }
    m.app.name = "ok".into();
    m.run.command = "  ".into();
    match m.validate() {
        Err(RoverError::ManifestValidation(msg)) => assert_eq!(msg, "run.command is required"),
        _ => panic!("expected a validation error"),
    }
}

#[test]
fn remove_clears_active_if_removed() {
    let mut store = ConnectionProfileStore::default();
    let id = "test-id".to_string();
    store.profiles.push(ConnectionProfile {
        id: id.clone(),
        name: "Test".into(),
        address: "addr".into(),
        api_key: None,
        last_used: None,
    });
    store.active_profile_id = Some(id.clone());

    store.remove(&id);
    assert!(store.profiles.is_empty());
    assert!(store.active_profile_id.is_none());
}

#[test]
fn upsert_replaces_same_id() {
    let mut store = ConnectionProfileStore::default();
    let mut p = ConnectionProfile::new("Phone".into(), "1.2.3.4:9050".into());
    store.upsert(p.clone());
    p.name = "Renamed".into();
    store.upsert(p.clone());
    assert_eq!(store.profiles.len(), 1);
    assert_eq!(store.get(&p.id).unwrap().name, "Renamed");
    store.active_profile_id = Some(p.id.clone());
    assert_eq!(store.active().unwrap().name, "Renamed");
    store.remove("other");
    assert_eq!(store.profiles.len(), 1);
    assert!(store.active_profile_id.is_some());
}

#[test]
fn test_pairing_flow() {
    let mut auth = AuthManager::new();
    let token = auth.ensure_pairing_token();
    assert!(token.starts_with("rover-pair-"));

    // Pairing succeeds and returns an API key
    let api_key = auth.pair(&token).unwrap();
    assert!(api_key.starts_with("rover-key-"));

    // The pairing token is consumed
    assert!(auth.pair(&token).is_err());

    // The API key is valid
    assert!(auth.verify_api_key(&api_key));

    // A wrong key is not valid
    assert!(!auth.verify_api_key("rover-key-bad"));
}

#[test]
fn test_ensure_pairing_token_reuses_existing() {
    let mut auth = AuthManager::new();
    let t1 = auth.ensure_pairing_token();
    let t2 = auth.ensure_pairing_token();
    assert_eq!(t1, t2);
}

#[test]
fn test_wrong_pairing_token_fails() {
    let mut auth = AuthManager::new();
    let _ = auth.ensure_pairing_token();
    assert!(auth.pair("wrong-token").is_err());
}

#[test]
fn test_api_key_validation() {
    let mut auth = AuthManager::new();
    let token = auth.ensure_pairing_token();
    let api_key = auth.pair(&token).unwrap();

    // Valid
    assert!(auth.verify_api_key(&api_key));
    // Invalid
    assert!(!auth.verify_api_key("rover-key-xxxxxxxxxxxxxxxxxxxxxxxxxxxxxxxx"));
}

#[test]
fn pairing_keys_are_stored_hashed() {
    let mut auth = AuthManager::new();
    let token = auth.ensure_pairing_token();
    assert_eq!(token.len(), "rover-pair-".len() + 32);
    let key = auth.pair(&token).unwrap();
    assert_eq!(auth.key_hashes, vec![hash_token(&key)]);
    assert!(auth.pairing_token.is_none());
    assert_eq!(
        hash_token("abc"),
        "ba7816bf8f01cfea414140de5dae2223b00361a396177a9cb410ff61f20015ad"
    );
    assert_eq!(auth.pair("rover-pair-none").unwrap_err(), "invalid pairing token");
}

#[test]
fn base64url_encodes_without_padding() {
    assert_eq!(base64url(b""), "");
    assert_eq!(base64url(b"M"), "TQ");
    assert_eq!(base64url(b"Ma"), "TWE");
    assert_eq!(base64url(b"Man"), "TWFu");
    assert_eq!(base64url(&[0xfb, 0xff]), "-_8");
    assert_eq!(base64url(&[0xfb, 0xef, 0xbe]), "----");
    assert_eq!(base64url(&[0xff, 0xff, 0xff]), "____");
}

#[test]
fn api_keys_are_base64url_of_32_bytes() {
    assert_eq!(api_key_from(&[0u8; 32]), format!("rover-key-{}", "A".repeat(43)));
    assert_eq!(token_from("rover-pair", "abc"), "rover-pair-abc");
    let k = generate_api_key();
    assert_eq!(k.len(), 53);
    assert!(k.starts_with("rover-key-"));
    assert!(k[10..].chars().all(|c| c.is_ascii_alphanumeric() || c == '-' || c == '_'));
    assert_ne!(generate_api_key(), k);
}
