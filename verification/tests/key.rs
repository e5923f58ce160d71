use entra_sidecar::key::{
    cache_key_file_name, cache_key_file_path, cache_key_from,
    dev_use_keyring_variable, env_flag_enabled, file_decision, generate_cache_key_b64,
    init_sidecar_env, is_key_sized, is_valid_cache_key_b64, keyring_account, keyring_decision,
    keyring_service, next_store, provision_policy, stored_key, KeyAttempt, KeyError, KeySource,
    ProvisionPolicy, SidecarEnv, StoreDecision, StoreRead, KEY_LEN,
};
use entra_sidecar::locate::Platform;

fn zero_key() -> String {
    format!("{}=", "A".repeat(43))
}

#[test]
fn a_key_of_32_bytes_is_valid() {
    assert!(is_valid_cache_key_b64(&zero_key()));
    assert!(is_valid_cache_key_b64(&format!("  {}\n", zero_key())));
}

#[test]
fn other_texts_are_no_valid_key() {
    assert!(!is_valid_cache_key_b64(""));
    assert!(!is_valid_cache_key_b64("   \n"));
    assert!(!is_valid_cache_key_b64("AAAA"));
    assert!(!is_valid_cache_key_b64("not base64!!"));
    assert!(!is_valid_cache_key_b64(&"A".repeat(43)));
    assert!(!is_valid_cache_key_b64(&format!("{}AAAA", zero_key())));
}

#[test]
fn only_32_decoded_bytes_are_key_sized() {
    assert_eq!(KEY_LEN, 32);
    assert!(is_key_sized(&Some(vec![7u8; 32])));
    assert!(!is_key_sized(&Some(vec![7u8; 31])));
    assert!(!is_key_sized(&Some(vec![7u8; 33])));
    assert!(!is_key_sized(&Some(Vec::new())));
    assert!(!is_key_sized(&None));
}

#[test]
fn key_source_tags() {
    assert_eq!(KeySource::Keyring.as_str(), "keyring");
    assert_eq!(KeySource::File.as_str(), "file");
    assert_eq!(KeySource::NoKey.as_str(), "none");
}

#[test]
fn store_names_hold_the_identifier() {
    assert_eq!(keyring_service(), "Entra Token Studio");
    assert_eq!(keyring_account("com.example.app"), "com.example.app:msal-cache-key");
    assert_eq!(cache_key_file_name("com.example.app"), "msal-cache-key.com.example.app.b64");
    assert_eq!(
        cache_key_file_path("/data/app", "com.example.app", Platform::Linux),
        "/data/app/msal-cache-key.com.example.app.b64"
    );
    assert_eq!(
        cache_key_file_path("C:\\Data", "id", Platform::Windows),
        "C:\\Data\\msal-cache-key.id.b64"
    );
    assert_eq!(cache_key_file_path("/data/", "id", Platform::MacOs), "/data/msal-cache-key.id.b64");
}

#[test]
fn keyring_entry_is_reused_as_it_stands() {
    let d = keyring_decision(StoreRead::Found(" abc ".to_string()));
    assert_eq!(d, StoreDecision::Reuse(" abc ".to_string()));
    let again = keyring_decision(StoreRead::Found(" abc ".to_string()));
    assert_eq!(again, d);
}

#[test]
fn blank_or_missing_keyring_entry_is_replaced() {
    assert_eq!(keyring_decision(StoreRead::Found(String::new())), StoreDecision::Regenerate);
    assert_eq!(keyring_decision(StoreRead::Found(" \t\n".to_string())), StoreDecision::Regenerate);
    assert_eq!(keyring_decision(StoreRead::Missing), StoreDecision::Regenerate);
}

#[test]
fn unreadable_keyring_is_left_alone() {
    let d = keyring_decision(StoreRead::Failed("locked".to_string()));
    assert_eq!(d, StoreDecision::GiveUp(KeyError::KeyringRead("locked".to_string())));
    match d {
        StoreDecision::GiveUp(e) => {
            assert_eq!(e.message(), "Failed to read keyring entry: locked")
        }
        _ => panic!("the store must not be touched"),
    }
}

#[test]
fn valid_key_file_is_stable() {
    let content = format!("{}\n", zero_key());
    let first = file_decision(Some(content.clone()));
    let second = file_decision(Some(content));
    assert_eq!(first, StoreDecision::Reuse(zero_key()));
    assert_eq!(second, first);
}

#[test]
fn invalid_key_file_is_replaced() {
    assert_eq!(file_decision(Some("AAAA".to_string())), StoreDecision::Regenerate);
    assert_eq!(file_decision(Some(String::new())), StoreDecision::Regenerate);
    assert_eq!(file_decision(None), StoreDecision::Regenerate);
}

#[test]
fn generated_key_is_valid_and_fresh() {
    let a = generate_cache_key_b64().expect("random bytes");
    let b = generate_cache_key_b64().expect("random bytes");
    assert_eq!(a.len(), 44);
    assert!(is_valid_cache_key_b64(&a));
    assert!(is_valid_cache_key_b64(&b));
    assert_ne!(a, b);
    assert_eq!(file_decision(Some(a.clone())), StoreDecision::Reuse(a));
}

#[test]
fn key_is_the_encoding_of_the_random_bytes() {
    assert_eq!(cache_key_from(Ok(vec![0u8; 32])), Ok(zero_key()));
    assert_eq!(
        cache_key_from(Ok((0u8..32).collect())),
        Ok("AAECAwQFBgcICQoLDA0ODxAREhMUFRYXGBkaGxwdHh8=".to_string())
    );
    assert_eq!(
        cache_key_from(Err("no entropy".to_string())),
        Err(KeyError::Generate("no entropy".to_string()))
    );
}

#[test]
fn key_error_messages() {
    let e = |s: &str| s.to_string();
    assert_eq!(KeyError::KeyringInit(e("x")).message(), "Failed to initialize keyring: x");
    assert_eq!(KeyError::KeyringRead(e("x")).message(), "Failed to read keyring entry: x");
    assert_eq!(KeyError::KeyringWrite(e("x")).message(), "Failed to write keyring entry: x");
    assert_eq!(KeyError::Generate(e("x")).message(), "Failed to generate cache key: x");
    assert_eq!(KeyError::CreateDir(e("x")).message(), "Failed to create cache key directory: x");
    assert_eq!(KeyError::WriteFile(e("x")).message(), "Failed to write cache key file: x");
}

#[test]
fn stored_key_reports_the_write() {
    assert_eq!(stored_key("k".to_string(), Ok(()), KeySource::File), Ok("k".to_string()));
    assert_eq!(
        stored_key("k".to_string(), Err("denied".to_string()), KeySource::Keyring),
        Err(KeyError::KeyringWrite("denied".to_string()))
    );
    assert_eq!(
        stored_key("k".to_string(), Err("full".to_string()), KeySource::File),
        Err(KeyError::WriteFile("full".to_string()))
    );
}

#[test]
fn environment_switches() {
    assert_eq!(dev_use_keyring_variable(), "ENTRA_TOKEN_STUDIO_DEV_USE_KEYRING");
    assert!(env_flag_enabled(Some("1")));
    assert!(env_flag_enabled(Some("true")));
    assert!(env_flag_enabled(Some("TRUE")));
    assert!(env_flag_enabled(Some("tRuE")));
    assert!(!env_flag_enabled(Some("0")));
    assert!(!env_flag_enabled(Some("yes")));
    assert!(!env_flag_enabled(Some(" true")));
    assert!(!env_flag_enabled(Some("")));
    assert!(!env_flag_enabled(None));
}

#[test]
fn policy_of_release_and_development_builds() {
    assert_eq!(provision_policy(false, None), ProvisionPolicy { prefer_keyring: true });
    assert_eq!(provision_policy(false, Some("0")), ProvisionPolicy { prefer_keyring: true });
    assert_eq!(provision_policy(true, None), ProvisionPolicy { prefer_keyring: false });
    assert_eq!(provision_policy(true, Some("no")), ProvisionPolicy { prefer_keyring: false });
    assert_eq!(provision_policy(true, Some("1")), ProvisionPolicy { prefer_keyring: true });
    assert_eq!(provision_policy(true, Some("True")), ProvisionPolicy { prefer_keyring: true });
}

#[test]
fn stores_are_tried_in_order() {
    let release = provision_policy(false, None);
    let key = || KeyAttempt::Obtained("k".to_string());
    assert_eq!(
        next_store(&release, true, &KeyAttempt::NotTried, &KeyAttempt::NotTried),
        Some(KeySource::Keyring)
    );
    assert_eq!(next_store(&release, true, &key(), &KeyAttempt::NotTried), None);
    assert_eq!(next_store(&release, false, &KeyAttempt::Failed, &KeyAttempt::NotTried), None);
    assert_eq!(next_store(&release, true, &KeyAttempt::Failed, &KeyAttempt::Failed), None);
    assert_eq!(next_store(&release, true, &KeyAttempt::Failed, &key()), None);
    let dev = provision_policy(true, None);
    assert_eq!(
        next_store(&dev, true, &KeyAttempt::NotTried, &KeyAttempt::NotTried),
        Some(KeySource::File)
    );
    assert_eq!(next_store(&dev, false, &KeyAttempt::NotTried, &KeyAttempt::NotTried), None);
    assert_eq!(next_store(&dev, true, &KeyAttempt::NotTried, &KeyAttempt::Failed), None);
}

#[test]
fn release_build_falls_back_to_the_key_file() {
    let release = provision_policy(false, None);
    let mut keyring = KeyAttempt::NotTried;
    let mut file = KeyAttempt::NotTried;
    let mut tried = Vec::new();
    while let Some(store) = next_store(&release, true, &keyring, &file) {
        tried.push(store);
        match store {
            KeySource::Keyring => keyring = KeyAttempt::Failed,
            KeySource::File => file = KeyAttempt::Obtained("k".to_string()),
            KeySource::NoKey => panic!("no store of that name"),
        }
    }
    assert_eq!(tried, vec![KeySource::Keyring, KeySource::File]);
    assert_eq!(
        init_sidecar_env(Some("/data".to_string()), keyring, file),
        SidecarEnv {
            data_dir: Some("/data".to_string()),
            cache_key_b64: Some("k".to_string()),
            cache_key_source: KeySource::File,
        }
    );
}

#[test]
fn provisioning_outcome_names_the_source() {
    let dir = Some("/data".to_string());
    assert_eq!(
        init_sidecar_env(dir.clone(), KeyAttempt::Obtained("a".to_string()), KeyAttempt::NotTried),
        SidecarEnv {
            data_dir: dir.clone(),
            cache_key_b64: Some("a".to_string()),
            cache_key_source: KeySource::Keyring,
        }
    );
    assert_eq!(
        init_sidecar_env(dir.clone(), KeyAttempt::Failed, KeyAttempt::Obtained("b".to_string())),
        SidecarEnv {
            data_dir: dir.clone(),
            cache_key_b64: Some("b".to_string()),
            cache_key_source: KeySource::File,
        }
    );
    assert_eq!(
        init_sidecar_env(None, KeyAttempt::Failed, KeyAttempt::Failed),
        SidecarEnv { data_dir: None, cache_key_b64: None, cache_key_source: KeySource::NoKey }
    );
}
