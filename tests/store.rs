use inventor_bot::api::auth::Client;
use inventor_bot::cli::Command;
use inventor_bot::data::cache::Cache;
use inventor_bot::data::config::{self, Config, Visibility};
use inventor_bot::data::secrets::{
    decrypt, encrypt, plan_load, CryptoError, LoadError, LoadPlan, MissReason, Secrets,
};

fn config(instance: &str, protect: bool) -> Config {
    Config {
        instance: String::from(instance),
        inventors: vec![String::from("Ada")],
        repeat: None,
        visibility: Visibility::default(),
        cache: config::Cache { enable: true, path: String::from("/tmp/c"), protect },
        port: config::default_port(),
        client: config::default_client_name(),
        lang: config::default_lang(),
        dry_run: false,
    }
}

#[test]
fn encrypt_round_trip() {
    let b = encrypt("token = \"Bearer abc\"\n", "hunter2", 42).unwrap();
    assert_eq!(decrypt(&b, "hunter2").unwrap(), "token = \"Bearer abc\"\n");
}

#[test]
fn wrong_password_fails() {
    let b = encrypt("secret text", "right", 7).unwrap();
    assert_eq!(decrypt(&b, "wrong"), Err(CryptoError::DecryptFailed));
    assert_eq!(decrypt(b"not a message", "right"), Err(CryptoError::DecryptFailed));
}

#[test]
fn other_instance_is_a_miss() {
    let meta = "instance = \"old.social\"\nprotect = false\n";
    let plan = Secrets::load_plan(&config("new.social", false), Some(meta));
    assert_eq!(plan, LoadPlan::Miss(MissReason::OtherInstance));
}

#[test]
fn encrypted_cache_not_downgraded() {
    let meta = "instance = \"a.social\"\nprotect = true\n";
    let plan = Secrets::load_plan(&config("a.social", false), Some(meta));
    assert_eq!(plan, LoadPlan::Miss(MissReason::ProtectionDisabled));
}

#[test]
fn plain_cache_read_plain_when_upgrading() {
    let meta = "instance = \"a.social\"\nprotect = false\n";
    let plan = Secrets::load_plan(&config("a.social", true), Some(meta));
    assert_eq!(plan, LoadPlan::Read { encrypted: false, unprotected_warning: true });
}

#[test]
fn matching_cache_read_in_its_mode() {
    let meta = "instance = \"a.social\"\nprotect = true\n";
    let plan = Secrets::load_plan(&config("a.social", true), Some(meta));
    assert_eq!(plan, LoadPlan::Read { encrypted: true, unprotected_warning: false });
    assert_eq!(
        Secrets::load_plan(&config("a.social", true), None),
        LoadPlan::Miss(MissReason::NoMetadata)
    );
    assert_eq!(
        Secrets::load_plan(&config("a.social", true), Some("instance = 3")),
        LoadPlan::Miss(MissReason::NoMetadata)
    );
    assert_eq!(plan_load(&None, "a.social", false), LoadPlan::Miss(MissReason::NoMetadata));
}

#[test]
fn metadata_round_trip() {
    let c = Cache { instance: String::from("we\"ird.social"), protect: true };
    let text = c.dump();
    let back = Cache::load(Some(&text)).unwrap();
    assert_eq!(back.instance, "we\"ird.social");
    assert!(back.protect);
    assert!(Cache::load(None).is_none());
}

#[test]
fn payload_round_trips() {
    let plain = Secrets::dump("token = \"x\"", None, 0).unwrap();
    assert_eq!(plain, b"token = \"x\"".to_vec());
    assert_eq!(Secrets::open_payload(&plain, None).unwrap(), "token = \"x\"");
    let sealed = Secrets::dump("token = \"x\"", Some("pw"), 3).unwrap();
    assert_ne!(sealed, plain);
    assert_eq!(Secrets::open_payload(&sealed, Some("pw")).unwrap(), "token = \"x\"");
    assert_eq!(Secrets::open_payload(&sealed, Some("px")), Err(LoadError::DecryptFailed));
    assert_eq!(Secrets::open_payload(&[0xff, 0xfe], None), Err(LoadError::NotText));
}

#[test]
fn metadata_only_after_payload() {
    let cfg = config("a.social", true);
    assert!(Secrets::saved_metadata(false, &cfg).is_none());
    let m = Secrets::saved_metadata(true, &cfg).unwrap();
    assert_eq!((m.instance.as_str(), m.protect), ("a.social", true));
}

#[test]
fn credentials_of_each_source() {
    let e = Secrets::explicit(String::from("Bearer t"));
    assert!(e.new && e.client.is_none());
    assert!(e.revoke().is_none());
    let c = Client { client_id: String::from("i"), client_secret: String::from("s") };
    let s = Secrets::stored(Some(c.clone()), String::from("Bearer t"));
    assert!(!s.new);
    assert_eq!(s.revoke().unwrap().len(), 3);
    assert!(Secrets::new(c, String::from("Bearer u")).new);
}

#[test]
fn overrides_apply() {
    let cmd = Command {
        config: String::from("/etc/x.toml"),
        cache: Some(String::from("/var/c")),
        token: None,
        no_cache: true,
        dry_run: true,
    };
    let c = Config::get(config("a.social", false), &cmd);
    assert_eq!(c.cache.path, "/var/c");
    assert!(!c.cache.enable);
    assert!(c.dry_run);
    assert!(!c.caches_unprotected());
    assert_eq!(c.port, 65233);
    assert_eq!(c.lang, "en");
    assert_eq!(c.client, "inventor_bot");
    assert_eq!(Visibility::Public.as_str(), "public");
    assert_eq!(c.visibility.as_str(), "unlisted");
}

#[test]
fn read_payload_outcomes() {
    let enc = LoadPlan::Read { encrypted: true, unprotected_warning: false };
    let plain = LoadPlan::Read { encrypted: false, unprotected_warning: true };
    let miss = LoadPlan::Miss(MissReason::OtherInstance);
    assert!(Secrets::wants_password(enc, true));
    assert!(!Secrets::wants_password(enc, false));
    assert!(!Secrets::wants_password(plain, true));
    assert!(!Secrets::wants_password(miss, true));
    assert_eq!(Secrets::read_payload(enc, None, "pw"), Ok(None));
    assert_eq!(Secrets::read_payload(miss, Some(b"token = \"t\""), ""), Ok(None));
    assert_eq!(Secrets::read_payload(plain, Some(&[0xff]), ""), Ok(None));
    assert_eq!(
        Secrets::read_payload(plain, Some(b"token = \"t\""), ""),
        Ok(Some(String::from("token = \"t\"")))
    );
    let sealed = Secrets::dump("t", Some("pw"), 1).unwrap();
    assert_eq!(Secrets::read_payload(enc, Some(&sealed), "pw"), Ok(Some(String::from("t"))));
    assert_eq!(Secrets::read_payload(enc, Some(&sealed), "no"), Err(LoadError::DecryptFailed));
}

#[test]
fn dumped_metadata_loads_back() {
    let cfg = config("b.social", true);
    let saved = Secrets::saved_metadata(true, &cfg).unwrap();
    let text = saved.dump();
    assert_eq!(
        Secrets::load_plan(&cfg, Some(&text)),
        LoadPlan::Read { encrypted: true, unprotected_warning: false }
    );
}
