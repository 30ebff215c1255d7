use abyss_singularity::directory::client::{global_chat_path, presence_due, Directory};
use abyss_singularity::directory::config::{
    apply_settings, client_settings, default_handle, ensure_defaults, new_user_id,
    DirectoryConfig, DEFAULT_WORKER_URL,
};
use sha2::Digest;

#[test]
fn new_user_id_has_uuid_shape() {
    let id = new_user_id(1_717_171_717_000_000_123, 4242);
    let parts: Vec<&str> = id.split('-').collect();
    assert_eq!(parts.len(), 5);
    assert_eq!(parts[0].len(), 8);
    assert_eq!(parts[1].len(), 4);
    assert_eq!(parts[2].len(), 4);
    assert_eq!(parts[3].len(), 4);
    assert_eq!(parts[4].len(), 12);
    assert!(id.chars().all(|c| c == '-' || c.is_ascii_hexdigit()));
}

#[test]
fn new_user_id_is_the_sha256_of_time_and_pid() {
    let nanos: u128 = 1_717_171_717_000_000_123;
    let pid: u32 = 4242;
    let mut h = sha2::Sha256::new();
    h.update(nanos.to_le_bytes());
    h.update(pid.to_le_bytes());
    h.update(0u64.to_le_bytes());
    h.update(b"abyss-directory-id-v1");
    let hex = hex::encode(&h.finalize()[..16]);
    let expected = format!(
        "{}-{}-{}-{}-{}",
        &hex[..8],
        &hex[8..12],
        &hex[12..16],
        &hex[16..20],
        &hex[20..32]
    );
    assert_eq!(new_user_id(nanos, pid), expected);
}

#[test]
fn new_user_ids_differ_with_the_clock() {
    assert_ne!(new_user_id(1_000, 7), new_user_id(1_001, 7));
    assert_ne!(new_user_id(1_000, 7), new_user_id(1_000, 8));
}

#[test]
fn is_ready_requires_all_three() {
    let mut c = DirectoryConfig::default();
    assert!(!c.is_ready());
    c.user_id = Some("u1".into());
    assert!(!c.is_ready());
    c.handle = Some("Bob".into());
    assert!(!c.is_ready());
    c.worker_url = Some("https://x".into());
    assert!(c.is_ready());
}

#[test]
fn default_handle_is_nonempty() {
    let h = default_handle("DESKTOP-ABC123");
    assert!(!h.is_empty());
    assert!(h.len() <= 24);
}

#[test]
fn default_handle_filters_caps_and_falls_back() {
    assert_eq!(default_handle("my.laptop_01"), "mylaptop01");
    assert_eq!(default_handle("  spaced out  "), "spaced out");
    assert_eq!(default_handle("abcdefghijklmnopqrstuvwxyz0123"), "abcdefghijklmnopqrstuvwx");
    assert_eq!(default_handle("..."), "Abyss Player");
    assert_eq!(default_handle(""), "Abyss Player");
}

#[test]
fn default_handle_fits_in_24_bytes() {
    let h = default_handle("ÉÉÉÉÉÉÉÉÉÉÉÉÉÉÉÉÉÉÉÉÉÉÉÉÉ");
    assert_eq!(h, "ÉÉÉÉÉÉÉÉÉÉÉÉ");
    assert_eq!(h.len(), 24);
    let h = default_handle("abああああああああああ");
    assert!(h.len() <= 24);
    assert_eq!(h, "abあああああああ");
}

#[test]
fn ensure_defaults_fills_only_missing_fields() {
    let (cfg, dirty) =
        ensure_defaults(DirectoryConfig::default(), "id-1".to_string(), "Host".to_string());
    assert!(dirty);
    assert_eq!(cfg.user_id.as_deref(), Some("id-1"));
    assert_eq!(cfg.handle.as_deref(), Some("Host"));
    assert_eq!(cfg.worker_url.as_deref(), Some(DEFAULT_WORKER_URL));
    assert!(cfg.is_ready());

    let (again, dirty) = ensure_defaults(cfg.clone(), "id-2".to_string(), "Other".to_string());
    assert!(!dirty);
    assert_eq!(again.user_id.as_deref(), Some("id-1"));
    assert_eq!(again.handle.as_deref(), Some("Host"));
}

#[test]
fn apply_settings_trims_clears_and_strips_slashes() {
    let cfg = apply_settings(
        DirectoryConfig::default(),
        "fresh".to_string(),
        "Default Name".to_string(),
        Some("   ".to_string()),
        Some("  https://w.example.dev//  ".to_string()),
        Some(true),
        Some(" de ".to_string()),
    );
    assert_eq!(cfg.user_id.as_deref(), Some("fresh"));
    assert_eq!(cfg.handle.as_deref(), Some("Default Name"));
    assert_eq!(cfg.worker_url.as_deref(), Some("https://w.example.dev"));
    assert!(cfg.hidden);
    assert_eq!(cfg.country.as_deref(), Some("de"));

    let kept = apply_settings(cfg, "other".to_string(), "x".to_string(), None, None, None, None);
    assert_eq!(kept.user_id.as_deref(), Some("fresh"));
    assert_eq!(kept.handle.as_deref(), Some("Default Name"));
    assert!(kept.hidden);
}

#[test]
fn client_settings_require_a_ready_config() {
    let err = client_settings(&DirectoryConfig::default()).unwrap_err();
    assert!(err.starts_with("Directory isn't set up yet."));
    let mut c = DirectoryConfig::default();
    c.user_id = Some("me".into());
    c.handle = Some("Me".into());
    c.worker_url = Some("https://w.dev/".into());
    assert_eq!(client_settings(&c), Ok(("https://w.dev".to_string(), "me".to_string())));
}

#[test]
fn request_paths_carry_the_user_and_window() {
    let d = Directory::new("https://w.dev///", "u-1");
    assert_eq!(d.base, "https://w.dev");
    assert_eq!(d.online_path(300_000), "/v1/online?since_ms=300000&viewer_id=u-1");
    assert_eq!(d.friend_requests_path(), "/v1/friend-requests?user_id=u-1");
    assert_eq!(d.friend_responses_path(), "/v1/friend-responses?user_id=u-1");
    assert_eq!(d.friends_path(), "/v1/friends?user_id=u-1");
    assert_eq!(d.dms_path(0), "/v1/dm?user_id=u-1&since_ms=0");
    assert_eq!(d.url("/v1/friends"), "https://w.dev/v1/friends");
    assert_eq!(global_chat_path(42), "/v1/global-chat?since_ms=42");
}

#[test]
fn presence_heartbeat_every_tenth_poll() {
    assert!(presence_due(0));
    assert!(!presence_due(1));
    assert!(!presence_due(9));
    assert!(presence_due(10));
}
