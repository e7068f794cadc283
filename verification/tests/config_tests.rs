use saturation::config::{Config, ConfigError, TokenInfo, WorkspaceInfo, UserInfo};

fn token(access: &str, refresh: &str, expires_at: &str) -> TokenInfo {
    TokenInfo {
        access_token: access.to_string(),
        refresh_token: refresh.to_string(),
        expires_at: expires_at.to_string(),
    }
}

#[test]
fn test_default_config() {
    let config = Config::default();
    assert!(config.user.is_none());
    assert!(config.active_workspace.is_none());
    assert!(config.workspaces.is_empty());
    assert!(config.token.is_none());
}

#[test]
fn test_server_url_default() {
    let config = Config::default();
    assert_eq!(config.server_url(), "https://next.saturation.io");
}

#[test]
fn test_server_url_override() {
    let config = Config {
        server: Some("http://localhost:4001".into()),
        ..Default::default()
    };
    assert_eq!(config.server_url(), "http://localhost:4001");
}

#[test]
fn test_v1_server_url_default_is_public_api_host() {
    let config = Config::default();
    assert_eq!(config.v1_server_url(), "https://next-api.saturation.io");
    assert_eq!(config.server_url(), "https://next.saturation.io");
    assert_ne!(config.v1_server_url(), config.server_url());
}

#[test]
fn test_v1_server_url_honors_override() {
    let config = Config {
        server: Some("http://localhost:4300".into()),
        ..Default::default()
    };
    assert_eq!(config.v1_server_url(), "http://localhost:4300");
    assert_eq!(config.server_url(), "http://localhost:4300");
}

#[test]
fn test_require_token_missing() {
    let config = Config::default();
    assert!(config.require_token().is_err());
}

#[test]
fn saved_token_config_is_private() {
    let config = Config {
        token: Some(token("secret-token", "", "")),
        ..Config::default()
    };
    let target = config.save_target_in("/home/user");
    assert_eq!(target.dir_mode & 0o777, 0o700);
    assert_eq!(target.file_mode & 0o777, 0o600);
    assert_eq!(target.dir, "/home/user/.saturation");
    assert_eq!(target.file, "/home/user/.saturation/config.json");
}

#[test]
fn require_token_returns_the_stored_token() {
    let config = Config {
        token: Some(token("abc", "", "")),
        ..Config::default()
    };
    assert_eq!(config.require_token().unwrap().access_token, "abc");
    let missing = Config::default().require_token().unwrap_err();
    assert_eq!(missing, ConfigError::NotAuthenticated);
    assert_eq!(missing.message(), "Not authenticated. Run `saturation auth token TOKEN` first.");
    assert_eq!(ConfigError::NoHomeDirectory.message(), "Could not determine home directory");
}

#[test]
fn config_paths_join_home() {
    assert_eq!(Config::config_dir_in("/home/a"), "/home/a/.saturation");
    assert_eq!(Config::config_dir_in("/home/a/"), "/home/a/.saturation");
    assert_eq!(Config::config_dir_in(""), ".saturation");
    assert_eq!(Config::config_path_in("/root"), "/root/.saturation/config.json");
}

#[test]
fn workspace_insert_then_lookup() {
    let mut config = Config::default();
    config.insert_workspace("ws-abc".into(), WorkspaceInfo { name: "Test Studio".into(), role: "admin".into() });
    config.insert_workspace("ws-def".into(), WorkspaceInfo { name: "Other".into(), role: "viewer".into() });
    assert_eq!(config.workspace("ws-abc").unwrap().name, "Test Studio");
    config.insert_workspace("ws-abc".into(), WorkspaceInfo { name: "Renamed".into(), role: "owner".into() });
    assert_eq!(config.workspaces.len(), 2);
    assert_eq!(config.workspace("ws-abc").unwrap().name, "Renamed");
    assert_eq!(config.workspace("ws-abc").unwrap().role, "owner");
    assert_eq!(config.workspace("ws-def").unwrap().name, "Other");
    assert!(config.workspace("ws-zzz").is_none());
}

#[test]
fn token_file_injects_trimmed_non_refreshable_token() {
    let mut config = Config {
        user: Some(UserInfo { id: "u".into(), email: "e@x".into(), name: None }),
        server: Some("http://s".into()),
        ..Config::default()
    };
    config.apply_token_file("  header.payload.signature\n");
    let t = config.token.as_ref().unwrap();
    assert_eq!(t.access_token, "header.payload.signature");
    assert_eq!(t.refresh_token, "");
    assert_eq!(t.expires_at, "");
    assert!(!t.is_refreshable());
    assert!(!t.is_expired());
    assert!(!config.needs_refresh());
    assert_eq!(config.server.as_deref(), Some("http://s"));
    assert!(config.user.is_some());
}

#[test]
fn expiry_rules() {
    let now = (1_700_000_000i64, 0u32);
    assert!(!token("a", "r", "").is_expired_at(now));
    assert!(!token("a", "r", "   ").is_expired_at(now));
    assert!(!token("a", "r", "not a date").is_expired_at(now));
    assert!(token("a", "r", "2000-01-01T00:00:00Z").is_expired_at(now));
    assert!(!token("a", "r", "2099-01-01T00:00:00Z").is_expired_at(now));
    // 2023-11-14T22:13:20Z is exactly `now`; within 60 seconds counts as expired.
    assert!(token("a", "r", "2023-11-14T22:14:20Z").is_expired_at(now));
    assert!(!token("a", "r", "2023-11-14T22:14:21Z").is_expired_at(now));
    assert!(token("a", "r", "2000-01-01T00:00:00Z").is_expired());
}

#[test]
fn refreshable_needs_a_non_blank_refresh_token() {
    assert!(token("a", "r", "").is_refreshable());
    assert!(!token("a", "", "").is_refreshable());
    assert!(!token("a", " \t", "").is_refreshable());
}

#[test]
fn needs_refresh_only_when_expired_and_refreshable() {
    let now = (1_700_000_000i64, 0u32);
    let expired = Config { token: Some(token("a", "r", "2000-01-01T00:00:00Z")), ..Config::default() };
    assert!(expired.needs_refresh_at(now));
    let fresh = Config { token: Some(token("a", "r", "2099-01-01T00:00:00Z")), ..Config::default() };
    assert!(!fresh.needs_refresh_at(now));
    let stuck = Config { token: Some(token("a", "", "2000-01-01T00:00:00Z")), ..Config::default() };
    assert!(!stuck.needs_refresh_at(now));
    assert!(!Config::default().needs_refresh_at(now));
}

#[test]
fn config_locations_under_the_home_directory() {
    if let Ok(dir) = Config::config_dir() {
        assert!(dir.ends_with("/.saturation") || dir == ".saturation");
        assert_eq!(Config::config_path().unwrap(), format!("{dir}/config.json"));
        let target = Config::default().save().unwrap();
        assert_eq!(target.dir, dir);
        assert_eq!((target.dir_mode, target.file_mode), (0o700, 0o600));
    }
}
