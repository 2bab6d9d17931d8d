use den::config::{
    clean_allowed_hosts, default_config_contents, load_app_config, non_empty_string,
    sqlite_url_for_path, FileConfig,
};

#[test]
fn config_default_config_does_not_hardcode_database_path() {
    let config = default_config_contents();
    assert!(!config.contains("database_path"));
}

#[test]
fn main_default_config_does_not_hardcode_database_path() {
    let config = default_config_contents();
    assert!(!config.contains("database_path"));
}

#[test]
fn default_config_contents_exact() {
    assert_eq!(
        default_config_contents(),
        "port = 3000\nrust_log = \"info\"\nrp_id = \"localhost\"\nrp_origin = \"http://localhost:3000\"\nallowed_hosts = []\n"
    );
}

#[test]
fn non_empty_string_trims_and_drops_blank() {
    assert_eq!(non_empty_string(None), None);
    assert_eq!(non_empty_string(Some("   ".to_string())), None);
    assert_eq!(non_empty_string(Some(" x ".to_string())), Some("x".to_string()));
}

#[test]
fn clean_allowed_hosts_keeps_order() {
    let hosts = vec![" a ".to_string(), "".to_string(), "b".to_string(), "  ".to_string()];
    assert_eq!(clean_allowed_hosts(&hosts), vec!["a".to_string(), "b".to_string()]);
}

#[test]
fn load_app_config_defaults() {
    let file = FileConfig {
        port: None,
        rust_log: None,
        rp_id: Some("  ".to_string()),
        rp_origin: None,
        allowed_hosts: None,
        database_path: None,
    };
    let config = load_app_config(file, "/data/den/den.db".to_string());
    assert_eq!(config.port, 3000);
    assert_eq!(config.rust_log, "info");
    assert_eq!(config.rp_id, "localhost");
    assert_eq!(config.rp_origin, "http://localhost:3000");
    assert!(config.allowed_hosts.is_empty());
    assert_eq!(config.database_path, "/data/den/den.db");
}

#[test]
fn load_app_config_takes_file_entries() {
    let file = FileConfig {
        port: Some(8080),
        rust_log: Some(" debug ".to_string()),
        rp_id: Some("lab.example".to_string()),
        rp_origin: Some("https://lab.example".to_string()),
        allowed_hosts: Some(vec![" fujin:3000 ".to_string(), " ".to_string()]),
        database_path: Some("/tmp/x.db".to_string()),
    };
    let config = load_app_config(file, "/data/den/den.db".to_string());
    assert_eq!(config.port, 8080);
    assert_eq!(config.rust_log, "debug");
    assert_eq!(config.rp_id, "lab.example");
    assert_eq!(config.rp_origin, "https://lab.example");
    assert_eq!(config.allowed_hosts, vec!["fujin:3000".to_string()]);
    assert_eq!(config.database_path, "/tmp/x.db");
}

#[test]
fn sqlite_url_for_path_exact() {
    assert_eq!(sqlite_url_for_path("/data/den.db"), "sqlite:/data/den.db?mode=rwc");
}
