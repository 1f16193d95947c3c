use pibox::config::{
    default_filebrowser_url, default_listen_addr, Config, DeviceConfig, DeviceType, Theme,
};

#[test]
fn test_default_config() {
    let config = Config::default();
    assert_eq!(config.server.ws_port, pibox::DEFAULT_WS_PORT);
    assert!(config.client.vim_mode);
}

#[test]
fn test_device_upsert() {
    let mut config = Config::default();

    config.upsert_device(DeviceConfig {
        name: "nas".to_string(),
        url: "ws://192.0.2.10:9280".to_string(),
        username: Some("admin".to_string()),
        device_type: DeviceType::Nas,
    });

    assert_eq!(config.devices.len(), 1);

    config.upsert_device(DeviceConfig {
        name: "nas".to_string(),
        url: "ws://192.0.2.11:9280".to_string(),
        username: Some("admin".to_string()),
        device_type: DeviceType::Nas,
    });

    assert_eq!(config.devices.len(), 1);
    assert!(config.devices[0].url.contains("192.0.2.11"));
}

#[test]
fn default_values() {
    let c = Config::default();
    assert_eq!(c.server.listen_addr, "0.0.0.0");
    assert_eq!(c.server.filebrowser_url, "http://127.0.0.1:8080");
    assert_eq!(default_filebrowser_url(), "http://127.0.0.1:8080");
    assert_eq!(default_listen_addr(), "0.0.0.0");
    assert_eq!(c.server.access_token_ttl, 900);
    assert_eq!(c.server.refresh_token_ttl, 604800);
    assert_eq!(c.server.max_concurrent_transfers, 3);
    assert_eq!(c.server.load_report_interval, 5);
    assert!(c.server.jwt_secret.is_none());
    assert_eq!(c.client.theme, Theme::System);
    assert!(c.client.confirm_delete && !c.client.show_hidden);
    assert_eq!(c.client.gui.window_width, 1200);
    assert_eq!(c.client.gui.window_height, 800);
    assert_eq!(c.client.gui.thumbnail_cache_mb, 100);
    assert!(c.client.tui.true_color && c.client.tui.mouse && !c.client.tui.image_preview);
    assert!(c.devices.is_empty());
}

fn device(name: &str, url: &str) -> DeviceConfig {
    DeviceConfig { name: name.to_string(), url: url.to_string(), username: None, device_type: DeviceType::Generic }
}

#[test]
fn get_device_finds_first_by_name() {
    let mut c = Config::default();
    c.upsert_device(device("a", "ws://a"));
    c.upsert_device(device("b", "ws://b"));
    assert_eq!(c.get_device("b").unwrap().url, "ws://b");
    assert!(c.get_device("c").is_none());
    c.devices.push(device("a", "ws://a2"));
    assert_eq!(c.get_device("a").unwrap().url, "ws://a");
    c.upsert_device(device("a", "ws://a3"));
    assert_eq!(c.devices[0].url, "ws://a3");
    assert_eq!(c.devices[2].url, "ws://a2");
    assert_eq!(c.devices.len(), 3);
}
