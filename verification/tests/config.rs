use stealth_fetch::launch_option::{
    default_option, stealth_option, usize_to_string, with_proxy_port, with_user_data_dir,
};

#[test]
fn stealth_preset_fields() {
    let cfg = stealth_option();
    assert_eq!(cfg.headless, true);
    assert_eq!(cfg.sandbox, true);
    assert_eq!(cfg.devtools, false);
    assert_eq!(cfg.enable_gpu, false);
    assert_eq!(cfg.enable_logging, false);
    assert_eq!(cfg.window_size, Some((1920, 1080)));
    assert_eq!(cfg.idle_timeout_secs, 30);
    assert!(cfg.proxy_server.is_none());
    assert!(cfg.user_data_dir.is_none());
}

#[test]
fn stealth_preset_args() {
    let cfg = stealth_option();
    assert_eq!(cfg.args.len(), 18);
    assert_eq!(cfg.args[0], "--disable-blink-features=AutomationControlled");
    assert_eq!(cfg.args[1], "--disable-automation");
    assert_eq!(cfg.args[14], "--no-sandbox");
    assert_eq!(cfg.args[16], "--ignore-certificate-errors");
    assert_eq!(
        cfg.args[17],
        "--user-agent=Mozilla/5.0 (Windows NT 10.0; Win64; x64) AppleWebKit/537.36 (KHTML, like Gecko) Chrome/98.0.4758.102 Safari/537.36"
    );
}

#[test]
fn default_preset_fields() {
    let cfg = default_option();
    assert_eq!(cfg.headless, false);
    assert_eq!(cfg.sandbox, true);
    assert_eq!(cfg.devtools, false);
    assert_eq!(cfg.enable_gpu, false);
    assert_eq!(cfg.enable_logging, false);
    assert_eq!(cfg.window_size, Some((1920, 1080)));
    assert_eq!(cfg.idle_timeout_secs, 60);
    assert!(cfg.args.is_empty());
    assert!(cfg.proxy_server.is_none());
    assert!(cfg.user_data_dir.is_none());
}

#[test]
fn proxy_override_preserves_other_fields() {
    let cfg = default_option();
    let cfg = with_proxy_port(cfg, 8080);
    assert_eq!(cfg.proxy_server.as_deref(), Some("http://localhost:8080"));
    assert_eq!(cfg.window_size, Some((1920, 1080)));
    assert_eq!(cfg.idle_timeout_secs, 60);
    assert_eq!(cfg.headless, false);
    assert_eq!(cfg.sandbox, true);
    assert_eq!(cfg.devtools, false);
    assert_eq!(cfg.enable_gpu, false);
    assert_eq!(cfg.enable_logging, false);
    assert!(cfg.args.is_empty());
    assert!(cfg.user_data_dir.is_none());
}

#[test]
fn proxy_override_keeps_stealth_args() {
    let cfg = stealth_option();
    let cfg = with_proxy_port(cfg, 3128);
    assert_eq!(cfg.proxy_server.as_deref(), Some("http://localhost:3128"));
    assert_eq!(cfg.args.len(), 18);
    assert_eq!(cfg.args[0], "--disable-blink-features=AutomationControlled");
    assert_eq!(cfg.window_size, Some((1920, 1080)));
}

#[test]
fn user_data_dir_override_preserves_other_fields() {
    let cfg = stealth_option();
    let cfg = with_user_data_dir(cfg, "/tmp/profile");
    assert_eq!(cfg.user_data_dir.as_deref(), Some("/tmp/profile"));
    assert_eq!(cfg.headless, true);
    assert_eq!(cfg.window_size, Some((1920, 1080)));
    assert_eq!(cfg.idle_timeout_secs, 30);
    assert_eq!(cfg.args.len(), 18);
    assert!(cfg.proxy_server.is_none());
}

#[test]
fn overrides_compose() {
    let cfg = default_option();
    let cfg = with_proxy_port(cfg, 9000);
    let cfg = with_user_data_dir(cfg, "/var/data/profile");
    assert_eq!(cfg.proxy_server.as_deref(), Some("http://localhost:9000"));
    assert_eq!(cfg.user_data_dir.as_deref(), Some("/var/data/profile"));
    assert_eq!(cfg.idle_timeout_secs, 60);
}

#[test]
fn decimal_rendering_is_exact() {
    assert_eq!(usize_to_string(0), "0");
    assert_eq!(usize_to_string(7), "7");
    assert_eq!(usize_to_string(10), "10");
    assert_eq!(usize_to_string(80), "80");
    assert_eq!(usize_to_string(8080), "8080");
    assert_eq!(usize_to_string(65535), "65535");
    assert_eq!(usize_to_string(123456789), "123456789");
}

#[test]
fn proxy_endpoint_edge_ports() {
    let low = with_proxy_port(default_option(), 1);
    assert_eq!(low.proxy_server.as_deref(), Some("http://localhost:1"));
    let high = with_proxy_port(default_option(), 65535);
    assert_eq!(high.proxy_server.as_deref(), Some("http://localhost:65535"));
}
