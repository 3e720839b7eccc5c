use personal_website::assets::{AssetInfo, AssetPaths};
use personal_website::blog::{InMemoryBlogRepository, RepositoryError};
use personal_website::config::{AppConfig, ConfigError, ConfigSettings, Environment};
use personal_website::models::{ApiResponse, CreateBlogPost};
use personal_website::security::{https_redirect_target, security_headers};
use personal_website::static_files::{
    content_type_for_extension, etag_for, etag_from_digest, get_content_type_and_cache,
};

fn unset() -> ConfigSettings {
    ConfigSettings {
        host: None,
        port: None,
        static_dir: None,
        templates_dir: None,
        database_url: None,
        environment: None,
        https_enabled: None,
        https_port: None,
        cert_path: None,
        key_path: None,
    }
}

#[test]
fn config_defaults() {
    let c = AppConfig::from_settings(unset()).unwrap();
    assert_eq!(c.host, "0.0.0.0");
    assert_eq!(c.port, 8000);
    assert_eq!(c.static_dir, "static");
    assert_eq!(c.templates_dir, "templates");
    assert_eq!(c.environment, Environment::Development);
    assert!(!c.https_enabled);
    assert_eq!(c.https_port, 8443);
    assert!(c.is_development());
    assert!(!c.should_force_https());
    assert_eq!(c.bind_address(), "0.0.0.0:8000");
    assert_eq!(c.https_bind_address(), "0.0.0.0:8443");
}

#[test]
fn config_production_with_https() {
    let mut s = unset();
    s.host = Some("127.0.0.1".to_string());
    s.port = Some("+80".to_string());
    s.environment = Some("production".to_string());
    s.https_enabled = Some("true".to_string());
    s.https_port = Some("443".to_string());
    let c = AppConfig::from_settings(s).unwrap();
    assert_eq!(c.port, 80);
    assert!(!c.is_development());
    assert!(c.should_force_https());
    assert_eq!(c.bind_address(), "127.0.0.1:80");
    assert_eq!(c.https_bind_address(), "127.0.0.1:443");
}

#[test]
fn config_https_flag_needs_exact_true() {
    let mut s = unset();
    s.environment = Some("Production".to_string());
    s.https_enabled = Some("yes".to_string());
    let c = AppConfig::from_settings(s).unwrap();
    assert_eq!(c.environment, Environment::Development);
    assert!(!c.https_enabled);
}

#[test]
fn config_rejects_bad_ports() {
    let mut s = unset();
    s.port = Some("65536".to_string());
    assert_eq!(AppConfig::from_settings(s).unwrap_err(), ConfigError::InvalidPort);
    let mut s = unset();
    s.port = Some("80a".to_string());
    assert_eq!(AppConfig::from_settings(s).unwrap_err(), ConfigError::InvalidPort);
    let mut s = unset();
    s.https_port = Some("".to_string());
    assert_eq!(AppConfig::from_settings(s).unwrap_err(), ConfigError::InvalidHttpsPort);
    let mut s = unset();
    s.port = Some("65535".to_string());
    assert_eq!(AppConfig::from_settings(s).unwrap().port, 65535);
}

#[test]
fn content_types_by_extension() {
    assert_eq!(
        get_content_type_and_cache("images/photo.webp"),
        ("image/webp", "public, max-age=31536000, immutable")
    );
    assert_eq!(
        get_content_type_and_cache("a/b/c.JPEG"),
        ("application/octet-stream", "public, max-age=3600")
    );
    assert_eq!(
        get_content_type_and_cache("site.webmanifest"),
        ("application/manifest+json", "public, max-age=3600")
    );
    assert_eq!(
        get_content_type_and_cache("noext"),
        ("application/octet-stream", "public, max-age=3600")
    );
    assert_eq!(
        content_type_for_extension("jpg"),
        ("image/jpeg", "public, max-age=31536000, immutable")
    );
    assert_eq!(
        content_type_for_extension("json"),
        ("application/json; charset=utf-8", "public, max-age=3600")
    );
}

#[test]
fn etag_is_quoted_md5() {
    assert_eq!(etag_for(b""), "\"d41d8cd98f00b204e9800998ecf8427e\"");
    assert_eq!(etag_for(b"abc"), "\"900150983cd24fb0d6963f7d28e17f72\"");
    assert_eq!(etag_from_digest(&[0x00, 0x0f, 0xa0, 0xff]), "\"000fa0ff\"");
}

fn entry(file: &str) -> AssetInfo {
    AssetInfo { file: file.to_string(), src: None, is_entry: Some(true), imports: None, css: None }
}

#[test]
fn asset_paths_from_manifest() {
    let d = AssetPaths::default();
    assert_eq!(d.css_main, "/static/css/style.css");
    assert_eq!(d.js_polyfills_legacy, "/static/js/polyfills-legacy.js");
    let entries = vec![
        ("js/main.js".to_string(), entry("assets/main-abc.js")),
        ("css/style.css".to_string(), entry("assets/style-def.css")),
        ("unknown.js".to_string(), entry("assets/other.js")),
        ("../vite/legacy-polyfills-legacy".to_string(), entry("assets/poly.js")),
    ];
    let p = AssetPaths::from_manifest(&entries);
    assert_eq!(p.js_main, "/static/assets/main-abc.js");
    assert_eq!(p.css_main, "/static/assets/style-def.css");
    assert_eq!(p.js_polyfills_legacy, "/static/assets/poly.js");
    assert_eq!(p.js_three_scene, "/static/js/threeScene.js");
    assert_eq!(p.js_main_legacy, "/static/js/main-legacy.js");
}

#[test]
fn https_redirects() {
    assert_eq!(https_redirect_target(false, None, None, None, "/"), None);
    assert_eq!(
        https_redirect_target(true, Some("https".to_string()), None, None, "/"),
        None
    );
    assert_eq!(
        https_redirect_target(true, None, Some("https".to_string()), None, "/"),
        None
    );
    assert_eq!(
        https_redirect_target(true, Some("http".to_string()), Some("https".to_string()), Some("dav88.dev".to_string()), "/api/cv?x=1"),
        Some("https://dav88.dev/api/cv?x=1".to_string())
    );
    assert_eq!(
        https_redirect_target(true, None, None, None, "/a"),
        Some("https://localhost/a".to_string())
    );
    let h = security_headers();
    assert_eq!(h.len(), 6);
    assert_eq!(h[2], ("x-frame-options", "DENY"));
}

#[test]
fn api_response_envelopes() {
    let ok = ApiResponse::success(5u32);
    assert!(ok.success);
    assert_eq!(ok.data, Some(5));
    assert_eq!(ok.message, None);
    let err: ApiResponse<u32> = ApiResponse::error("boom".to_string());
    assert!(!err.success);
    assert_eq!(err.data, None);
    assert_eq!(err.message, Some("boom".to_string()));
}

#[test]
fn blog_store_is_empty() {
    let repo = InMemoryBlogRepository::new();
    assert!(repo.get_all_posts().is_empty());
    assert!(repo.get_published_posts().is_empty());
    assert!(repo.get_post_by_slug("x").is_none());
    assert!(repo.get_post_by_id(uuid::Uuid::nil()).is_none());
    assert!(!repo.delete_post(uuid::Uuid::nil()));
    let post = CreateBlogPost {
        title: "t".to_string(),
        content: "c".to_string(),
        excerpt: None,
        published: true,
        tags: vec![],
    };
    assert_eq!(repo.create_post(post).unwrap_err(), RepositoryError::NotImplemented);
}
