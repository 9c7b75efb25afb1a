use websocket::entities::system::{Environment, NotRecognized};
use websocket::settings::cert::{Certificate, Certificates};
use websocket::settings::web::WebSocketSettings;
use websocket::settings::{AppSettings, Protocol};
use websocket::text::push_decimal;

#[test]
fn environment_names_are_capitals() {
    assert_eq!(Environment::from_str("PRODUCTION"), Ok(Environment::Production));
    assert_eq!(Environment::from_str("STAGE"), Ok(Environment::Stage));
    assert_eq!(Environment::from_str("DEVELOPMENT"), Ok(Environment::Development));
    for name in ["", "production", "Stage", "DEVELOPMENT ", "PROD"] {
        assert_eq!(Environment::from_str(name), Err(NotRecognized));
    }
    assert_eq!(NotRecognized.message(), "environment not recognized");
    assert_eq!(Environment::default(), Environment::Production);
}

#[test]
fn certificate_defaults_to_no_path() {
    assert_eq!(Certificate::default().path, "");
    assert_eq!(Certificates::default().websocket.path, "");
}

#[test]
fn web_settings_fall_back_to_localhost_9002() {
    let settings = WebSocketSettings::from_env(None, None);
    assert_eq!(settings.host, "localhost");
    assert_eq!(settings.port, 9002);
    assert_eq!(settings.socket(), "localhost:9002");
    let settings = WebSocketSettings::from_env(Some("0.0.0.0".to_string()), None);
    assert_eq!(settings.socket(), "0.0.0.0:9002");
    let settings = WebSocketSettings::from_env(None, Some(80));
    assert_eq!(settings.socket(), "localhost:80");
    assert_eq!(settings.get_host(), "localhost");
    assert_eq!(*settings.get_port(), 80);
}

#[test]
fn socket_writes_the_port_in_decimal() {
    for port in [0u16, 7, 10, 99, 100, 1000, 9002, 65535] {
        let settings = WebSocketSettings { host: "h".to_string(), port };
        assert_eq!(settings.socket(), format!("h:{}", port));
    }
    let mut text = "x".to_string();
    push_decimal(&mut text, 405);
    assert_eq!(text, "x405");
}

#[test]
fn settings_without_a_file() {
    let settings =
        AppSettings::handle_environment(Environment::Stage, Some("example.org".to_string()), Some(8080)).unwrap();
    assert_eq!(settings.environment, Environment::Stage);
    assert_eq!(settings.web.socket(), "example.org:8080");
    assert_eq!(settings.certificates.websocket.path, "");
    let settings = AppSettings::handle_environment(Environment::Production, None, None).unwrap();
    assert_eq!(settings.environment, Environment::Production);
    assert_eq!(settings.web.socket(), "localhost:9002");
    assert!(AppSettings::handle_environment(Environment::Development, None, None).is_none());
}

#[test]
fn settings_from_a_file_keep_its_values() {
    let settings = AppSettings::read(
        WebSocketSettings { host: "127.0.0.1".to_string(), port: 1 },
        Certificates { websocket: Certificate { path: "/etc/cert.pem".to_string() } },
        Environment::Development,
    );
    assert_eq!(settings.web.host, "127.0.0.1");
    assert_eq!(settings.web.port, 1);
    assert_eq!(settings.certificates.websocket.path, "/etc/cert.pem");
    assert_eq!(settings.environment, Environment::Development);
    let settings = AppSettings::default();
    assert_eq!(settings.web.socket(), "localhost:9002");
    assert_eq!(settings.environment, Environment::Production);
}
