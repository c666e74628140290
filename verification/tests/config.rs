use taurus::config::Config;
use taurus::error::TaurusError;

#[test]
fn config_defaults() {
    let config = Config {
        port: None,
        certificate_file: None,
        certificate_password: String::from("hunter2"),
        static_root: None,
    };
    assert_eq!(config.port_or_default(), 1965);
    assert_eq!(config.certificate_file_or_default(), "/etc/taurus/identity.pfx");
    assert_eq!(config.static_root_or_default(), "/var/www/gemini");
}

#[test]
fn config_explicit_values_win() {
    let config = Config {
        port: Some(1970),
        certificate_file: Some(String::from("/tmp/id.pfx")),
        certificate_password: String::new(),
        static_root: Some(String::from("/srv/gemini")),
    };
    assert_eq!(config.port_or_default(), 1970);
    assert_eq!(config.certificate_file_or_default(), "/tmp/id.pfx");
    assert_eq!(config.static_root_or_default(), "/srv/gemini");
}

#[test]
fn error_messages() {
    assert_eq!(
        TaurusError::InvalidRequest(String::from("malformed request")).message(),
        "invalid request: malformed request"
    );
    assert_eq!(
        TaurusError::InvalidUnicode.message(),
        "invalid Unicode character in the input"
    );
    assert_eq!(
        TaurusError::BindFailed(String::from("denied")).message(),
        "failed to bind: denied"
    );
    assert_eq!(
        TaurusError::StreamReadFailed(String::from("reset")).message(),
        "could not read the stream"
    );
}
