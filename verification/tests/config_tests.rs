use jwt_dropper::config::ConfigError;
use jwt_dropper::config::IssuanceConfig;
use jwt_dropper::config::default_workload_api_path;

#[test]
fn default_endpoint_is_the_well_known_socket() {
    assert_eq!(default_workload_api_path(), "unix:/var/run/spire-agent/api.sock");
}

#[test]
fn resolve_carries_all_three_values_verbatim() {
    let r = IssuanceConfig::resolve(
        Some("spiffe://example.org/workload".to_string()),
        Some("/run/creds/token.jwt".to_string()),
        Some("unix:/tmp/agent.sock".to_string()),
    );
    let c = r.expect("resolution must succeed on valid inputs");
    assert_eq!(c.audience, "spiffe://example.org/workload");
    assert_eq!(c.token_output_path, "/run/creds/token.jwt");
    assert_eq!(c.attestation_endpoint, "unix:/tmp/agent.sock");
}

#[test]
fn resolve_defaults_the_endpoint_when_unset() {
    let r = IssuanceConfig::resolve(
        Some("aud".to_string()),
        Some("/tmp/token".to_string()),
        None,
    );
    let c = r.expect("resolution must succeed on valid inputs");
    assert_eq!(c.attestation_endpoint, "unix:/var/run/spire-agent/api.sock");
}

#[test]
fn resolve_fails_when_audience_is_missing() {
    let r = IssuanceConfig::resolve(None, Some("/tmp/token".to_string()), None);
    assert_eq!(r.unwrap_err(), ConfigError::MissingAudience);
}

#[test]
fn resolve_fails_when_audience_is_empty() {
    let r = IssuanceConfig::resolve(
        Some(String::new()),
        Some("/tmp/token".to_string()),
        None,
    );
    assert_eq!(r.unwrap_err(), ConfigError::EmptyAudience);
}

#[test]
fn resolve_fails_when_output_path_is_missing() {
    let r = IssuanceConfig::resolve(Some("aud".to_string()), None, None);
    assert_eq!(r.unwrap_err(), ConfigError::MissingOutputPath);
}

#[test]
fn resolve_fails_when_output_path_is_empty() {
    let r = IssuanceConfig::resolve(
        Some("aud".to_string()),
        Some(String::new()),
        None,
    );
    assert_eq!(r.unwrap_err(), ConfigError::EmptyOutputPath);
}
