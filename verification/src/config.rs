//! Configuration resolution: turns the raw environment values into a
//! validated issuance configuration, or reports exactly why it cannot.

use vstd::prelude::*;
use vstd::string::StringExecFns;

verus! {

/// The attestation endpoint assumed when the environment names none.
pub open spec fn spec_default_workload_api_path() -> Seq<char> {
    "unix:/var/run/spire-agent/api.sock"@
}

/// Address of the local attestation endpoint used when the environment does
/// not set `workload_api_path`.
pub fn default_workload_api_path() -> (s: String)
    ensures
        s@ == spec_default_workload_api_path(),
{
    String::from_str("unix:/var/run/spire-agent/api.sock")
}

/// Why configuration resolution failed: a required key was absent or empty.
#[derive(Clone, Copy, Debug, PartialEq, Eq, Structural)]
pub enum ConfigError {
    MissingAudience,
    EmptyAudience,
    MissingOutputPath,
    EmptyOutputPath,
}

/// The validated configuration record: the audience to request, the file the
/// token is written to, and the attestation endpoint to connect to.
#[derive(Debug)]
pub struct IssuanceConfig {
    pub audience: String,
    pub token_output_path: String,
    pub attestation_endpoint: String,
}

/// Mathematical model of an [`IssuanceConfig`]: the three fields as
/// character sequences.
pub struct ConfigModel {
    pub audience: Seq<char>,
    pub token_output_path: Seq<char>,
    pub attestation_endpoint: Seq<char>,
}

impl View for IssuanceConfig {
    type V = ConfigModel;

    open spec fn view(&self) -> ConfigModel {
        ConfigModel {
            audience: self.audience@,
            token_output_path: self.token_output_path@,
            attestation_endpoint: self.attestation_endpoint@,
        }
    }
}

impl ConfigModel {
    /// A well-formed configuration has a non-empty audience and output path.
    pub open spec fn wf(self) -> bool {
        self.audience.len() > 0 && self.token_output_path.len() > 0
    }
}

/// What resolution returns for given environment values: the required keys
/// `jwt_aud` and `jwt_path` must be present and non-empty and are taken
/// verbatim; `workload_api_path` is taken verbatim when present and defaults
/// otherwise. Audience problems are reported before output-path problems.
pub open spec fn spec_resolve(
    jwt_aud: Option<Seq<char>>,
    jwt_path: Option<Seq<char>>,
    workload_api_path: Option<Seq<char>>,
) -> Result<ConfigModel, ConfigError> {
    match jwt_aud {
        None => Err(ConfigError::MissingAudience),
        Some(aud) => if aud.len() == 0 {
            Err(ConfigError::EmptyAudience)
        } else {
            match jwt_path {
                None => Err(ConfigError::MissingOutputPath),
                Some(path) => if path.len() == 0 {
                    Err(ConfigError::EmptyOutputPath)
                } else {
                    Ok(ConfigModel {
                        audience: aud,
                        token_output_path: path,
                        attestation_endpoint: match workload_api_path {
                            Some(endpoint) => endpoint,
                            None => spec_default_workload_api_path(),
                        },
                    })
                },
            }
        },
    }
}

impl IssuanceConfig {
    /// Resolves the configuration from the environment values handed in by
    /// the host: succeeds exactly when `jwt_aud` and `jwt_path` are present
    /// and non-empty, and then carries all three values verbatim (the
    /// endpoint defaulted when unset).
    pub fn resolve(
        jwt_aud: Option<String>,
        jwt_path: Option<String>,
        workload_api_path: Option<String>,
    ) -> (r: Result<IssuanceConfig, ConfigError>)
        ensures
            ({
                let m = spec_resolve(
                    jwt_aud.deep_view(),
                    jwt_path.deep_view(),
                    workload_api_path.deep_view(),
                );
                match r {
                    Ok(c) => m matches Ok(cm) && c@ == cm,
                    Err(e) => m matches Err(em) && e == em,
                }
            }),
    {
        let audience = match jwt_aud {
            None => {
                return Err(ConfigError::MissingAudience);
            },
            Some(aud) => aud,
        };
        if audience.as_str().is_empty() {
            return Err(ConfigError::EmptyAudience);
        }
        let token_output_path = match jwt_path {
            None => {
                return Err(ConfigError::MissingOutputPath);
            },
            Some(path) => path,
        };
        if token_output_path.as_str().is_empty() {
            return Err(ConfigError::EmptyOutputPath);
        }
        let attestation_endpoint = match workload_api_path {
            Some(endpoint) => endpoint,
            None => default_workload_api_path(),
        };
        Ok(IssuanceConfig { audience, token_output_path, attestation_endpoint })
    }
}

/// A resolved configuration is well formed: the required fields are
/// non-empty.
pub proof fn lemma_resolved_config_wf(
    jwt_aud: Option<Seq<char>>,
    jwt_path: Option<Seq<char>>,
    workload_api_path: Option<Seq<char>>,
)
    ensures
        spec_resolve(jwt_aud, jwt_path, workload_api_path) matches Ok(c) ==> c.wf(),
{
}

} // verus!
