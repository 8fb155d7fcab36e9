//! The decisions taken around talking to the cluster: which kubeconfig to
//! use, and how a failed access is reported.
use vstd::prelude::*;

verus! {

/// Errors that can occur when talking to the cluster.
pub enum K8sError {
    /// No usable configuration.
    ConfigError(String),
    /// The cluster could not be reached.
    ConnectionError(String),
    /// The cluster answered with a failure.
    ApiError(String),
    /// A resource does not exist.
    ResourceNotFound(String),
}

impl K8sError {
    /// The error as shown to a user: its kind, then its detail.
    pub fn to_text(&self) -> (r: String)
        ensures
            r@ == match self {
                K8sError::ConfigError(m) => "Configuration error: "@ + m@,
                K8sError::ConnectionError(m) => "Connection error: "@ + m@,
                K8sError::ApiError(m) => "API error: "@ + m@,
                K8sError::ResourceNotFound(m) => "Resource not found: "@ + m@,
            },
    {
        match self {
            K8sError::ConfigError(m) => String::from_str("Configuration error: ").concat(m.as_str()),
            K8sError::ConnectionError(m) => String::from_str("Connection error: ").concat(m.as_str()),
            K8sError::ApiError(m) => String::from_str("API error: ").concat(m.as_str()),
            K8sError::ResourceNotFound(m) => String::from_str("Resource not found: ").concat(m.as_str()),
        }
    }
}

/// The kubeconfig file under a home directory: `<home>/.kube/config`.
pub fn default_kubeconfig_path(home: &str) -> (r: String)
    ensures
        r@ == home@ + "/.kube/config"@,
{
    String::from_str(home).concat("/.kube/config")
}

/// Picks the kubeconfig file: the one named by the environment when set;
/// else the default one under `home`, when the home directory is known and
/// that file exists (`default_exists`).
pub fn choose_kubeconfig(from_env: Option<String>, home: Option<String>, default_exists: bool) -> (r: Result<String, K8sError>)
    ensures
        from_env is Some ==> (r matches Ok(q) && q@ == from_env->0@),
        from_env is None && home is None ==> (r matches Err(K8sError::ConfigError(m))
            && m@ == "Failed to get HOME directory"@),
        from_env is None && home is Some && !default_exists ==> (r matches Err(K8sError::ConfigError(m))
            && m@ == "No kubeconfig found at default location"@),
        from_env is None && home is Some && default_exists ==> (r matches Ok(q)
            && q@ == home->0@ + "/.kube/config"@),
{
    match from_env {
        Some(p) => Ok(p),
        None => match home {
            None => Err(K8sError::ConfigError(String::from_str("Failed to get HOME directory"))),
            Some(h) => {
                if default_exists {
                    Ok(default_kubeconfig_path(h.as_str()))
                } else {
                    Err(K8sError::ConfigError(String::from_str("No kubeconfig found at default location")))
                }
            },
        },
    }
}

/// The error for a failed access check: an API failure carries its message
/// and reason as `message (reason)`; anything else is a connection error.
pub fn access_error(api_failure: Option<(String, String)>) -> (r: K8sError)
    ensures
        api_failure matches Some(f) ==> r matches K8sError::ApiError(m) && m@ == f.0@ + " ("@ + f.1@ + ")"@,
        api_failure is None ==> (r matches K8sError::ConnectionError(m) && m@ == "Failed to connect to Kubernetes cluster"@),
{
    match api_failure {
        Some((message, reason)) => K8sError::ApiError(
            message.concat(" (").concat(reason.as_str()).concat(")"),
        ),
        None => K8sError::ConnectionError(String::from_str("Failed to connect to Kubernetes cluster")),
    }
}

} // verus!
