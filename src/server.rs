use vstd::prelude::*;
use crate::middleware::{CorsPolicy, Stage, body_limit, cors_methods, cors_headers, cors_policy, pipeline, pipeline_stages, CORS_MAX_AGE_SECS};

verus! {

/// Paths of the PEM files of a TLS listener.
#[derive(Clone, Debug)]
pub struct TlsConfig {
    pub certs: String,
    pub key: String,
}

/// The settings that the transport reads from the configuration.
#[derive(Clone, Debug)]
pub struct ServerConfig {
    /// Largest request body accepted, in bytes.
    pub max_request_size: u32,
    /// TLS material; the listener is plain when there is none.
    pub tls: Option<TlsConfig>,
    /// Whether a process supervisor takes readiness notifications.
    pub notify_supervisor: bool,
}

/// Startup configuration errors; each one aborts startup.
#[derive(Clone, Copy, Debug, PartialEq, Eq, Structural)]
pub enum ConfigError {
    /// The maximum request size does not fit the platform's sizes.
    MaxRequestSize,
}

/// What the transport sets up before it serves.
#[derive(Clone, Debug)]
pub struct ServerPlan {
    /// Middleware stages, outermost first.
    pub stages: Vec<Stage>,
    pub cors: CorsPolicy,
    /// The TLS material to bind with, or `None` for a plain listener.
    pub tls: Option<TlsConfig>,
    pub notify_supervisor: bool,
}

/// Derives the serving plan from the configuration. Fails exactly when the
/// maximum request size cannot be a body limit on this platform.
pub fn plan_server(cfg: &ServerConfig) -> (r: Result<ServerPlan, ConfigError>)
    ensures
        r is Err <==> cfg.max_request_size as int > usize::MAX as int,
        r matches Err(e) ==> e == ConfigError::MaxRequestSize,
        r matches Ok(p) ==> {
            &&& p.stages@ == pipeline_stages(cfg.max_request_size as usize)
            &&& p.cors.allow_any_origin
            &&& p.cors.allowed_methods@ == cors_methods()
            &&& p.cors.allowed_headers@.map_values(|h: String| h@) == cors_headers()
            &&& p.cors.max_age_secs == CORS_MAX_AGE_SECS
            &&& p.tls is Some <==> cfg.tls is Some
            &&& (p.tls matches Some(t) ==> cfg.tls matches Some(c) && t.certs@ == c.certs@
                && t.key@ == c.key@)
            &&& p.notify_supervisor == cfg.notify_supervisor
        },
{
    match body_limit(cfg.max_request_size) {
        None => Err(ConfigError::MaxRequestSize),
        Some(limit) => {
            let tls = match &cfg.tls {
                Some(t) => Some(TlsConfig { certs: t.certs.clone(), key: t.key.clone() }),
                None => None,
            };
            Ok(
                ServerPlan {
                    stages: pipeline(limit),
                    cors: cors_policy(),
                    tls,
                    notify_supervisor: cfg.notify_supervisor,
                },
            )
        },
    }
}

} // verus!
