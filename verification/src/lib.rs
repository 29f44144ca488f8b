//! A round-robin reverse-proxy core: upstream selection, forwarded-target
//! construction, startup validation, TLS context assembly, and the
//! per-connection serving state machine.
use vstd::prelude::*;

mod config;
mod conn;
mod errors;
mod forward;
mod laws;
mod pool;
mod selector;
mod tls;

pub use config::StartupPlan;
pub use config::default_port;
pub use config::parse_port;
pub use config::parse_upstream_list;
pub use config::plan_startup;
pub use config::spec_port;
pub use config::spec_trim;
pub use config::spec_upstream_list;
pub use config::strings_view;
pub use config::trim_str;
pub use conn::ConnAction;
pub use conn::ConnEvent;
pub use conn::ConnPhase;
pub use conn::TransportMode;
pub use conn::conn_step;
pub use conn::lemma_closed_is_final;
pub use conn::lemma_forward_only_while_serving;
pub use conn::phase_after_accept;
pub use conn::spec_conn_step;
pub use errors::ForwardError;
pub use errors::StartupError;
pub use errors::TlsError;
pub use forward::ForwardPlan;
pub use forward::build_target;
pub use forward::plan_forward;
pub use forward::plan_forward_drawn;
pub use forward::spec_target;
pub use forward::uri_parses;
pub use laws::draws;
pub use laws::hits;
pub use laws::lemma_draws_unique;
pub use laws::lemma_round_robin_fairness;
pub use pool::UpstreamPool;
pub use selector::RoundRobin;
pub use selector::rr_index;
pub use tls::TlsContext;
pub use tls::load_tls_context;
pub use tls::pem_certs;
pub use tls::pem_pkcs8_keys;
pub use tls::single_cert_ok;
