//! A small TLS-terminating HTTPS server, as a verified library.
//!
//! The library holds the decisions of the server: the single route it
//! answers, the session-ticket policy, how the certificate bundle and the
//! TLS configuration are assembled, and the life cycle of one connection.
//! Sockets, tasks and the HTTP framing are driven by the binary around it.
mod certs;
mod error;
mod handler;
mod lifecycle;
mod ticket;
mod tls;

pub use certs::{
    bundle_of, host_identities, host_names, key_view, kind_code, load_bundle, pem_certificates_of,
    pem_private_key_of, provision, CertBundle, KeyKind, PrivateKey,
};
pub use error::{error, ServerError};
pub use handler::{echo, is_root_get, success_body, Reply, NOT_FOUND, OK};
pub use lifecycle::{
    is_terminal, lemma_errors_end_the_connection, lemma_terminal_is_final, next, run, step,
    ConnAction, ConnEvent, ConnState,
};
pub use ticket::{
    issued_ticket, lemma_issued_ticket_never_resumes, lemma_tickets_ignore_state, opened_ticket,
    TicketProducer, TICKET_LEN,
};
pub use tls::{
    alpn_priority, alpn_protocols, bundle_accepted, configure, server_config,
    single_cert_accepted, startup_config,
};
