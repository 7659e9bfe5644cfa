use vstd::prelude::*;
use rxqlite_client::{RXQLiteClient, RXQLiteClientBuilder};
use rxqlite_common::RSQliteClientTlsConfig;
use crate::options::{node_address, tls_view, RXQLiteConnectOptions, TlsConfig};

verus! {

#[verifier::external_type_specification]
#[verifier::external_body]
pub struct ExRXQLiteClient(RXQLiteClient);

/// A connection to one node of an rxqlite cluster: the client, and what it
/// was built from (the node's id, its `host:port` address and the TLS
/// settings, `None` for no TLS).
pub struct RXQLiteConnection {
    pub inner: RXQLiteClient,
    pub node_id: u64,
    pub node_addr: String,
    pub tls_config: Option<TlsConfig>,
}

/// A connection whose client is
/// `RXQLiteClientBuilder::new(node_id, node_addr).tls_config(tls).build()`,
/// with `tls` handed over as the client library's `RSQliteClientTlsConfig`
/// (the same certificate files and choice about invalid certificates), and
/// which keeps those three arguments. The builder keeps the node id and
/// address and turns TLS on exactly when settings are given, accepting
/// invalid certificates as they say. Building sets up an HTTP client and
/// panics only where its TLS backend or resolver cannot be set up, which no
/// argument decides. The client itself is opaque here.
#[verifier::external_body]
fn open_connection(node_id: u64, node_addr: String, tls: Option<TlsConfig>) -> (c:
    RXQLiteConnection)
    ensures
        c.node_id == node_id,
        c.node_addr@ == node_addr@,
        tls_view(c.tls_config) == tls_view(tls),
{
    let handed = match &tls {
        Some(t) => Some(RSQliteClientTlsConfig {
            cert_paths: t.cert_paths.clone(),
            accept_invalid_certificates: t.accept_invalid_certificates,
        }),
        None => None,
    };
    let builder = RXQLiteClientBuilder::new(node_id, node_addr.clone());
    let inner = builder.tls_config(handed).build();
    RXQLiteConnection { inner, node_id, node_addr, tls_config: tls }
}

impl RXQLiteConnection {
    /// Opens a connection to the node that `options` describe: a client for
    /// the node's id at `host:port`, with the options' TLS settings (none:
    /// no TLS). No request is sent, so it returns `Ok` whenever it returns.
    pub fn establish(options: &RXQLiteConnectOptions) -> (r: Result<RXQLiteConnection, String>)
        ensures
            r is Ok,
            r->Ok_0.node_id == options.node_id,
            r->Ok_0.node_addr@ == node_address(options@),
            tls_view(r->Ok_0.tls_config) == options@.tls,
    {
        let node_addr = options.node_addr();
        let tls = match &options.tls_config {
            Some(cfg) => Some(cfg.duplicate()),
            None => None,
        };
        Ok(open_connection(options.node_id, node_addr, tls))
    }
}

} // verus!
