use vstd::prelude::*;

verus! {

#[verifier::external_type_specification]
#[verifier::external_body]
#[verifier::reject_recursive_types(TSender)]
pub struct ExClient<TSender>(elastic::client::Client<TSender>);

#[verifier::external_type_specification]
#[verifier::external_body]
pub struct ExSyncSender(elastic::http::sender::SyncSender);

#[verifier::external_type_specification]
#[verifier::external_body]
pub struct ExError(elastic::Error);

/// Why a connection handle could not be set up.
#[derive(Debug)]
pub enum ClientError {
    /// The HTTP layer underneath the client could not be built.
    Build,
}

/// A configured client for one Elasticsearch node, shared by every connector
/// that talks to that node. Nothing in it changes after construction.
pub struct EsClient {
    pub client: elastic::SyncClient,
}

/// Relies on `SyncClientBuilder::static_node` and `SyncClientBuilder::build` of
/// elastic: a client for the single node `es_host`, or the error of building
/// its HTTP layer.
#[verifier::external_body]
fn build_sync_client(es_host: &str) -> (r: Result<elastic::SyncClient, elastic::Error>) {
    elastic::client::SyncClientBuilder::new().static_node(es_host.to_string()).build()
}

impl EsClient {
    /// Returns a handle whose client sends every request to `es_host`
    /// (a `host:port` pair or a URL), or `ClientError::Build` when the HTTP
    /// layer cannot be set up.
    pub fn new(es_host: &str) -> (r: Result<EsClient, ClientError>)
        ensures
            r is Err ==> r->Err_0 == ClientError::Build,
    {
        match build_sync_client(es_host) {
            Ok(client) => Ok(EsClient { client }),
            Err(_) => Err(ClientError::Build),
        }
    }
}

} // verus!
