//! A data store together with the server connection through which a pool
//! opens connections to it.

use std::sync::Arc;

use vstd::prelude::*;

use crate::data_store::DataStore;
use crate::server::ServerConnection;
use crate::shared::share;

verus! {

/// What a pool of data store connections needs: the data store, the server
/// connection to open connections through, and whether a connection is to
/// be released (not reused) when it goes back to the pool.
#[derive(Debug)]
pub struct ConnectableDataStore {
    pub data_store: Arc<DataStore>,
    pub server_connection: Arc<ServerConnection>,
    pub release_on_return_to_pool: bool,
}

impl ConnectableDataStore {
    pub fn new(
        data_store: &Arc<DataStore>,
        server_connection: &Arc<ServerConnection>,
        release_on_return_to_pool: bool,
    ) -> (r: ConnectableDataStore)
        ensures
            r.data_store == *data_store,
            r.server_connection == *server_connection,
            r.release_on_return_to_pool == release_on_return_to_pool,
    {
        ConnectableDataStore {
            data_store: share(data_store),
            server_connection: share(server_connection),
            release_on_return_to_pool,
        }
    }

    /// Whether a connection that goes back to the pool is to be dropped
    /// rather than kept for reuse.
    pub fn has_broken(&self) -> (r: bool)
        ensures
            r == self.release_on_return_to_pool,
    {
        self.release_on_return_to_pool
    }
}

} // verus!
