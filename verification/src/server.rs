//! The engine's local server and the connections made to it.
//!
//! The engine itself is driven by the caller; the types here hold what the
//! library knows of the server and decide what follows from the engine's
//! answers.

use std::sync::Arc;

use vstd::prelude::*;

use crate::error::Error;
use crate::parameters::Parameters;
use crate::role_creds::RoleCreds;
use crate::shared::share;

verus! {

/// A local server of the engine, started with some parameters, whose
/// default role is used for connections that name none.
#[derive(Debug)]
pub struct Server {
    pub default_role_creds: RoleCreds,
    pub parameters: Parameters,
    pub running: bool,
}

impl Server {
    /// A running server started without parameters.
    pub fn start(role_creds: RoleCreds) -> (r: Result<Server, Error>)
        ensures
            r matches Ok(s) && s.default_role_creds == role_creds && s.running
                && s.parameters@ == Map::<Seq<char>, Seq<char>>::empty(),
    {
        let parameters = Parameters::empty()?;
        Self::start_with_parameters(role_creds, &parameters)
    }

    /// A running server started with `params`.
    pub fn start_with_parameters(role_creds: RoleCreds, params: &Parameters) -> (r: Result<
        Server,
        Error,
    >)
        ensures
            r matches Ok(s) && s.default_role_creds == role_creds && s.running && s.parameters@
                == params@,
    {
        Ok(Server { default_role_creds: role_creds, parameters: params.clone(), running: true })
    }

    /// The role to create right after the start: the default role where the
    /// engine reports that it has no role yet, else none.
    pub fn first_role(&self, number_of_roles: u16) -> (r: Option<RoleCreds>)
        ensures
            number_of_roles == 0 ==> r == Some(self.default_role_creds),
            number_of_roles != 0 ==> r is None,
    {
        if number_of_roles == 0 {
            Some(self.default_role_creds.clone())
        } else {
            None
        }
    }

    /// The number of roles, as the engine reports it, in 16 bits: the
    /// reported count taken modulo 65536.
    pub fn get_number_of_local_server_roles(&self, reported: u64) -> (r: u16)
        ensures
            r == reported % 0x10000,
    {
        let r = reported as u16;
        assert(r == reported % 0x10000) by (bit_vector)
            requires
                r == reported as u16,
        ;
        r
    }

    /// The connection with `role_creds` to the server, where the engine
    /// opened one (`connected`); `CouldNotConnectToServer` where it did not.
    /// Whether the server still runs is the engine's to judge.
    pub fn connection(self: &Arc<Self>, role_creds: &RoleCreds, connected: bool) -> (r: Result<
        ServerConnection,
        Error,
    >)
        ensures
            connected ==> (r matches Ok(c) && c.role_creds == *role_creds && c.server == *self),
            !connected ==> (r matches Err(Error::CouldNotConnectToServer)),
    {
        if connected {
            Ok(ServerConnection { role_creds: role_creds.clone(), server: share(self) })
        } else {
            Err(Error::CouldNotConnectToServer)
        }
    }

    /// The connection with the server's default role, where the engine
    /// opened one; `CouldNotConnectToServer` where it did not.
    pub fn connection_with_default_role(self: &Arc<Self>, connected: bool) -> (r: Result<
        ServerConnection,
        Error,
    >)
        ensures
            connected ==> (r matches Ok(c) && c.role_creds == self.default_role_creds && c.server
                == *self),
            !connected ==> (r matches Err(Error::CouldNotConnectToServer)),
    {
        self.connection(&self.default_role_creds, connected)
    }

    /// Marks the server as stopped.
    pub fn stop(&mut self)
        ensures
            !final(self).running,
            final(self).default_role_creds == old(self).default_role_creds,
            final(self).parameters == old(self).parameters,
    {
        self.running = false;
    }
}

/// A connection to a server, made with a role.
#[derive(Debug)]
pub struct ServerConnection {
    pub role_creds: RoleCreds,
    pub server: Arc<Server>,
}

impl ServerConnection {
    /// The connection with `role_creds` to `server`, which is to be running.
    pub fn new(role_creds: RoleCreds, server: Arc<Server>) -> (r: ServerConnection)
        requires
            server.running,
        ensures
            r.role_creds == role_creds,
            r.server == server,
    {
        ServerConnection { role_creds, server }
    }

    /// The number of threads the engine reports, in 32 bits: the reported
    /// number taken modulo 2^32.
    pub fn get_number_of_threads(&self, reported: u64) -> (r: u32)
        ensures
            r == reported % 0x1_0000_0000,
    {
        let r = reported as u32;
        assert(r == reported % 0x1_0000_0000) by (bit_vector)
            requires
                r == reported as u32,
        ;
        r
    }
}

} // verus!
