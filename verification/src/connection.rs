//! The connection to a remote.

use gix_refspec::RefSpec;
use gix_url::Url;
use vstd::prelude::*;

use crate::session::{Handshake, Session};

verus! {

/// A remote, as it is configured in the repository.
pub struct Remote<S: Session> {
    /// The name of the remote, or `None` if it is known by its location only.
    pub name: Option<Vec<u8>>,
    /// The location to fetch from, if there is one.
    pub url: Option<Url>,
    /// The refspecs for fetching.
    pub fetch_specs: Vec<RefSpec>,
    /// Which tags to fetch.
    pub fetch_tags: S::Tags,
}

/// A type to represent an ongoing connection to a remote host, typically with the connection already established.
///
/// It can be used to perform a variety of operations with the remote without worrying about protocol details,
/// much like a remote procedure call.
pub struct Connection<'a, S: Session> {
    /// The remote at the other end.
    pub remote: &'a Remote<S>,
    /// A custom way to obtain credentials.
    pub authenticate: Option<S::Credentials>,
    /// Configuration for the transport to use before the first handshake.
    pub transport_options: Option<S::TransportOptions>,
    /// The channel to the remote.
    pub transport: S::Transport,
    /// The result of the handshake, once it was done.
    pub handshake: Option<Handshake<S>>,
    /// Whether to trace each line that is sent or received.
    pub trace: bool,
}

/// Builder
impl<'a, S: Session> Connection<'a, S> {
    /// Set a custom credentials callback to provide credentials if the remotes require authentication.
    ///
    /// Otherwise, we will use the git configuration to perform the same task as the `git credential` helper program,
    /// which is calling other helper programs in succession while resorting to a prompt to obtain credentials from the
    /// user.
    pub fn with_credentials(self, helper: S::Credentials) -> (con: Self)
        ensures
            con == (Connection { authenticate: Some(helper), ..self }),
    {
        let mut con = self;
        con.authenticate = Some(helper);
        con
    }

    /// Provide configuration to be used before the first handshake is conducted.
    pub fn with_transport_options(self, config: S::TransportOptions) -> (con: Self)
        ensures
            con == (Connection { transport_options: Some(config), ..self }),
    {
        let mut con = self;
        con.transport_options = Some(config);
        con
    }
}

/// Mutation
impl<'a, S: Session> Connection<'a, S> {
    /// Like [`with_credentials()`](Self::with_credentials()), but without consuming the connection.
    pub fn set_credentials(&mut self, helper: S::Credentials) -> (con: &mut Self)
        ensures
            *con == (Connection { authenticate: Some(helper), ..*old(self) }),
            *final(self) == *final(con),
    {
        self.authenticate = Some(helper);
        self
    }

    /// Like [`with_transport_options()`](Self::with_transport_options()), but without consuming the connection.
    pub fn set_transport_options(&mut self, config: S::TransportOptions) -> (con: &mut Self)
        ensures
            *con == (Connection { transport_options: Some(config), ..*old(self) }),
            *final(self) == *final(con),
    {
        self.transport_options = Some(config);
        self
    }
}

/// Access
impl<'a, S: Session> Connection<'a, S> {
    /// Return the underlying remote that instantiate this connection.
    pub fn remote(&self) -> (remote: &'a Remote<S>)
        ensures
            remote == self.remote,
    {
        self.remote
    }

    /// Provide a mutable transport to allow interacting with it according to its actual type.
    /// Note that the caller _should not_ configure it, as this is asked for before performing
    /// the handshake. Instead, to bring in custom configuration, call
    /// [`with_transport_options()`](Connection::with_transport_options()).
    pub fn transport_mut(&mut self) -> (transport: &mut S::Transport)
        ensures
            *transport == old(self).transport,
            *final(self) == (Connection { transport: *final(transport), ..*old(self) }),
    {
        &mut self.transport
    }
}

/// Credentials and transport options can be set independently of each other, and nothing else changes with them.
pub proof fn law_settings_are_independent<'a, S: Session>(
    con: Connection<'a, S>,
    helper: S::Credentials,
    config: S::TransportOptions,
    set: Connection<'a, S>,
)
    ensures
        call_ensures(Connection::<'a, S>::with_credentials, (con, helper), set) ==> {
            &&& set.authenticate == Some(helper)
            &&& (Connection { authenticate: con.authenticate, ..set }) == con
        },
        call_ensures(Connection::<'a, S>::with_transport_options, (con, config), set) ==> {
            &&& set.transport_options == Some(config)
            &&& (Connection { transport_options: con.transport_options, ..set }) == con
        },
{
}

} // verus!
