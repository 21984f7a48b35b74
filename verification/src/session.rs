//! The values that travel through the library without being looked into.

use std::fmt::Debug;
use vstd::prelude::*;

verus! {

/// The kind of hash that names the objects of a repository, as `gix_hash` has it.
#[verifier::external_type_specification]
#[verifier::external_body]
pub struct ExKind(gix_hash::Kind);

/// The name of an object, as `gix_hash` has it.
#[verifier::external_type_specification]
#[verifier::external_body]
pub struct ExObjectId(gix_hash::ObjectId);

/// A path in the file system.
#[verifier::external_type_specification]
#[verifier::external_body]
pub struct ExPathBuf(std::path::PathBuf);

/// The types of the values that a connection carries on behalf of the program around it.
///
/// No decision depends on what such a value is, hence nothing is asked of these types, except that what is part of
/// an outcome or an error can be shown, and what is part of an outcome can be cloned.
pub trait Session: Sized + Debug + Clone {
    /// A function that obtains credentials.
    type Credentials;

    /// Configuration for the transport.
    type TransportOptions;

    /// The channel to the remote.
    type Transport;

    /// What the server said during the handshake, apart from the version of the protocol.
    type HandshakeDetails: Debug + Clone;

    /// Which tags to fetch.
    type Tags;

    /// The association of a remote reference with a local one.
    type Mapping: Debug + Clone;

    /// A reference of the remote.
    type RemoteRef: Debug + Clone;

    /// The operation that obtains the references of the remote once the handshake is done.
    type RefListing;

    /// The commit graph that was walked during negotiation.
    type Graph: Debug + Clone;

    /// What happened in one round of negotiation.
    type Round: Debug + Clone;

    /// A change to a local reference.
    type RefEdit: Debug + Clone;

    /// What became of one mapping when local references were updated.
    type RefUpdate: Debug + Clone;

    /// Why work outside of the library failed.
    type Failure: Debug;
}

/// The version of the protocol that the server speaks.
#[derive(Clone, Copy, Debug, PartialEq, Eq, Structural)]
pub enum Protocol {
    /// Like `V1`, but without showing capabilities.
    V0,
    /// The first version, which is stateful.
    V1,
    /// The version that is based on stateless commands.
    V2,
}

/// The service to ask a server for.
#[derive(Clone, Copy, Debug, PartialEq, Eq, Structural)]
pub enum Service {
    /// The server sends packs, for fetching.
    UploadPack,
    /// The server receives packs, for pushing.
    ReceivePack,
}

/// The result of the handshake with a server.
#[derive(Debug, Clone)]
pub struct Handshake<S: Session> {
    /// The version of the protocol that the server chose.
    pub server_protocol_version: Protocol,
    /// Everything else that the server said.
    pub details: S::HandshakeDetails,
}

/// Compare two kinds of hash with `gix_hash::Kind`'s `==`.
///
/// `gix_hash::Kind` is an enumeration without fields that derives its equality, thus two kinds
/// compare equal exactly if they are the same.
#[verifier::external_body]
pub(crate) fn same_hash_kind(a: &gix_hash::Kind, b: &gix_hash::Kind) -> (same: bool)
    ensures
        same == (*a == *b),
{
    a == b
}

} // verus!
