//! The references of a remote, how to list them, and how that fails.

use gix_refspec::RefSpec;
use gix_transport::client::Error as ClientError;
use vstd::prelude::*;

use crate::session::Session;

verus! {

/// How talking to a remote fails, as `gix_transport` has it.
#[verifier::external_type_specification]
#[verifier::external_body]
pub struct ExClientError(ClientError);

/// What `gix_transport::IsSpuriousError::is_spurious()` returns for `err`.
pub uninterp spec fn is_spurious_client_error(err: ClientError) -> bool;

/// Call `gix_transport::IsSpuriousError::is_spurious()` on `err`.
///
/// The result depends on the variant of `err` and on the kind of the I/O error that it wraps, if any.
#[verifier::external_body]
fn client_error_is_spurious(err: &ClientError) -> (spurious: bool)
    ensures
        spurious == is_spurious_client_error(*err),
{
    gix_transport::IsSpuriousError::is_spurious(err)
}

/// How a handshake fails.
#[derive(Debug)]
pub struct HandshakeFailure<S: Session> {
    /// What went wrong.
    pub source: S::Failure,
    /// Whether trying again might turn out differently.
    pub spurious: bool,
}

/// How obtaining references fails once the handshake is done.
#[derive(Debug)]
pub enum RefsFailure<S: Session> {
    /// What the server said does not make sense, or does not go together with the refspecs.
    InitRefMap(S::Failure),
    /// The server could not be talked to.
    Transport(ClientError),
}

/// The error of listing the references of a remote.
#[derive(Debug)]
pub enum Error<S: Session> {
    /// It could not be determined which references to ask for, or how those that the server has map to local ones.
    InitRefMap(S::Failure),
    /// The configuration of the transport could not be obtained.
    GatherTransportConfig {
        /// Where the transport connects to.
        url: Vec<u8>,
        /// What went wrong.
        source: S::Failure,
    },
    /// The transport refused its configuration.
    ConfigureTransport(S::Failure),
    /// The handshake failed.
    Handshake(HandshakeFailure<S>),
    /// The server could not be talked to.
    Transport(ClientError),
    /// The helpers to obtain credentials from could not be determined.
    ConfigureCredentials(S::Failure),
}

impl<S: Session> Error<S> {
    /// Whether trying again might turn out differently, if `transport_error_is_spurious` says so of a
    /// transport error.
    pub open spec fn spurious_given(&self, transport_error_is_spurious: bool) -> bool {
        match self {
            Error::Transport(_) => transport_error_is_spurious,
            Error::Handshake(err) => err.spurious,
            _ => false,
        }
    }

    /// Whether trying again might turn out differently.
    pub open spec fn spurious(&self) -> bool {
        self.spurious_given(self is Transport && is_spurious_client_error(self->Transport_0))
    }

    /// Return `true` if trying again might turn out differently, with `transport_error_is_spurious`
    /// being decisive for a transport error.
    pub fn is_spurious_given(&self, transport_error_is_spurious: bool) -> (spurious: bool)
        ensures
            spurious == self.spurious_given(transport_error_is_spurious),
            self is Transport ==> spurious == transport_error_is_spurious,
            self matches Error::Handshake(err) ==> spurious == err.spurious,
            !(self is Transport || self is Handshake) ==> !spurious,
    {
        match self {
            Error::Transport(_) => transport_error_is_spurious,
            Error::Handshake(err) => err.spurious,
            _ => false,
        }
    }

    /// Return `true` if trying again might turn out differently.
    pub fn is_spurious(&self) -> (spurious: bool)
        ensures
            spurious == self.spurious(),
            self matches Error::Transport(err) ==> spurious == is_spurious_client_error(*err),
            self matches Error::Handshake(err) ==> spurious == err.spurious,
            !(self is Transport || self is Handshake) ==> !spurious,
    {
        let transport_error_is_spurious = match self {
            Error::Transport(err) => client_error_is_spurious(err),
            _ => false,
        };
        self.is_spurious_given(transport_error_is_spurious)
    }
}

/// How to list the references of a remote.
#[derive(Debug, Clone)]
pub struct Options {
    /// Use a two-component prefix derived from the ref-spec's source, like `refs/heads/`  to let the server pre-filter refs
    /// with great potential for savings in traffic and local CPU time. Defaults to `true`.
    pub prefix_from_spec_as_filter_on_remote: bool,
    /// Parameters in the form of `(name, optional value)` to add to the handshake.
    ///
    /// This is useful in case of custom servers.
    pub handshake_parameters: Vec<(String, Option<String>)>,
    /// A list of refspecs to use as implicit refspecs which won't be saved or otherwise be part of the remote in question.
    ///
    /// This is useful for handling `remote.<name>.tagOpt` for example.
    pub extra_refspecs: Vec<RefSpec>,
}

impl Default for Options {
    fn default() -> (options: Self)
        ensures
            options.prefix_from_spec_as_filter_on_remote,
            options.handshake_parameters@ == Seq::<(String, Option<String>)>::empty(),
            options.extra_refspecs@ == Seq::<RefSpec>::empty(),
    {
        Options {
            prefix_from_spec_as_filter_on_remote: true,
            handshake_parameters: Vec::new(),
            extra_refspecs: Vec::new(),
        }
    }
}

/// The references of a remote, and how they map to local ones.
#[derive(Debug)]
pub struct RefMap<S: Session> {
    /// The associations of remote references with local ones.
    pub mappings: Vec<S::Mapping>,
    /// The refspecs that the remote is configured with.
    pub refspecs: Vec<RefSpec>,
    /// The refspecs that were used in addition.
    pub extra_refspecs: Vec<RefSpec>,
    /// All references that the remote told about.
    pub remote_refs: Vec<S::RemoteRef>,
    /// The kind of hash that the remote uses.
    pub object_hash: gix_hash::Kind,
    /// Whether there is a refspec that asks for a particular reference which the remote does not have.
    pub missing_required_mapping: bool,
}

impl<S: Session> Clone for RefMap<S> {
    fn clone(&self) -> (ref_map: Self)
        ensures
            cloned(self.mappings, ref_map.mappings),
            cloned(self.refspecs, ref_map.refspecs),
            cloned(self.extra_refspecs, ref_map.extra_refspecs),
            cloned(self.remote_refs, ref_map.remote_refs),
            ref_map.object_hash == self.object_hash,
            ref_map.missing_required_mapping == self.missing_required_mapping,
    {
        RefMap {
            mappings: self.mappings.clone(),
            refspecs: self.refspecs.clone(),
            extra_refspecs: self.extra_refspecs.clone(),
            remote_refs: self.remote_refs.clone(),
            object_hash: self.object_hash,
            missing_required_mapping: self.missing_required_mapping,
        }
    }
}

impl<S: Session> RefMap<S> {
    /// Return `true` if there is a refspec that asks for a particular reference which the remote does not have.
    pub fn is_missing_required_mapping(&self) -> (missing: bool)
        ensures
            missing == self.missing_required_mapping,
    {
        self.missing_required_mapping
    }
}

/// An error is spurious only if talking to the server or the handshake failed, and then exactly if that failure is.
pub proof fn law_spurious_errors<S: Session>(err: Error<S>)
    ensures
        match err {
            Error::Transport(source) => err.spurious() == is_spurious_client_error(source),
            Error::Handshake(failure) => err.spurious() == failure.spurious,
            Error::InitRefMap(_) | Error::GatherTransportConfig { .. }
            | Error::ConfigureTransport(_) | Error::ConfigureCredentials(_) => !err.spurious(),
        },
        forall|given: bool|
            err is Transport ==> #[trigger] err.spurious_given(given) == given,
        forall|given: bool|
            !(err is Transport) ==> #[trigger] err.spurious_given(given) == err.spurious(),
{
}

} // verus!
