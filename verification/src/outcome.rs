//! What comes of a fetch.

use std::path::PathBuf;
use vstd::prelude::*;

use crate::ref_map::RefMap;
use crate::session::{Handshake, Session};

verus! {

/// Information about the negotiation phase of a fetch.
///
/// Note that negotiation can happen even if no pack is ultimately produced.
#[derive(Debug, Clone)]
pub struct Negotiate<S: Session> {
    /// The negotiation graph indicating what kind of information 'the algorithm' collected in the end.
    pub graph: S::Graph,
    /// Additional information for each round of negotiation.
    pub rounds: Vec<S::Round>,
}

impl<S: Session> Default for Negotiate<S> where S::Graph: Default {
    fn default() -> (negotiate: Self)
        ensures
            call_ensures(S::Graph::default, (), negotiate.graph),
            negotiate.rounds@ == Seq::<S::Round>::empty(),
    {
        Negotiate { graph: S::Graph::default(), rounds: Vec::new() }
    }
}

/// The version of a pack index.
#[derive(Clone, Copy, Debug, PartialEq, Eq, Structural)]
pub enum IndexVersion {
    /// The first version.
    V1,
    /// The second version.
    V2,
}

/// The version of a pack.
#[derive(Clone, Copy, Debug, PartialEq, Eq, Structural)]
pub enum PackVersion {
    /// The second version.
    V2,
    /// The third version.
    V3,
}

/// Information collected while writing the index of a pack.
#[derive(Debug)]
pub struct PackIndex {
    /// The version of the index.
    pub index_version: IndexVersion,
    /// The checksum of the index.
    pub index_hash: gix_hash::ObjectId,
    /// The checksum of the pack.
    pub data_hash: gix_hash::ObjectId,
    /// The amount of objects in the pack.
    pub num_objects: u32,
}

impl Clone for PackIndex {
    fn clone(&self) -> (index: Self)
        ensures
            index == *self,
    {
        PackIndex {
            index_version: self.index_version,
            index_hash: self.index_hash,
            data_hash: self.data_hash,
            num_objects: self.num_objects,
        }
    }
}

/// Information collected while writing a pack and its index.
#[derive(Debug)]
pub struct PackBundle {
    /// What is known about the index.
    pub index: PackIndex,
    /// The version of the pack.
    pub pack_version: PackVersion,
    /// The kind of hash within the pack and its index.
    pub object_hash: gix_hash::Kind,
    /// Where the index is.
    pub index_path: Option<PathBuf>,
    /// Where the pack is.
    pub data_path: Option<PathBuf>,
    /// Where the file is that keeps the pack from being collected until references point to it, if it still exists.
    pub keep_path: Option<PathBuf>,
}

impl Clone for PackBundle {
    fn clone(&self) -> (bundle: Self)
        ensures
            bundle.index == self.index,
            bundle.pack_version == self.pack_version,
            bundle.object_hash == self.object_hash,
            cloned(self.index_path, bundle.index_path),
            cloned(self.data_path, bundle.data_path),
            cloned(self.keep_path, bundle.keep_path),
    {
        PackBundle {
            index: self.index.clone(),
            pack_version: self.pack_version,
            object_hash: self.object_hash,
            index_path: self.index_path.clone(),
            data_path: self.data_path.clone(),
            keep_path: self.keep_path.clone(),
        }
    }
}

/// Information collected while updating references.
#[derive(Debug, Clone)]
pub struct UpdateOutcome<S: Session> {
    /// All changes to local references.
    pub edits: Vec<S::RefEdit>,
    /// What became of each mapping.
    pub updates: Vec<S::RefUpdate>,
}

/// The status of the repository after the fetch operation
#[derive(Debug, Clone)]
pub enum Status<S: Session> {
    /// Nothing changed as the remote didn't have anything new compared to our tracking branches, thus no pack was received
    /// and no new object was added. A pack without objects counts as none.
    NoPackReceived {
        /// If `true`, we didn't receive a pack due to dry-run mode being enabled.
        dry_run: bool,
        /// Information about the pack negotiation phase if negotiation happened at all.
        ///
        /// It's possible that negotiation didn't have to happen as no reference of interest changed on the server.
        negotiate: Option<Negotiate<S>>,
        /// However, depending on the refspecs, references might have been updated nonetheless to point to objects as
        /// reported by the remote.
        update_refs: UpdateOutcome<S>,
    },
    /// There was at least one tip with a new object which we received.
    Change {
        /// Information about the pack negotiation phase.
        negotiate: Negotiate<S>,
        /// Information collected while writing the pack and its index.
        write_pack_bundle: PackBundle,
        /// Information collected while updating references.
        update_refs: UpdateOutcome<S>,
    },
}

/// The outcome of receiving a pack via [`Prepare::receive()`](crate::prepare::Prepare::receive).
#[derive(Debug, Clone)]
pub struct Outcome<S: Session> {
    /// The result of the initial mapping of references, the prerequisite for any fetch.
    pub ref_map: RefMap<S>,
    /// The outcome of the handshake with the server.
    pub handshake: Handshake<S>,
    /// The status of the operation to indicate what happened.
    pub status: Status<S>,
}

} // verus!
