//! Receiving a pack, and updating references with it.

use gix_refspec::RefSpec;
use std::path::PathBuf;
use vstd::prelude::*;

use crate::connection::Connection;
use crate::negotiate::{
    choose_algorithm, choose_reject_shallow, chosen_algorithm, chosen_reject_shallow, Algorithm,
    Alternates,
};
use crate::outcome::{IndexVersion, Negotiate, Outcome, PackBundle, Status, UpdateOutcome};
use crate::prepare::{DryRun, Prepare, WritePackedRefs};
use crate::ref_map::RefMap;
use crate::reflog::{RefLogMessage, RefLogMessageView};
use crate::session::{same_hash_kind, Handshake, Protocol, Session};
use crate::shallow::Shallow;

verus! {

/// The error of receiving a pack.
#[derive(Debug)]
pub enum Error<S: Session> {
    /// There is nothing on the remote that the refspecs ask for.
    NoMapping {
        /// All refspecs that were used, those of the remote first.
        refspecs: Vec<RefSpec>,
        /// The amount of references that the remote has.
        num_remote_refs: usize,
    },
    /// The remote names its objects in another way.
    IncompatibleObjectHash {
        /// The kind of hash of the repository.
        local: gix_hash::Kind,
        /// The kind of hash of the remote.
        remote: gix_hash::Kind,
    },
    /// The configuration on whether to reject shallow remotes is invalid.
    RejectShallowRemoteConfig(S::Failure),
    /// The configuration of the negotiation algorithm is invalid.
    NegotiationAlgorithmConfig(S::Failure),
    /// The alternates of the object database could not be determined.
    LoadAlternates(S::Failure),
    /// The configuration of the amount of threads for indexing is invalid.
    PackThreads(S::Failure),
    /// The configuration of the version of the pack index is invalid.
    PackIndexVersion(S::Failure),
    /// Negotiation, or receiving and writing the pack failed.
    Fetch(S::Failure),
    /// References could not be updated.
    UpdateRefs(S::Failure),
    /// The file that keeps the pack from being collected could not be removed.
    RemovePackKeepFile {
        /// Where the file is.
        path: PathBuf,
        /// What went wrong.
        source: S::Failure,
    },
}

/// How much to look after corruption while iterating a pack.
#[derive(Clone, Copy, Debug, PartialEq, Eq, Structural)]
pub enum IterationMode {
    /// Trust the checksum in the pack.
    AsIs,
    /// Fail if the checksum in the pack does not match its content.
    Verify,
    /// Make do with what is intact.
    Restore,
}

/// How to write a pack.
pub struct WritePackOptions {
    /// The amount of threads to use at most, with `None` for as many as there are cores.
    pub thread_limit: Option<usize>,
    /// The version of the index to write.
    pub index_version: IndexVersion,
    /// How much to look after corruption.
    pub iteration_mode: IterationMode,
    /// The kind of hash to use.
    pub object_hash: gix_hash::Kind,
}

/// Where a pack goes to once it arrives.
pub struct PackSink {
    /// Whether to leave the pack alone.
    pub dry_run: DryRun,
    /// How to write the pack otherwise.
    pub options: WritePackOptions,
    /// What is known about the pack that was written.
    pub bundle: Option<PackBundle>,
}

impl PackSink {
    /// Whether there is a pack only if writing one is allowed.
    pub open spec fn respects_dry_run(&self) -> bool {
        self.bundle is Some ==> self.dry_run == DryRun::No
    }

    /// Return the options to write an arriving pack with, or `None` if it must not be written.
    pub fn write_options(&self) -> (options: Option<&WritePackOptions>)
        ensures
            options == (match self.dry_run {
                DryRun::No => Some(&self.options),
                DryRun::Yes => None,
            }),
    {
        match self.dry_run {
            DryRun::No => Some(&self.options),
            DryRun::Yes => None,
        }
    }

    /// The sink after a pack was dealt with.
    pub open spec fn after<F>(self, written: Option<Result<PackBundle, F>>) -> Self {
        match written {
            Some(Ok(bundle)) => PackSink { bundle: Some(bundle), ..self },
            Some(Err(_)) => self,
            None => PackSink { bundle: None, ..self },
        }
    }

    /// Take note of what came of writing a pack, with `None` if it was not written.
    ///
    /// Return whether the rest of what the server sent may be read to its end.
    pub fn consume_pack<F>(&mut self, written: Option<Result<PackBundle, F>>) -> (may_read_to_end:
        Result<bool, F>)
        requires
            written is Some <==> old(self).dry_run == DryRun::No,
        ensures
            *final(self) == old(self).after(written),
            final(self).dry_run == old(self).dry_run,
            final(self).options == old(self).options,
            written matches Some(Ok(bundle)) ==> final(self).bundle == Some(bundle),
            written matches Some(Err(_)) ==> final(self).bundle == old(self).bundle,
            written is None ==> final(self).bundle is None,
            may_read_to_end == (match written {
                Some(Ok(_)) => Ok(true),
                Some(Err(err)) => Err(err),
                None => Ok(false),
            }),
    {
        match written {
            Some(Ok(bundle)) => {
                self.bundle = Some(bundle);
                Ok(true)
            },
            Some(Err(err)) => Err(err),
            None => {
                self.bundle = None;
                Ok(false)
            },
        }
    }
}

/// What came of negotiating with the server.
pub enum Received<S: Session> {
    /// A pack was written.
    Pack {
        /// What is known about the pack.
        bundle: PackBundle,
        /// How it was negotiated.
        negotiate: Negotiate<S>,
    },
    /// No pack was written.
    NoPack {
        /// How it was negotiated, if at all.
        negotiate: Option<Negotiate<S>>,
    },
}

/// Configuration of the negotiation.
pub struct FetchSettings {
    /// Whether to fail if the remote is shallow.
    pub reject_shallow_remote: bool,
    /// The algorithm for negotiation.
    pub algorithm: Algorithm,
    /// Object databases whose objects do not have to be fetched.
    pub alternates: Alternates,
}

/// How far receiving has come.
pub enum Phase<S: Session> {
    /// It has to be known whether to reject shallow remotes.
    RejectShallow,
    /// It has to be known how to negotiate.
    NegotiationAlgorithm {
        /// See [`FetchSettings::reject_shallow_remote`].
        reject_shallow_remote: bool,
    },
    /// Alternates have to be known.
    Alternates {
        /// See [`FetchSettings::reject_shallow_remote`].
        reject_shallow_remote: bool,
        /// See [`FetchSettings::algorithm`].
        algorithm: Algorithm,
    },
    /// The amount of threads has to be known.
    IndexThreads {
        /// How to negotiate.
        settings: FetchSettings,
    },
    /// The version of the index has to be known.
    IndexVersion {
        /// How to negotiate.
        settings: FetchSettings,
        /// See [`WritePackOptions::thread_limit`].
        thread_limit: Option<usize>,
    },
    /// Everything is there to fetch a pack.
    Fetch {
        /// How to negotiate.
        settings: FetchSettings,
        /// Where a pack goes to.
        sink: PackSink,
    },
    /// The server waits for more, but there is nothing left to say.
    EndInteraction {
        /// What came of the negotiation.
        received: Received<S>,
    },
    /// All objects are there, it is time to update references.
    UpdateRefs {
        /// What came of the negotiation.
        received: Received<S>,
    },
    /// The pack does not have to be kept from being collected anymore.
    RemoveKeepFile {
        /// Where the file is that keeps it.
        path: PathBuf,
        /// What is known about the pack.
        bundle: PackBundle,
        /// How it was negotiated.
        negotiate: Negotiate<S>,
        /// How references changed.
        update_refs: UpdateOutcome<S>,
    },
}

/// What has to be done next.
pub enum Request<'m, S: Session> {
    /// Look up whether the configuration wants to reject shallow remotes.
    RejectShallowConfig,
    /// Look up the negotiation algorithm in the configuration.
    NegotiationAlgorithmConfig,
    /// Determine the paths of all alternates of the object database.
    LoadAlternates,
    /// Look up the amount of threads to use for indexing in the configuration.
    IndexThreadsConfig,
    /// Look up the version of the pack index in the configuration.
    IndexVersionConfig,
    /// Negotiate with the server, and have an arriving pack dealt with as `sink` says.
    Fetch {
        /// How to negotiate.
        settings: &'m FetchSettings,
        /// Where a pack goes to.
        sink: &'m PackSink,
        /// The references to fetch.
        ref_map: &'m RefMap<S>,
        /// How to change the shallow boundary.
        shallow: &'m Shallow,
        /// Which tags to fetch.
        tags: &'m S::Tags,
        /// Whether to trace each line that is sent or received.
        trace: bool,
    },
    /// Tell the server that there is nothing left to say. It does not matter if that fails.
    EndInteraction {
        /// Whether to trace each line that is sent or received.
        trace: bool,
    },
    /// Update local references.
    UpdateRefs {
        /// The message for the reflog.
        message: &'m RefLogMessage,
        /// Which local references to update, and with what.
        mappings: &'m Vec<S::Mapping>,
        /// The refspecs of the remote.
        refspecs: &'m Vec<RefSpec>,
        /// Refspecs that were used in addition.
        extra_refspecs: &'m Vec<RefSpec>,
        /// Which tags to fetch.
        tags: &'m S::Tags,
        /// Whether to leave references alone.
        dry_run: DryRun,
        /// Where to write references to.
        write_packed_refs: WritePackedRefs,
    },
    /// Remove a file.
    RemoveFile {
        /// Where the file is.
        path: &'m PathBuf,
    },
}

/// What came of a [`Request`].
pub enum Reply<S: Session> {
    /// The answer to [`Request::RejectShallowConfig`], with `None` if there is no such value.
    RejectShallow(Option<Result<bool, S::Failure>>),
    /// The answer to [`Request::NegotiationAlgorithmConfig`].
    NegotiationAlgorithm {
        /// The value, with `None` if there is none.
        configured: Option<Result<Algorithm, S::Failure>>,
        /// Whether the repository ignores invalid values.
        lenient: bool,
    },
    /// The answer to [`Request::LoadAlternates`].
    Alternates(Result<Vec<PathBuf>, S::Failure>),
    /// The answer to [`Request::IndexThreadsConfig`].
    IndexThreads(Result<Option<usize>, S::Failure>),
    /// The answer to [`Request::IndexVersionConfig`].
    IndexVersion(Result<IndexVersion, S::Failure>),
    /// The answer to [`Request::Fetch`], with `None` if there was no need to negotiate.
    Fetched(Result<Option<Negotiate<S>>, S::Failure>),
    /// The answer to [`Request::EndInteraction`].
    InteractionEnded(Result<(), S::Failure>),
    /// The answer to [`Request::UpdateRefs`].
    RefsUpdated(Result<UpdateOutcome<S>, S::Failure>),
    /// The answer to [`Request::RemoveFile`].
    FileRemoved(Result<(), S::Failure>),
}

/// A fetch in progress.
pub struct Receive<'a, S: Session> {
    /// The connection to receive from, whose handshake was moved to `handshake`.
    pub con: Connection<'a, S>,
    /// The result of the handshake.
    pub handshake: Handshake<S>,
    /// The references of the remote.
    pub ref_map: RefMap<S>,
    /// Whether to change the repository.
    pub dry_run: DryRun,
    /// The message for the reflog.
    pub message: RefLogMessage,
    /// Where to write references to.
    pub write_packed_refs: WritePackedRefs,
    /// How to change the shallow boundary.
    pub shallow: Shallow,
    /// The kind of hash of the repository.
    pub object_hash: gix_hash::Kind,
    /// How far it has come.
    pub phase: Phase<S>,
}

/// What negotiating with the server may change in place.
pub struct FetchWork<'m> {
    /// Object databases whose objects do not have to be fetched.
    pub alternates: &'m mut Alternates,
    /// Where a pack goes to, with [`PackSink::consume_pack()`] being the way to change it.
    pub sink: &'m mut PackSink,
}

/// What the work that a [`Request`] asks for may use, and change in place if it is mutable.
pub struct Work<'m, S: Session> {
    /// The channel to the remote.
    pub transport: &'m mut S::Transport,
    /// What the server said during the handshake.
    pub details: &'m mut S::HandshakeDetails,
    /// What is needed in addition while it is time to fetch a pack.
    pub fetch: Option<FetchWork<'m>>,
    /// The references of the remote.
    pub ref_map: &'m RefMap<S>,
    /// How to change the shallow boundary.
    pub shallow: &'m Shallow,
}

/// The state of affairs after a [`Reply`].
pub enum Progress<'a, S: Session> {
    /// There is more to do.
    Continue(Receive<'a, S>),
    /// The fetch ended.
    Finished(Result<Outcome<S>, Error<S>>),
}

impl<'a, S: Session> Prepare<'a, S> {
    /// Whether the connection and the handshake are there.
    pub open spec fn is_connected(&self) -> bool {
        self.con is Some && self.con->0.handshake is Some
    }

    /// Start to receive the pack and perform the operation as configured by git via `git-config` or overridden by various builder methods.
    ///
    /// `object_hash` is the kind of hash that the repository uses.
    /// The operation ends with an [`Outcome::status`] indicating if a change was made or not.
    pub fn receive(self, object_hash: gix_hash::Kind) -> (run: Result<Receive<'a, S>, Error<S>>)
        requires
            !self.ref_map.missing_required_mapping ==> self.is_connected(),
        ensures
            if self.ref_map.missing_required_mapping {
                &&& run matches Err(Error::NoMapping { refspecs, num_remote_refs })
                &&& refspecs@ == self.ref_map.refspecs@ + self.ref_map.extra_refspecs@
                &&& num_remote_refs == self.ref_map.remote_refs@.len()
            } else if self.ref_map.object_hash != object_hash {
                run == Err::<Receive<'a, S>, _>(
                    (Error::<S>::IncompatibleObjectHash {
                        local: object_hash,
                        remote: self.ref_map.object_hash,
                    }),
                )
            } else {
                run is Ok && run->Ok_0.is_start(self, object_hash)
            },
    {
        let Prepare { con, ref_map, dry_run, reflog_message, write_packed_refs, shallow } = self;
        if ref_map.is_missing_required_mapping() {
            let num_remote_refs = ref_map.remote_refs.len();
            let mut refspecs = ref_map.refspecs;
            let mut extra_refspecs = ref_map.extra_refspecs;
            refspecs.append(&mut extra_refspecs);
            return Err(Error::NoMapping { refspecs, num_remote_refs });
        }
        let mut con = con.unwrap();
        let handshake = con.handshake.take().unwrap();
        if !same_hash_kind(&ref_map.object_hash, &object_hash) {
            return Err(
                Error::IncompatibleObjectHash { local: object_hash, remote: ref_map.object_hash },
            );
        }
        let message = match reflog_message {
            Some(message) => message,
            None => RefLogMessage::of_fetch(),
        };
        Ok(
            Receive {
                con,
                handshake,
                ref_map,
                dry_run,
                message,
                write_packed_refs,
                shallow,
                object_hash,
                phase: Phase::RejectShallow,
            },
        )
    }
}

/// Whether the file that keeps a pack from being collected is not needed anymore, as references point to the
/// pack or there is nothing in it.
pub open spec fn is_keep_file_obsolete<S: Session>(
    bundle: PackBundle,
    update_refs: UpdateOutcome<S>,
) -> bool {
    update_refs.edits@.len() != 0 || bundle.index.num_objects == 0
}

/// The status once a pack was written. A pack without objects leaves nothing behind, hence it is none.
pub open spec fn changed<S: Session>(
    bundle: PackBundle,
    negotiate: Negotiate<S>,
    update_refs: UpdateOutcome<S>,
) -> Status<S> {
    if bundle.index.num_objects == 0 {
        Status::NoPackReceived { dry_run: false, negotiate: Some(negotiate), update_refs }
    } else {
        Status::Change { negotiate, write_pack_bundle: bundle, update_refs }
    }
}

/// Return the status once a pack was written.
fn status_of_pack<S: Session>(
    bundle: PackBundle,
    negotiate: Negotiate<S>,
    update_refs: UpdateOutcome<S>,
) -> (status: Status<S>)
    ensures
        status == changed(bundle, negotiate, update_refs),
{
    if bundle.index.num_objects == 0 {
        Status::NoPackReceived { dry_run: false, negotiate: Some(negotiate), update_refs }
    } else {
        Status::Change { negotiate, write_pack_bundle: bundle, update_refs }
    }
}

impl<'a, S: Session> Receive<'a, S> {
    /// Whether this is the start of receiving what was prepared.
    pub open spec fn is_start(self, prepare: Prepare<'a, S>, object_hash: gix_hash::Kind) -> bool {
        &&& self.con == (Connection { handshake: None, ..prepare.con->0 })
        &&& Some(self.handshake) == prepare.con->0.handshake
        &&& self.ref_map == prepare.ref_map
        &&& self.dry_run == prepare.dry_run
        &&& match prepare.reflog_message {
            Some(message) => self.message == message,
            None => self.message@ == RefLogMessageView::of_fetch(),
        }
        &&& self.write_packed_refs == prepare.write_packed_refs
        &&& self.shallow == prepare.shallow
        &&& self.object_hash == object_hash
        &&& self.phase == Phase::<S>::RejectShallow
    }

    /// What has to be done next.
    pub open spec fn requested(&self) -> Request<'_, S> {
        match &self.phase {
            Phase::RejectShallow => Request::RejectShallowConfig,
            Phase::NegotiationAlgorithm { .. } => Request::NegotiationAlgorithmConfig,
            Phase::Alternates { .. } => Request::LoadAlternates,
            Phase::IndexThreads { .. } => Request::IndexThreadsConfig,
            Phase::IndexVersion { .. } => Request::IndexVersionConfig,
            Phase::Fetch { settings, sink } => Request::Fetch {
                settings,
                sink,
                ref_map: &self.ref_map,
                shallow: &self.shallow,
                tags: &self.con.remote.fetch_tags,
                trace: self.con.trace,
            },
            Phase::EndInteraction { .. } => Request::EndInteraction { trace: self.con.trace },
            Phase::UpdateRefs { .. } => Request::UpdateRefs {
                message: &self.message,
                mappings: &self.ref_map.mappings,
                refspecs: &self.con.remote.fetch_specs,
                extra_refspecs: &self.ref_map.extra_refspecs,
                tags: &self.con.remote.fetch_tags,
                dry_run: self.dry_run,
                write_packed_refs: self.write_packed_refs,
            },
            Phase::RemoveKeepFile { path, .. } => Request::RemoveFile { path },
        }
    }

    /// The same fetch with another state of the transport.
    pub open spec fn with_transport(self, transport: S::Transport) -> Self {
        Receive { con: Connection { transport, ..self.con }, ..self }
    }

    /// The same fetch with other details of the handshake.
    pub open spec fn with_details(self, details: S::HandshakeDetails) -> Self {
        Receive { handshake: Handshake { details, ..self.handshake }, ..self }
    }

    /// The same fetch with other alternates, if it is time to negotiate.
    pub open spec fn with_alternates(self, alternates: Alternates) -> Self {
        match self.phase {
            Phase::Fetch { settings, sink } => Receive {
                phase: Phase::Fetch { settings: FetchSettings { alternates, ..settings }, sink },
                ..self
            },
            _ => self,
        }
    }

    /// The same fetch with another state of where a pack goes to, if it is time to negotiate.
    pub open spec fn with_sink(self, sink: PackSink) -> Self {
        match self.phase {
            Phase::Fetch { settings, .. } => Receive {
                phase: Phase::Fetch { settings, sink },
                ..self
            },
            _ => self,
        }
    }

    /// Return all that the pending work may use.
    pub fn work(&mut self) -> (work: Work<'_, S>)
        ensures
            *work.transport == old(self).con.transport,
            *work.details == old(self).handshake.details,
            work.fetch is Some <==> old(self).phase is Fetch,
            old(self).phase matches Phase::Fetch { settings, sink } ==> {
                &&& *work.fetch->0.alternates == settings.alternates
                &&& *work.fetch->0.sink == sink
            },
            *work.ref_map == old(self).ref_map,
            *work.shallow == old(self).shallow,
            *final(self) == ({
                let run = old(self).with_transport(*final(work.transport)).with_details(
                    *final(work.details),
                );
                if work.fetch is Some {
                    run.with_alternates(*final(work.fetch->0.alternates)).with_sink(
                        *final(work.fetch->0.sink),
                    )
                } else {
                    run
                }
            }),
    {
        let fetch = match &mut self.phase {
            Phase::Fetch { settings, sink } => Some(
                FetchWork { alternates: &mut settings.alternates, sink },
            ),
            _ => None,
        };
        Work {
            transport: &mut self.con.transport,
            details: &mut self.handshake.details,
            fetch,
            ref_map: &self.ref_map,
            shallow: &self.shallow,
        }
    }

    /// Return what has to be done next.
    pub fn request(&self) -> (request: Request<'_, S>)
        ensures
            request == self.requested(),
    {
        match &self.phase {
            Phase::RejectShallow => Request::RejectShallowConfig,
            Phase::NegotiationAlgorithm { .. } => Request::NegotiationAlgorithmConfig,
            Phase::Alternates { .. } => Request::LoadAlternates,
            Phase::IndexThreads { .. } => Request::IndexThreadsConfig,
            Phase::IndexVersion { .. } => Request::IndexVersionConfig,
            Phase::Fetch { settings, sink } => Request::Fetch {
                settings,
                sink,
                ref_map: &self.ref_map,
                shallow: &self.shallow,
                tags: &self.con.remote.fetch_tags,
                trace: self.con.trace,
            },
            Phase::EndInteraction { .. } => Request::EndInteraction { trace: self.con.trace },
            Phase::UpdateRefs { .. } => Request::UpdateRefs {
                message: &self.message,
                mappings: &self.ref_map.mappings,
                refspecs: &self.con.remote.fetch_specs,
                extra_refspecs: &self.ref_map.extra_refspecs,
                tags: &self.con.remote.fetch_tags,
                dry_run: self.dry_run,
                write_packed_refs: self.write_packed_refs,
            },
            Phase::RemoveKeepFile { path, .. } => Request::RemoveFile { path },
        }
    }

    /// Whether `reply` is possible: if there is a pack, there was negotiation.
    pub open spec fn is_possible(&self, reply: Reply<S>) -> bool {
        match (self.phase, reply) {
            (Phase::Fetch { sink, .. }, Reply::Fetched(Ok(None))) => sink.bundle is None,
            _ => true,
        }
    }

    /// The state of affairs in `phase`.
    pub open spec fn in_phase(self, phase: Phase<S>) -> Progress<'a, S> {
        Progress::Continue(Receive { phase, ..self })
    }

    /// The end of the fetch with `err`.
    pub open spec fn failed(self, err: Error<S>) -> Progress<'a, S> {
        Progress::Finished(Err(err))
    }

    /// The end of the fetch with `status`.
    pub open spec fn succeeded(self, status: Status<S>) -> Progress<'a, S> {
        Progress::Finished(
            Ok(Outcome { ref_map: self.ref_map, handshake: self.handshake, status }),
        )
    }

    /// The options to write a pack with.
    pub open spec fn write_pack_options(
        self,
        thread_limit: Option<usize>,
        index_version: IndexVersion,
    ) -> WritePackOptions {
        WritePackOptions {
            thread_limit,
            index_version,
            iteration_mode: IterationMode::Verify,
            object_hash: self.object_hash,
        }
    }

    /// What there is once the server was negotiated with.
    pub open spec fn received_with(
        bundle: Option<PackBundle>,
        negotiate: Option<Negotiate<S>>,
    ) -> Received<S> {
        match (bundle, negotiate) {
            (Some(bundle), Some(negotiate)) => Received::Pack { bundle, negotiate },
            _ => Received::NoPack { negotiate },
        }
    }

    /// The state of affairs once references were updated.
    pub open spec fn after_update(
        self,
        received: Received<S>,
        update_refs: UpdateOutcome<S>,
    ) -> Progress<'a, S> {
        match received {
            Received::Pack { bundle, negotiate } => match bundle.keep_path {
                Some(path) if is_keep_file_obsolete(bundle, update_refs) => self.in_phase(
                    Phase::RemoveKeepFile {
                        path,
                        bundle: PackBundle { keep_path: None, ..bundle },
                        negotiate,
                        update_refs,
                    },
                ),
                _ => self.succeeded(changed(bundle, negotiate, update_refs)),
            },
            Received::NoPack { negotiate } => self.succeeded(
                Status::NoPackReceived {
                    dry_run: self.dry_run == DryRun::Yes,
                    negotiate,
                    update_refs,
                },
            ),
        }
    }

    /// The state of affairs after `reply`. A reply to anything but the pending request changes nothing.
    pub open spec fn next(self, reply: Reply<S>) -> Progress<'a, S> {
        match (self.phase, reply) {
            (Phase::RejectShallow, Reply::RejectShallow(configured)) => {
                match chosen_reject_shallow(configured) {
                    Ok(reject_shallow_remote) => self.in_phase(
                        Phase::NegotiationAlgorithm { reject_shallow_remote },
                    ),
                    Err(err) => self.failed(Error::RejectShallowRemoteConfig(err)),
                }
            },
            (
                Phase::NegotiationAlgorithm { reject_shallow_remote },
                Reply::NegotiationAlgorithm { configured, lenient },
            ) => match chosen_algorithm(configured, lenient) {
                Ok(algorithm) => self.in_phase(
                    Phase::Alternates { reject_shallow_remote, algorithm },
                ),
                Err(err) => self.failed(Error::NegotiationAlgorithmConfig(err)),
            },
            (
                Phase::Alternates { reject_shallow_remote, algorithm },
                Reply::Alternates(alternates),
            ) => match alternates {
                Ok(paths) => self.in_phase(
                    Phase::IndexThreads {
                        settings: FetchSettings {
                            reject_shallow_remote,
                            algorithm,
                            alternates: Alternates { paths },
                        },
                    },
                ),
                Err(err) => self.failed(Error::LoadAlternates(err)),
            },
            (Phase::IndexThreads { settings }, Reply::IndexThreads(threads)) => match threads {
                Ok(thread_limit) => self.in_phase(Phase::IndexVersion { settings, thread_limit }),
                Err(err) => self.failed(Error::PackThreads(err)),
            },
            (Phase::IndexVersion { settings, thread_limit }, Reply::IndexVersion(version)) => {
                match version {
                    Ok(index_version) => self.in_phase(
                        Phase::Fetch {
                            settings,
                            sink: PackSink {
                                dry_run: self.dry_run,
                                options: self.write_pack_options(thread_limit, index_version),
                                bundle: None,
                            },
                        },
                    ),
                    Err(err) => self.failed(Error::PackIndexVersion(err)),
                }
            },
            (Phase::Fetch { sink, .. }, Reply::Fetched(fetched)) => match fetched {
                Ok(negotiate) => {
                    let received = Self::received_with(sink.bundle, negotiate);
                    if self.handshake.server_protocol_version == Protocol::V2 {
                        self.in_phase(Phase::EndInteraction { received })
                    } else {
                        self.in_phase(Phase::UpdateRefs { received })
                    }
                },
                Err(err) => self.failed(Error::Fetch(err)),
            },
            (Phase::EndInteraction { received }, Reply::InteractionEnded(_)) => self.in_phase(
                Phase::UpdateRefs { received },
            ),
            (Phase::UpdateRefs { received }, Reply::RefsUpdated(updated)) => match updated {
                Ok(update_refs) => self.after_update(received, update_refs),
                Err(err) => self.failed(Error::UpdateRefs(err)),
            },
            (
                Phase::RemoveKeepFile { path, bundle, negotiate, update_refs },
                Reply::FileRemoved(removed),
            ) => match removed {
                Ok(()) => self.succeeded(changed(bundle, negotiate, update_refs)),
                Err(source) => self.failed(Error::RemovePackKeepFile { path, source }),
            },
            _ => Progress::Continue(self),
        }
    }

    /// Go on with `phase`.
    fn go_on(self, phase: Phase<S>) -> (progress: Progress<'a, S>)
        ensures
            progress == self.in_phase(phase),
    {
        let mut run = self;
        run.phase = phase;
        Progress::Continue(run)
    }

    /// End with `status`.
    fn succeed(self, status: Status<S>) -> (progress: Progress<'a, S>)
        ensures
            progress == self.succeeded(status),
    {
        Progress::Finished(
            Ok(Outcome { ref_map: self.ref_map, handshake: self.handshake, status }),
        )
    }

    /// Go on once references were updated.
    fn finish_update(self, received: Received<S>, update_refs: UpdateOutcome<S>) -> (progress:
        Progress<'a, S>)
        ensures
            progress == self.after_update(received, update_refs),
    {
        match received {
            Received::Pack { bundle, negotiate } => {
                let mut bundle = bundle;
                if !update_refs.edits.is_empty() || bundle.index.num_objects == 0 {
                    if let Some(path) = bundle.keep_path.take() {
                        return self.go_on(
                            Phase::RemoveKeepFile { path, bundle, negotiate, update_refs },
                        );
                    }
                }
                self.succeed(status_of_pack(bundle, negotiate, update_refs))
            },
            Received::NoPack { negotiate } => {
                let dry_run = self.dry_run == DryRun::Yes;
                self.succeed(Status::NoPackReceived { dry_run, negotiate, update_refs })
            },
        }
    }

    /// Take the answer to the pending request.
    pub fn step(self, reply: Reply<S>) -> (progress: Progress<'a, S>)
        requires
            self.is_possible(reply),
        ensures
            progress == self.next(reply),
    {
        let mut run = self;
        let mut phase: Phase<S> = Phase::RejectShallow;
        std::mem::swap(&mut phase, &mut run.phase);
        match (phase, reply) {
            (Phase::RejectShallow, Reply::RejectShallow(configured)) => {
                match choose_reject_shallow(configured) {
                    Ok(reject_shallow_remote) => run.go_on(
                        Phase::NegotiationAlgorithm { reject_shallow_remote },
                    ),
                    Err(err) => Progress::Finished(Err(Error::RejectShallowRemoteConfig(err))),
                }
            },
            (
                Phase::NegotiationAlgorithm { reject_shallow_remote },
                Reply::NegotiationAlgorithm { configured, lenient },
            ) => match choose_algorithm(configured, lenient) {
                Ok(algorithm) => run.go_on(Phase::Alternates { reject_shallow_remote, algorithm }),
                Err(err) => Progress::Finished(Err(Error::NegotiationAlgorithmConfig(err))),
            },
            (
                Phase::Alternates { reject_shallow_remote, algorithm },
                Reply::Alternates(alternates),
            ) => match alternates {
                Ok(paths) => {
                    let alternates = Alternates { paths };
                    let settings = FetchSettings { reject_shallow_remote, algorithm, alternates };
                    run.go_on(Phase::IndexThreads { settings })
                },
                Err(err) => Progress::Finished(Err(Error::LoadAlternates(err))),
            },
            (Phase::IndexThreads { settings }, Reply::IndexThreads(threads)) => match threads {
                Ok(thread_limit) => run.go_on(Phase::IndexVersion { settings, thread_limit }),
                Err(err) => Progress::Finished(Err(Error::PackThreads(err))),
            },
            (Phase::IndexVersion { settings, thread_limit }, Reply::IndexVersion(version)) => {
                match version {
                    Ok(index_version) => {
                        let options = WritePackOptions {
                            thread_limit,
                            index_version,
                            iteration_mode: IterationMode::Verify,
                            object_hash: run.object_hash,
                        };
                        let sink = PackSink { dry_run: run.dry_run, options, bundle: None };
                        run.go_on(Phase::Fetch { settings, sink })
                    },
                    Err(err) => Progress::Finished(Err(Error::PackIndexVersion(err))),
                }
            },
            (Phase::Fetch { sink, .. }, Reply::Fetched(fetched)) => match fetched {
                Ok(negotiate) => {
                    let received = match (sink.bundle, negotiate) {
                        (Some(bundle), Some(negotiate)) => Received::Pack { bundle, negotiate },
                        (_, negotiate) => Received::NoPack { negotiate },
                    };
                    if run.handshake.server_protocol_version == Protocol::V2 {
                        run.go_on(Phase::EndInteraction { received })
                    } else {
                        run.go_on(Phase::UpdateRefs { received })
                    }
                },
                Err(err) => Progress::Finished(Err(Error::Fetch(err))),
            },
            (Phase::EndInteraction { received }, Reply::InteractionEnded(_)) => run.go_on(
                Phase::UpdateRefs { received },
            ),
            (Phase::UpdateRefs { received }, Reply::RefsUpdated(updated)) => match updated {
                Ok(update_refs) => run.finish_update(received, update_refs),
                Err(err) => Progress::Finished(Err(Error::UpdateRefs(err))),
            },
            (
                Phase::RemoveKeepFile { path, bundle, negotiate, update_refs },
                Reply::FileRemoved(removed),
            ) => match removed {
                Ok(()) => run.succeed(status_of_pack(bundle, negotiate, update_refs)),
                Err(source) => Progress::Finished(Err(Error::RemovePackKeepFile { path, source })),
            },
            (phase, _) => run.go_on(phase),
        }
    }
}

} // verus!
