//! Preparing a fetch.

use gix_refspec::RefSpec;
use vstd::prelude::*;

use crate::connection::Connection;
use crate::listing::{Listed, RefMapRun};
use crate::ref_map;
use crate::ref_map::{Options, RefMap};
use crate::reflog::RefLogMessage;
use crate::session::{Handshake, Session};
use crate::shallow::Shallow;

verus! {

/// The error of preparing a fetch.
#[derive(Debug)]
pub enum Error<S: Session> {
    /// Cannot perform a meaningful fetch operation without any configured ref-specs.
    MissingRefSpecs,
    /// The references of the remote could not be listed.
    RefMap(ref_map::Error<S>),
}

impl<S: Session> Error<S> {
    /// Whether trying again might turn out differently.
    pub open spec fn spurious(&self) -> bool {
        match self {
            Error::RefMap(err) => err.spurious(),
            Error::MissingRefSpecs => false,
        }
    }

    /// Return `true` if trying again might turn out differently.
    pub fn is_spurious(&self) -> (spurious: bool)
        ensures
            spurious == self.spurious(),
            self matches Error::RefMap(err) ==> spurious == err.spurious(),
            self is MissingRefSpecs ==> !spurious,
    {
        match self {
            Error::RefMap(err) => err.is_spurious(),
            Error::MissingRefSpecs => false,
        }
    }
}

/// Whether changes to the repository are made.
#[derive(Clone, Copy, Debug, PartialEq, Eq, Structural)]
pub enum DryRun {
    /// No changes are made.
    Yes,
    /// Changes are made.
    No,
}

/// Where references are written to.
#[derive(Clone, Copy, Debug, PartialEq, Eq, Structural)]
pub enum WritePackedRefs {
    /// To loose references, without touching those that are packed.
    Never,
    /// To packed references only.
    Only,
}

/// A structure to hold the result of the handshake with the remote and configure the upcoming fetch operation.
pub struct Prepare<'a, S: Session> {
    /// The connection to fetch from.
    pub con: Option<Connection<'a, S>>,
    /// The references of the remote.
    pub ref_map: RefMap<S>,
    /// Whether to change the repository.
    pub dry_run: DryRun,
    /// The message for the reflog, or `None` to use the default.
    pub reflog_message: Option<RefLogMessage>,
    /// Where to write references to.
    pub write_packed_refs: WritePackedRefs,
    /// How to change the shallow boundary.
    pub shallow: Shallow,
}

/// Access
impl<'a, S: Session> Prepare<'a, S> {
    /// Return the `ref_map` (that includes the server handshake) which was part of listing refs prior to fetching a pack.
    pub fn ref_map(&self) -> (ref_map: &RefMap<S>)
        ensures
            *ref_map == self.ref_map,
    {
        &self.ref_map
    }
}

/// Builder
impl<'a, S: Session> Prepare<'a, S> {
    /// If dry run is enabled, no change to the repository will be made.
    pub fn with_dry_run(self, enabled: bool) -> (prepare: Self)
        ensures
            prepare == (Prepare {
                dry_run: if enabled {
                    DryRun::Yes
                } else {
                    DryRun::No
                },
                ..self
            }),
    {
        let mut prepare = self;
        prepare.dry_run = if enabled {
            DryRun::Yes
        } else {
            DryRun::No
        };
        prepare
    }

    /// If enabled, don't write ref updates to loose refs, but put them exclusively to packed-refs.
    pub fn with_write_packed_refs_only(self, enabled: bool) -> (prepare: Self)
        ensures
            prepare == (Prepare {
                write_packed_refs: if enabled {
                    WritePackedRefs::Only
                } else {
                    WritePackedRefs::Never
                },
                ..self
            }),
    {
        let mut prepare = self;
        prepare.write_packed_refs = if enabled {
            WritePackedRefs::Only
        } else {
            WritePackedRefs::Never
        };
        prepare
    }

    /// Set the reflog message to use when updating refs after fetching a pack.
    pub fn with_reflog_message(self, reflog_message: RefLogMessage) -> (prepare: Self)
        ensures
            prepare == (Prepare { reflog_message: Some(reflog_message), ..self }),
    {
        let mut prepare = self;
        prepare.reflog_message = Some(reflog_message);
        prepare
    }

    /// Define what to do when the current repository is a shallow clone.
    pub fn with_shallow(self, shallow: Shallow) -> (prepare: Self)
        ensures
            prepare == (Prepare { shallow, ..self }),
    {
        let mut prepare = self;
        prepare.shallow = shallow;
        prepare
    }
}

impl<'a, S: Session> Connection<'a, S> {
    /// Whether there is nothing to fetch, with `extra_refspecs` in addition to those of the remote.
    pub open spec fn lacks_refspecs(&self, extra_refspecs: Seq<RefSpec>) -> bool {
        self.remote.fetch_specs@.len() == 0 && extra_refspecs.len() == 0
    }

    /// Start to list all references on the remote that have been filtered through the refspecs of the remote
    /// for _fetching_, to be completed with [`Listed::into_ref_map()`].
    ///
    /// See [`ref_map_by_ref()`](Connection::ref_map_by_ref()) for the parameters.
    pub fn ref_map(
        self,
        transport_url: Vec<u8>,
        tag_spec: Option<RefSpec>,
        options: Options,
    ) -> (run: RefMapRun<'a, S>)
        ensures
            run.is_start(self, transport_url, tag_spec, options),
    {
        self.ref_map_by_ref(transport_url, tag_spec, options)
    }

    /// Start to perform a handshake with the remote and obtain a ref-map with `options`, and from there one
    /// can do a fetch operation once it is completed with [`Listed::into_prepare()`].
    ///
    /// See [`ref_map_by_ref()`](Connection::ref_map_by_ref()) for the parameters.
    pub fn prepare_fetch(
        self,
        transport_url: Vec<u8>,
        tag_spec: Option<RefSpec>,
        options: Options,
    ) -> (run: Result<RefMapRun<'a, S>, Error<S>>)
        ensures
            if self.lacks_refspecs(options.extra_refspecs@) {
                run == Err::<RefMapRun<'a, S>, _>(Error::<S>::MissingRefSpecs)
            } else {
                run is Ok && run->Ok_0.is_start(self, transport_url, tag_spec, options)
            },
            run is Err <==> self.remote.fetch_specs@ + options.extra_refspecs@ == Seq::<
                RefSpec,
            >::empty(),
            run is Err ==> run->Err_0 is MissingRefSpecs,
    {
        proof {
            law_fetch_needs_a_refspec(self, options.extra_refspecs@);
        }
        if self.remote.fetch_specs.is_empty() && options.extra_refspecs.is_empty() {
            return Err(Error::MissingRefSpecs);
        }
        Ok(self.ref_map_by_ref(transport_url, tag_spec, options))
    }
}

impl<'a, S: Session> Listed<'a, S> {
    /// Whether the handshake was stored if the listing succeeded.
    pub open spec fn has_handshake(&self) -> bool {
        self.result is Ok ==> self.con.handshake is Some
    }

    /// Return the references along with the result of the handshake, or what went wrong.
    pub fn into_ref_map(self) -> (listed: Result<(RefMap<S>, Handshake<S>), ref_map::Error<S>>)
        requires
            self.has_handshake(),
        ensures
            listed == (match self.result {
                Ok(ref_map) => Ok((ref_map, self.con.handshake->0)),
                Err(err) => Err(err),
            }),
    {
        match self.result {
            Ok(ref_map) => {
                let handshake = self.con.handshake.unwrap();
                Ok((ref_map, handshake))
            },
            Err(err) => Err(err),
        }
    }

    /// Return a fetch with defaults that is ready to be configured, or what went wrong.
    pub fn into_prepare(self) -> (prepare: Result<Prepare<'a, S>, Error<S>>)
        ensures
            prepare == (match self.result {
                Ok(ref_map) => Ok(
                    (Prepare {
                        con: Some(self.con),
                        ref_map,
                        dry_run: DryRun::No,
                        reflog_message: None,
                        write_packed_refs: WritePackedRefs::Never,
                        shallow: Shallow::NoChange,
                    }),
                ),
                Err(err) => Err(Error::RefMap(err)),
            }),
    {
        match self.result {
            Ok(ref_map) => Ok(
                Prepare {
                    con: Some(self.con),
                    ref_map,
                    dry_run: DryRun::No,
                    reflog_message: None,
                    write_packed_refs: WritePackedRefs::Never,
                    shallow: Shallow::default(),
                },
            ),
            Err(err) => Err(Error::RefMap(err)),
        }
    }
}

/// There is nothing to fetch exactly if the refspecs of the remote and the extra refspecs, taken together, are none. A
/// single refspec in either list is enough.
pub proof fn law_fetch_needs_a_refspec<'a, S: Session>(
    con: Connection<'a, S>,
    extra_refspecs: Seq<RefSpec>,
)
    ensures
        con.lacks_refspecs(extra_refspecs) <==> con.remote.fetch_specs@ + extra_refspecs == Seq::<
            RefSpec,
        >::empty(),
        forall|i: int|
            0 <= i < con.remote.fetch_specs@.len() ==> {
                let spec = #[trigger] con.remote.fetch_specs@[i];
                !con.lacks_refspecs(extra_refspecs)
            },
        forall|i: int|
            0 <= i < extra_refspecs.len() ==> {
                let spec = #[trigger] extra_refspecs[i];
                !con.lacks_refspecs(extra_refspecs)
            },
{
    let all = con.remote.fetch_specs@ + extra_refspecs;
    assert(all.len() == con.remote.fetch_specs@.len() + extra_refspecs.len());
    if all.len() == 0 {
        assert(all =~= Seq::<RefSpec>::empty());
    }
}

/// A failure to prepare a fetch is spurious exactly if the listing of references failed and that is spurious.
pub proof fn law_spurious_preparation<S: Session>(err: ref_map::Error<S>)
    ensures
        Error::RefMap(err).spurious() == err.spurious(),
        !Error::<S>::MissingRefSpecs.spurious(),
{
}

/// Each choice about a fetch can be made without affecting the others, and it is made as it was asked for: enabling a dry
/// run or packed references sets the respective choice, disabling it takes it back, and messages and changes of the boundary
/// are taken as they are.
pub proof fn law_choices_are_independent<'a, S: Session>(
    prepare: Prepare<'a, S>,
    enabled: bool,
    message: RefLogMessage,
    shallow: Shallow,
    chosen: Prepare<'a, S>,
)
    ensures
        call_ensures(Prepare::<'a, S>::with_dry_run, (prepare, enabled), chosen) ==> {
            &&& chosen.dry_run == DryRun::Yes <==> enabled
            &&& (Prepare { dry_run: prepare.dry_run, ..chosen }) == prepare
        },
        call_ensures(Prepare::<'a, S>::with_write_packed_refs_only, (prepare, enabled), chosen)
            ==> {
            &&& chosen.write_packed_refs == WritePackedRefs::Only <==> enabled
            &&& (Prepare { write_packed_refs: prepare.write_packed_refs, ..chosen }) == prepare
        },
        call_ensures(Prepare::<'a, S>::with_reflog_message, (prepare, message), chosen) ==> {
            &&& chosen.reflog_message == Some(message)
            &&& (Prepare { reflog_message: prepare.reflog_message, ..chosen }) == prepare
        },
        call_ensures(Prepare::<'a, S>::with_shallow, (prepare, shallow), chosen) ==> {
            &&& chosen.shallow == shallow
            &&& (Prepare { shallow: prepare.shallow, ..chosen }) == prepare
        },
{
}

/// A listing that succeeded prepares a fetch of the references that it found, over the connection that it leaves, which
/// changes the repository, writes loose references, uses the default message and leaves the boundary alone. One that failed
/// hands on why.
pub proof fn law_prepared_fetches_start_with_defaults<'a, S: Session>(
    listed: Listed<'a, S>,
    prepared: Result<Prepare<'a, S>, Error<S>>,
)
    requires
        call_ensures(Listed::<'a, S>::into_prepare, (listed,), prepared),
    ensures
        match (listed.result, prepared) {
            (Ok(ref_map), Ok(prepare)) => {
                &&& prepare.ref_map == ref_map
                &&& prepare.con == Some(listed.con)
                &&& prepare.dry_run == DryRun::No
                &&& prepare.reflog_message is None
                &&& prepare.write_packed_refs == WritePackedRefs::Never
                &&& prepare.shallow is NoChange
            },
            (Err(err), Err(Error::RefMap(reported))) => reported == err,
            _ => false,
        },
{
}

/// Preparing a fetch fails at once exactly if there are no refspecs at all, neither of the remote nor extra ones, and starts
/// a listing otherwise. Listing references alone takes no refspec.
pub proof fn law_preparation_is_refused_without_refspecs<'a, S: Session>(
    con: Connection<'a, S>,
    transport_url: Vec<u8>,
    tag_spec: Option<RefSpec>,
    options: Options,
    started: Result<RefMapRun<'a, S>, Error<S>>,
)
    requires
        call_ensures(
            Connection::<'a, S>::prepare_fetch,
            (con, transport_url, tag_spec, options),
            started,
        ),
    ensures
        started is Err <==> con.remote.fetch_specs@ + options.extra_refspecs@ == Seq::<
            RefSpec,
        >::empty(),
        started matches Err(err) ==> err is MissingRefSpecs,
        started matches Ok(run) ==> run.is_start(con, transport_url, tag_spec, options),
{
}

/// What is listed comes with the handshake of the connection, and a failure is handed on as it is.
pub proof fn law_listed_references_come_with_the_handshake<'a, S: Session>(
    listed: Listed<'a, S>,
    result: Result<(RefMap<S>, Handshake<S>), ref_map::Error<S>>,
)
    requires
        call_ensures(Listed::<'a, S>::into_ref_map, (listed,), result),
        listed.has_handshake(),
    ensures
        match (listed.result, result) {
            (Ok(ref_map), Ok((reported, handshake))) => reported == ref_map && Some(handshake)
                == listed.con.handshake,
            (Err(err), Err(reported)) => reported == err,
            _ => false,
        },
{
}

} // verus!
