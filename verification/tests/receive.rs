//! Receiving a pack, and updating references with it.

use std::path::PathBuf;

use gix_hash::{Kind, ObjectId};
use gix_refspec::RefSpec;
use gix_remote::connection::{Connection, Remote};
use gix_remote::negotiate::Algorithm;
use gix_remote::outcome::{IndexVersion, Negotiate, Outcome, PackBundle, PackIndex, PackVersion, Status, UpdateOutcome};
use gix_remote::prepare::{DryRun, Prepare, WritePackedRefs};
use gix_remote::receive::{Error, IterationMode, Phase, Progress, Receive, Reply, Request};
use gix_remote::ref_map::RefMap;
use gix_remote::reflog::RefLogMessage;
use gix_remote::session::{Handshake, Protocol, Session};
use gix_remote::shallow::Shallow;

#[derive(Clone, Debug)]
struct Plain;

impl Session for Plain {
    type Credentials = u8;
    type TransportOptions = u8;
    type Transport = u8;
    type HandshakeDetails = &'static str;
    type Tags = u8;
    type Mapping = u8;
    type RemoteRef = u8;
    type RefListing = u8;
    type Graph = &'static str;
    type Round = u8;
    type RefEdit = &'static str;
    type RefUpdate = u8;
    type Failure = &'static str;
}

fn spec(spec: &str) -> RefSpec {
    gix_refspec::parse(spec.into(), gix_refspec::parse::Operation::Fetch)
        .expect("valid refspec")
        .to_owned()
}

fn bytes(specs: &[RefSpec]) -> Vec<Vec<u8>> {
    specs.iter().map(|spec| spec.to_ref().to_bstring().into()).collect()
}

fn remote() -> Remote<Plain> {
    Remote { name: None, url: None, fetch_specs: vec![spec("HEAD")], fetch_tags: 5 }
}

fn prepare(remote: &Remote<Plain>, version: Protocol) -> Prepare<'_, Plain> {
    Prepare {
        con: Some(Connection {
            remote,
            authenticate: None,
            transport_options: None,
            transport: 1,
            handshake: Some(Handshake { server_protocol_version: version, details: "hello" }),
            trace: true,
        }),
        ref_map: RefMap {
            mappings: vec![1, 2],
            refspecs: vec![spec("HEAD"), spec("refs/heads/a")],
            extra_refspecs: vec![spec("refs/heads/b")],
            remote_refs: vec![7, 8, 9],
            object_hash: Kind::Sha1,
            missing_required_mapping: false,
        },
        dry_run: DryRun::No,
        reflog_message: None,
        write_packed_refs: WritePackedRefs::Never,
        shallow: Shallow::NoChange,
    }
}

fn receive(prepare: Prepare<'_, Plain>) -> Receive<'_, Plain> {
    match prepare.receive(Kind::Sha1) {
        Ok(run) => run,
        Err(_) => panic!("it can start"),
    }
}

fn go_on<'a>(run: Receive<'a, Plain>, reply: Reply<Plain>) -> Receive<'a, Plain> {
    match run.step(reply) {
        Progress::Continue(run) => run,
        Progress::Finished(_) => panic!("there is more to do"),
    }
}

fn finish(run: Receive<'_, Plain>, reply: Reply<Plain>) -> Result<Outcome<Plain>, Error<Plain>> {
    match run.step(reply) {
        Progress::Continue(_) => panic!("this is the end"),
        Progress::Finished(result) => result,
    }
}

fn succeed(run: Receive<'_, Plain>, reply: Reply<Plain>) -> Outcome<Plain> {
    match finish(run, reply) {
        Ok(outcome) => outcome,
        Err(_) => panic!("it succeeded"),
    }
}

fn fail(run: Receive<'_, Plain>, reply: Reply<Plain>) -> Error<Plain> {
    match finish(run, reply) {
        Ok(_) => panic!("it failed"),
        Err(err) => err,
    }
}

/// Answer everything about configuration.
fn configure(run: Receive<'_, Plain>) -> Receive<'_, Plain> {
    let run = go_on(run, Reply::RejectShallow(None));
    let run = go_on(run, Reply::NegotiationAlgorithm { configured: None, lenient: false });
    let run = go_on(run, Reply::Alternates(Ok(vec![PathBuf::from("other/objects")])));
    let run = go_on(run, Reply::IndexThreads(Ok(Some(3))));
    go_on(run, Reply::IndexVersion(Ok(IndexVersion::V2)))
}

fn bundle(num_objects: u32) -> PackBundle {
    PackBundle {
        index: PackIndex {
            index_version: IndexVersion::V2,
            index_hash: ObjectId::null(Kind::Sha1),
            data_hash: ObjectId::null(Kind::Sha1),
            num_objects,
        },
        pack_version: PackVersion::V2,
        object_hash: Kind::Sha1,
        index_path: Some(PathBuf::from("pack.idx")),
        data_path: Some(PathBuf::from("pack.pack")),
        keep_path: Some(PathBuf::from("pack.keep")),
    }
}

fn write_pack(run: &mut Receive<'_, Plain>, written: Option<Result<PackBundle, &'static str>>) -> Result<bool, &'static str> {
    match &mut run.phase {
        Phase::Fetch { sink, .. } => sink.consume_pack(written),
        _ => panic!("packs arrive while fetching"),
    }
}

fn negotiated() -> Reply<Plain> {
    Reply::Fetched(Ok(Some(Negotiate { graph: "graph", rounds: vec![1, 2] })))
}

fn updated(edits: &[&'static str]) -> Reply<Plain> {
    Reply::RefsUpdated(Ok(UpdateOutcome { edits: edits.to_vec(), updates: vec![4] }))
}

#[test]
fn builders() {
    let remote = remote();
    let prepare = prepare(&remote, Protocol::V2).with_dry_run(true).with_write_packed_refs_only(true);
    assert_eq!(prepare.dry_run, DryRun::Yes);
    assert_eq!(prepare.write_packed_refs, WritePackedRefs::Only);
    let prepare = prepare
        .with_dry_run(false)
        .with_write_packed_refs_only(false)
        .with_reflog_message(RefLogMessage::Override { message: b"msg".to_vec() })
        .with_shallow(Shallow::Deepen(2));
    assert_eq!(prepare.dry_run, DryRun::No);
    assert_eq!(prepare.write_packed_refs, WritePackedRefs::Never);
    assert!(matches!(&prepare.reflog_message, Some(RefLogMessage::Override { message }) if message == b"msg"));
    assert!(matches!(prepare.shallow, Shallow::Deepen(2)));
    assert_eq!(prepare.ref_map().mappings, vec![1, 2]);
}

#[test]
fn missing_mappings_are_reported_with_all_refspecs() {
    let remote = remote();
    let mut prepare = prepare(&remote, Protocol::V2);
    prepare.ref_map.missing_required_mapping = true;
    // It does not matter if there is a connection.
    prepare.con = None;
    match prepare.receive(Kind::Sha256) {
        Err(Error::NoMapping { refspecs, num_remote_refs }) => {
            assert_eq!(
                bytes(&refspecs),
                vec![b"HEAD".to_vec(), b"refs/heads/a".to_vec(), b"refs/heads/b".to_vec()]
            );
            assert_eq!(num_remote_refs, 3);
        }
        _ => panic!("there is no mapping"),
    }
}

#[test]
fn hashes_have_to_be_the_same() {
    let remote = remote();
    match prepare(&remote, Protocol::V2).receive(Kind::Sha256) {
        Err(Error::IncompatibleObjectHash { local, remote }) => {
            assert_eq!(local, Kind::Sha256);
            assert_eq!(remote, Kind::Sha1);
        }
        _ => panic!("hashes differ"),
    }
    assert!(prepare(&remote, Protocol::V2).receive(Kind::Sha1).is_ok());
}

#[test]
fn configuration_is_asked_for_in_order_and_used() {
    let remote = remote();
    let run = receive(prepare(&remote, Protocol::V2).with_shallow(Shallow::Since { cutoff: 4 }));
    assert!(run.con.handshake.is_none());
    assert_eq!(run.handshake.details, "hello");
    assert!(matches!(run.request(), Request::RejectShallowConfig));
    let run = go_on(run, Reply::RejectShallow(Some(Ok(true))));
    assert!(matches!(run.request(), Request::NegotiationAlgorithmConfig));
    let run = go_on(run, Reply::NegotiationAlgorithm { configured: Some(Ok(Algorithm::Skipping)), lenient: false });
    assert!(matches!(run.request(), Request::LoadAlternates));
    let run = go_on(run, Reply::Alternates(Ok(vec![PathBuf::from("other/objects")])));
    assert!(matches!(run.request(), Request::IndexThreadsConfig));
    let run = go_on(run, Reply::IndexThreads(Ok(Some(3))));
    assert!(matches!(run.request(), Request::IndexVersionConfig));
    let run = go_on(run, Reply::IndexVersion(Ok(IndexVersion::V1)));
    match run.request() {
        Request::Fetch { settings, sink, ref_map, shallow, tags, trace } => {
            assert!(settings.reject_shallow_remote);
            assert_eq!(settings.algorithm, Algorithm::Skipping);
            assert_eq!(settings.alternates.paths, vec![PathBuf::from("other/objects")]);
            assert_eq!(sink.dry_run, DryRun::No);
            assert!(sink.bundle.is_none());
            let options = sink.write_options().expect("packs are written");
            assert_eq!(options.thread_limit, Some(3));
            assert_eq!(options.index_version, IndexVersion::V1);
            assert_eq!(options.iteration_mode, IterationMode::Verify);
            assert_eq!(options.object_hash, Kind::Sha1);
            assert_eq!(ref_map.remote_refs, vec![7, 8, 9]);
            assert!(matches!(shallow, Shallow::Since { cutoff: 4 }));
            assert_eq!(*tags, 5);
            assert!(trace);
        }
        _ => panic!("it is time to fetch"),
    }
}

#[test]
fn defaults_of_configuration() {
    let remote = remote();
    let run = configure(receive(prepare(&remote, Protocol::V2)));
    match run.request() {
        Request::Fetch { settings, .. } => {
            assert!(!settings.reject_shallow_remote);
            assert_eq!(settings.algorithm, Algorithm::Consecutive);
        }
        _ => panic!("it is time to fetch"),
    }
}

#[test]
fn a_pack_with_updated_references_is_not_kept() {
    let remote = remote();
    let mut run = configure(receive(prepare(&remote, Protocol::V2)));
    assert_eq!(write_pack(&mut run, Some(Ok(bundle(10)))), Ok(true));
    let run = go_on(run, negotiated());
    assert!(matches!(run.request(), Request::EndInteraction { trace: true }));
    let run = go_on(run, Reply::InteractionEnded(Err("the server is gone")));
    match run.request() {
        Request::UpdateRefs { message, mappings, refspecs, extra_refspecs, tags, dry_run, write_packed_refs } => {
            assert_eq!(message.compose("x"), b"fetch: x".to_vec());
            assert_eq!(mappings, &vec![1, 2]);
            assert_eq!(bytes(refspecs), vec![b"HEAD".to_vec()]);
            assert_eq!(bytes(extra_refspecs), vec![b"refs/heads/b".to_vec()]);
            assert_eq!(*tags, 5);
            assert_eq!(dry_run, DryRun::No);
            assert_eq!(write_packed_refs, WritePackedRefs::Never);
        }
        _ => panic!("it is time to update references"),
    }
    let run = go_on(run, updated(&["edit"]));
    match run.request() {
        Request::RemoveFile { path } => assert_eq!(path, &PathBuf::from("pack.keep")),
        _ => panic!("the file is obsolete"),
    }
    let outcome = succeed(run, Reply::FileRemoved(Ok(())));
    assert_eq!(outcome.handshake.details, "hello");
    assert_eq!(outcome.ref_map.remote_refs, vec![7, 8, 9]);
    match outcome.status {
        Status::Change { negotiate, write_pack_bundle, update_refs } => {
            assert_eq!(negotiate.graph, "graph");
            assert_eq!(negotiate.rounds, vec![1, 2]);
            assert_eq!(write_pack_bundle.keep_path, None);
            assert_eq!(write_pack_bundle.data_path, Some(PathBuf::from("pack.pack")));
            assert_eq!(write_pack_bundle.index.num_objects, 10);
            assert_eq!(update_refs.edits, vec!["edit"]);
            assert_eq!(update_refs.updates, vec![4]);
        }
        _ => panic!("there is a pack"),
    }
}

#[test]
fn an_empty_pack_is_not_kept() {
    let remote = remote();
    let mut run = configure(receive(prepare(&remote, Protocol::V1)));
    assert_eq!(write_pack(&mut run, Some(Ok(bundle(0)))), Ok(true));
    let run = go_on(run, negotiated());
    let run = go_on(run, updated(&[]));
    assert!(matches!(run.request(), Request::RemoveFile { .. }));
}

fn assert_no_pack(outcome: Outcome<Plain>, edits: &[&str]) {
    match outcome.status {
        Status::NoPackReceived { dry_run, negotiate, update_refs } => {
            assert!(!dry_run);
            assert_eq!(negotiate.map(|negotiate| negotiate.rounds), Some(vec![1, 2]));
            assert_eq!(update_refs.edits, edits);
        }
        Status::Change { .. } => panic!("there is no new object"),
    }
}

#[test]
fn an_empty_pack_is_no_change_once_its_file_is_removed() {
    let remote = remote();
    let mut run = configure(receive(prepare(&remote, Protocol::V1)));
    assert_eq!(write_pack(&mut run, Some(Ok(bundle(0)))), Ok(true));
    let run = go_on(run, negotiated());
    let run = go_on(run, updated(&["edit"]));
    assert!(matches!(run.request(), Request::RemoveFile { .. }));
    assert_no_pack(succeed(run, Reply::FileRemoved(Ok(()))), &["edit"]);
}

#[test]
fn an_empty_pack_without_file_is_no_change() {
    let remote = remote();
    let mut run = configure(receive(prepare(&remote, Protocol::V1)));
    let written = PackBundle { keep_path: None, ..bundle(0) };
    assert_eq!(write_pack(&mut run, Some(Ok(written))), Ok(true));
    let run = go_on(run, negotiated());
    assert_no_pack(succeed(run, updated(&[])), &[]);
}

#[test]
fn outcomes_can_be_cloned_and_shown() {
    let remote = remote();
    let mut run = configure(receive(prepare(&remote, Protocol::V1)));
    assert_eq!(write_pack(&mut run, Some(Ok(bundle(1)))), Ok(true));
    let run = go_on(run, negotiated());
    let outcome = succeed(run, updated(&[]));
    let clone = outcome.clone();
    assert_eq!(clone.ref_map.mappings, vec![1, 2]);
    assert_eq!(bytes(&clone.ref_map.refspecs), bytes(&outcome.ref_map.refspecs));
    assert_eq!(clone.ref_map.object_hash, Kind::Sha1);
    assert_eq!(format!("{clone:?}"), format!("{outcome:?}"));
    match clone.status {
        Status::Change { write_pack_bundle, .. } => {
            assert_eq!(write_pack_bundle.index.num_objects, 1);
            assert_eq!(write_pack_bundle.keep_path, Some(PathBuf::from("pack.keep")));
        }
        Status::NoPackReceived { .. } => panic!("there is a pack"),
    }
}

#[test]
fn negotiation_defaults_to_nothing() {
    let negotiate = Negotiate::<Plain>::default();
    assert_eq!(negotiate.graph, "");
    assert!(negotiate.rounds.is_empty());
}

#[test]
fn a_pack_that_nothing_points_to_is_kept() {
    let remote = remote();
    let mut run = configure(receive(prepare(&remote, Protocol::V1)));
    assert_eq!(write_pack(&mut run, Some(Ok(bundle(1)))), Ok(true));
    let run = go_on(run, negotiated());
    match succeed(run, updated(&[])).status {
        Status::Change { write_pack_bundle, .. } => {
            assert_eq!(write_pack_bundle.keep_path, Some(PathBuf::from("pack.keep")));
        }
        _ => panic!("there is a pack"),
    }
}

#[test]
fn there_may_be_no_file_to_remove() {
    let remote = remote();
    let mut run = configure(receive(prepare(&remote, Protocol::V1)));
    let written = PackBundle { keep_path: None, ..bundle(1) };
    assert_eq!(write_pack(&mut run, Some(Ok(written))), Ok(true));
    let run = go_on(run, negotiated());
    assert!(matches!(succeed(run, updated(&["edit"])).status, Status::Change { .. }));
}

#[test]
fn only_the_second_version_of_the_protocol_is_ended() {
    let remote = remote();
    for version in [Protocol::V0, Protocol::V1] {
        let run = configure(receive(prepare(&remote, version)));
        let run = go_on(run, Reply::Fetched(Ok(None)));
        assert!(matches!(run.request(), Request::UpdateRefs { .. }));
    }
    let run = configure(receive(prepare(&remote, Protocol::V2)));
    let run = go_on(run, Reply::Fetched(Ok(None)));
    assert!(matches!(run.request(), Request::EndInteraction { .. }));
}

#[test]
fn a_dry_run_changes_nothing() {
    let remote = remote();
    let mut run = configure(receive(prepare(&remote, Protocol::V1).with_dry_run(true)));
    match run.request() {
        Request::Fetch { sink, .. } => assert!(sink.write_options().is_none()),
        _ => panic!("it is time to fetch"),
    }
    assert_eq!(write_pack(&mut run, None), Ok(false));
    let run = go_on(run, negotiated());
    assert!(matches!(run.request(), Request::UpdateRefs { dry_run: DryRun::Yes, .. }));
    match succeed(run, updated(&["edit"])).status {
        Status::NoPackReceived { dry_run, negotiate, update_refs } => {
            assert!(dry_run);
            assert_eq!(negotiate.map(|negotiate| negotiate.graph), Some("graph"));
            assert_eq!(update_refs.edits, vec!["edit"]);
        }
        _ => panic!("there is no pack"),
    }
}

#[test]
fn nothing_new_on_the_remote() {
    let remote = remote();
    let message = RefLogMessage::Prefixed { action: "pull".to_owned() };
    let prepare = prepare(&remote, Protocol::V1).with_reflog_message(message).with_write_packed_refs_only(true);
    let run = configure(receive(prepare));
    let run = go_on(run, Reply::Fetched(Ok(None)));
    match run.request() {
        Request::UpdateRefs { message, write_packed_refs, .. } => {
            assert_eq!(message.compose("x"), b"pull: x".to_vec());
            assert_eq!(write_packed_refs, WritePackedRefs::Only);
        }
        _ => panic!("it is time to update references"),
    }
    match succeed(run, updated(&[])).status {
        Status::NoPackReceived { dry_run, negotiate, .. } => {
            assert!(!dry_run);
            assert!(negotiate.is_none());
        }
        _ => panic!("there is no pack"),
    }
}

#[test]
fn a_pack_that_does_not_write_leaves_no_trace() {
    let remote = remote();
    let mut run = configure(receive(prepare(&remote, Protocol::V1)));
    assert_eq!(write_pack(&mut run, Some(Err("disk full"))), Err("disk full"));
    assert!(matches!(run.request(), Request::Fetch { sink, .. } if sink.bundle.is_none()));
    assert!(matches!(fail(run, Reply::Fetched(Err("disk full"))), Error::Fetch("disk full")));
}

#[test]
fn invalid_configuration_ends_the_fetch() {
    let remote = remote();
    let start = || receive(prepare(&remote, Protocol::V2));
    assert!(matches!(
        fail(start(), Reply::RejectShallow(Some(Err("no bool")))),
        Error::RejectShallowRemoteConfig("no bool")
    ));
    let run = go_on(start(), Reply::RejectShallow(None));
    let invalid = Reply::NegotiationAlgorithm { configured: Some(Err("unknown")), lenient: false };
    assert!(matches!(fail(run, invalid), Error::NegotiationAlgorithmConfig("unknown")));
    let run = go_on(start(), Reply::RejectShallow(None));
    let run = go_on(run, Reply::NegotiationAlgorithm { configured: Some(Err("unknown")), lenient: true });
    assert!(matches!(&run.phase, Phase::Alternates { algorithm: Algorithm::Consecutive, .. }));
    assert!(matches!(fail(run, Reply::Alternates(Err("cycle"))), Error::LoadAlternates("cycle")));
}

#[test]
fn invalid_configuration_of_packs_ends_the_fetch() {
    let remote = remote();
    let at_threads = || {
        let run = go_on(receive(prepare(&remote, Protocol::V2)), Reply::RejectShallow(None));
        let run = go_on(run, Reply::NegotiationAlgorithm { configured: None, lenient: false });
        go_on(run, Reply::Alternates(Ok(Vec::new())))
    };
    assert!(matches!(fail(at_threads(), Reply::IndexThreads(Err("no number"))), Error::PackThreads("no number")));
    let run = go_on(at_threads(), Reply::IndexThreads(Ok(None)));
    assert!(matches!(fail(run, Reply::IndexVersion(Err("v9"))), Error::PackIndexVersion("v9")));
}

#[test]
fn references_that_do_not_update_end_the_fetch() {
    let remote = remote();
    let run = configure(receive(prepare(&remote, Protocol::V1)));
    let run = go_on(run, Reply::Fetched(Ok(None)));
    assert!(matches!(fail(run, Reply::RefsUpdated(Err("locked"))), Error::UpdateRefs("locked")));
}

#[test]
fn a_file_that_cannot_be_removed_ends_the_fetch() {
    let remote = remote();
    let mut run = configure(receive(prepare(&remote, Protocol::V1)));
    assert_eq!(write_pack(&mut run, Some(Ok(bundle(1)))), Ok(true));
    let run = go_on(run, negotiated());
    let run = go_on(run, updated(&["edit"]));
    match fail(run, Reply::FileRemoved(Err("denied"))) {
        Error::RemovePackKeepFile { path, source } => {
            assert_eq!(path, PathBuf::from("pack.keep"));
            assert_eq!(source, "denied");
        }
        _ => panic!("another error"),
    }
}

#[test]
fn the_handshake_is_reported_as_it_was_changed_last() {
    let remote = remote();
    let mut run = configure(receive(prepare(&remote, Protocol::V2)));
    let work = run.work();
    assert_eq!(*work.details, "hello");
    *work.details = "changed";
    *work.transport = 9;
    assert_eq!(work.ref_map.mappings, vec![1, 2]);
    assert!(matches!(work.shallow, Shallow::NoChange));
    let fetch = work.fetch.expect("it is time to fetch");
    assert_eq!(fetch.alternates.take(), vec![PathBuf::from("other/objects")]);
    assert_eq!(fetch.sink.consume_pack(Some(Ok::<_, &str>(bundle(1)))), Ok(true));
    assert!(matches!(run.request(), Request::Fetch { settings, .. } if settings.alternates.paths.is_empty()));
    let mut run = go_on(run, negotiated());
    assert!(run.work().fetch.is_none());
    assert_eq!(run.con.transport, 9);
    let run = go_on(run, Reply::InteractionEnded(Ok(())));
    let outcome = succeed(run, updated(&[]));
    assert_eq!(outcome.handshake.details, "changed");
    assert_eq!(outcome.handshake.server_protocol_version, Protocol::V2);
    assert!(matches!(outcome.status, Status::Change { .. }));
}

#[test]
fn unrelated_replies_do_not_affect_a_fetch() {
    let remote = remote();
    let run = receive(prepare(&remote, Protocol::V2));
    let run = go_on(run, negotiated());
    let run = go_on(run, Reply::FileRemoved(Err("no such file")));
    assert!(matches!(run.request(), Request::RejectShallowConfig));
}
