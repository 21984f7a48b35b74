//! What holds of every fetch, whatever comes of the work that it asks for.

use std::path::PathBuf;
use vstd::prelude::*;

use crate::connection::Connection;
use crate::negotiate::{chosen_algorithm, chosen_reject_shallow, Algorithm, Alternates};
use crate::outcome::{IndexVersion, Negotiate, PackBundle, Status, UpdateOutcome};
use crate::prepare::{DryRun, Prepare};
use crate::receive::{
    is_keep_file_obsolete, Error, IterationMode, Phase, Progress, Receive, Received, Reply, Request,
};
use crate::reflog::RefLogMessageView;
use crate::session::{Handshake, Protocol, Session};

verus! {

/// Something that happens during a fetch.
pub enum Event<S: Session> {
    /// A pack arrived, and it was written or not.
    Pack(Option<Result<PackBundle, S::Failure>>),
    /// A request was answered.
    Reply(Reply<S>),
    /// Work that was asked for left the transport in another state.
    Transport(S::Transport),
    /// Work that was asked for left other details of the handshake.
    Details(S::HandshakeDetails),
    /// The negotiation left other alternates.
    Alternates(Alternates),
}

/// Whether `event` can happen: packs arrive while fetching only, and are written unless this is a dry run. Alternates
/// are of interest while fetching only.
pub open spec fn can_happen<'a, S: Session>(run: Receive<'a, S>, event: Event<S>) -> bool {
    match event {
        Event::Pack(written) => match run.phase {
            Phase::Fetch { sink, .. } => written is Some <==> sink.dry_run == DryRun::No,
            _ => false,
        },
        Event::Reply(reply) => run.is_possible(reply),
        Event::Alternates(_) => run.phase is Fetch,
        Event::Transport(_) | Event::Details(_) => true,
    }
}

/// The state of affairs after `event`.
pub open spec fn after_event<'a, S: Session>(
    run: Receive<'a, S>,
    event: Event<S>,
) -> Progress<'a, S> {
    match event {
        Event::Pack(written) => match run.phase {
            Phase::Fetch { sink, .. } => Progress::Continue(run.with_sink(sink.after(written))),
            _ => Progress::Continue(run),
        },
        Event::Reply(reply) => run.next(reply),
        Event::Transport(transport) => Progress::Continue(run.with_transport(transport)),
        Event::Details(details) => Progress::Continue(run.with_details(details)),
        Event::Alternates(alternates) => Progress::Continue(run.with_alternates(alternates)),
    }
}

/// The state of affairs after all `events`, or after as many of them as it takes to end.
pub open spec fn after_events<'a, S: Session>(
    run: Receive<'a, S>,
    events: Seq<Event<S>>,
) -> Progress<'a, S>
    decreases events.len(),
{
    if events.len() == 0 {
        Progress::Continue(run)
    } else {
        match after_event(run, events.first()) {
            Progress::Continue(run) => after_events(run, events.drop_first()),
            Progress::Finished(result) => Progress::Finished(result),
        }
    }
}

/// Whether all `events` can happen in sequence, with nothing happening after the end.
pub open spec fn all_can_happen<'a, S: Session>(
    run: Receive<'a, S>,
    events: Seq<Event<S>>,
) -> bool
    decreases events.len(),
{
    events.len() == 0 || (can_happen(run, events.first()) && match after_event(
        run,
        events.first(),
    ) {
        Progress::Continue(run) => all_can_happen(run, events.drop_first()),
        Progress::Finished(_) => events.len() == 1,
    })
}

/// The state of the transport after `events`, which is `transport` unless it was changed.
pub open spec fn last_transport<S: Session>(
    transport: S::Transport,
    events: Seq<Event<S>>,
) -> S::Transport
    decreases events.len(),
{
    if events.len() == 0 {
        transport
    } else {
        match events.last() {
            Event::Transport(changed) => changed,
            _ => last_transport(transport, events.drop_last()),
        }
    }
}

/// The details of the handshake after `events`, which are `details` unless they were changed.
pub open spec fn last_details<S: Session>(
    details: S::HandshakeDetails,
    events: Seq<Event<S>>,
) -> S::HandshakeDetails
    decreases events.len(),
{
    if events.len() == 0 {
        details
    } else {
        match events.last() {
            Event::Details(changed) => changed,
            _ => last_details(details, events.drop_last()),
        }
    }
}

/// `handshake`, with its details as they are after `events`.
pub open spec fn last_handshake<S: Session>(
    handshake: Handshake<S>,
    events: Seq<Event<S>>,
) -> Handshake<S> {
    Handshake { details: last_details(handshake.details, events), ..handshake }
}

/// The fetch `run` in `phase`, with all that work may change in place as it is after `events`.
pub open spec fn last_run<'a, S: Session>(
    run: Receive<'a, S>,
    phase: Phase<S>,
    events: Seq<Event<S>>,
) -> Receive<'a, S> {
    Receive {
        con: Connection {
            transport: last_transport(run.con.transport, events),
            ..run.con
        },
        handshake: last_handshake(run.handshake, events),
        phase,
        ..run
    }
}

/// Whether `written` is `bundle`, or was before the file that keeps it was forgotten.
pub open spec fn is_bundle_of(bundle: PackBundle, written: PackBundle) -> bool {
    bundle == written || bundle == (PackBundle { keep_path: None, ..written })
}

/// Whether `bundle` was written during `events`.
pub open spec fn was_written<S: Session>(bundle: PackBundle, events: Seq<Event<S>>) -> bool {
    exists|i: int|
        0 <= i < events.len() && (#[trigger] events[i] matches Event::Pack(Some(Ok(written)))
            && is_bundle_of(bundle, written))
}

/// The last pack that was written during `events`, or `None` if there was none or it was followed by one that was left
/// alone. A pack that could not be written does not count.
pub open spec fn last_pack<S: Session>(events: Seq<Event<S>>) -> Option<PackBundle>
    decreases events.len(),
{
    if events.len() == 0 {
        None
    } else {
        match events.last() {
            Event::Pack(Some(Ok(bundle))) => Some(bundle),
            Event::Pack(None) => None,
            _ => last_pack(events.drop_last()),
        }
    }
}

/// Whether the server was told that there is nothing left to say during `events`.
pub open spec fn was_interaction_ended<S: Session>(events: Seq<Event<S>>) -> bool {
    exists|i: int|
        0 <= i < events.len() && (#[trigger] events[i] matches Event::Reply(
            Reply::InteractionEnded(_),
        ))
}

/// Whether a pack that was received by `run` was written during `seen`, and not in a dry run.
spec fn is_received_consistent<'a, S: Session>(
    run: Receive<'a, S>,
    received: Received<S>,
    seen: Seq<Event<S>>,
) -> bool {
    received matches Received::Pack { bundle, .. } ==> run.dry_run == DryRun::No && was_written(
        bundle,
        seen,
    )
}

/// Whether `received` has the last pack that was written during `seen`, and the negotiation that was reported.
spec fn is_all_received<S: Session>(received: Received<S>, seen: Seq<Event<S>>) -> bool {
    match received {
        Received::Pack { bundle, negotiate } => {
            &&& last_pack(seen) == Some(bundle)
            &&& seen.contains(Event::Reply(Reply::Fetched(Ok(Some(negotiate)))))
        },
        Received::NoPack { negotiate } => {
            &&& last_pack(seen) is None
            &&& seen.contains(Event::Reply(Reply::Fetched(Ok(negotiate))))
        },
    }
}

/// Whether a fetch that started as `start` may have come to `run` after `seen`.
spec fn is_consistent<'a, S: Session>(
    start: Receive<'a, S>,
    run: Receive<'a, S>,
    seen: Seq<Event<S>>,
) -> bool {
    &&& run == last_run(start, run.phase, seen)
    &&& match run.phase {
        Phase::Fetch { sink, .. } => {
            &&& sink.dry_run == run.dry_run
            &&& sink.respects_dry_run()
            &&& sink.bundle is Some ==> was_written(sink.bundle->0, seen)
            &&& sink.bundle == last_pack(seen)
            &&& sink.options.iteration_mode == IterationMode::Verify
            &&& sink.options.object_hash == run.object_hash
        },
        Phase::EndInteraction { received } => {
            &&& is_all_received(received, seen)
            &&& run.handshake.server_protocol_version == Protocol::V2
            &&& is_received_consistent(run, received, seen)
        },
        Phase::UpdateRefs { received } => {
            &&& is_all_received(received, seen)
            &&& run.handshake.server_protocol_version == Protocol::V2 ==> was_interaction_ended(
                seen,
            )
            &&& is_received_consistent(run, received, seen)
        },
        Phase::RemoveKeepFile { path, bundle, negotiate, update_refs } => {
            &&& last_pack(seen) == Some(PackBundle { keep_path: Some(path), ..bundle })
            &&& update_refs.edits@.len() > 0 || bundle.index.num_objects == 0
            &&& seen.contains(Event::Reply(Reply::Fetched(Ok(Some(negotiate)))))
            &&& seen.contains(Event::Reply(Reply::RefsUpdated(Ok(update_refs))))
            &&& run.dry_run == DryRun::No
            &&& bundle.keep_path is None
            &&& is_keep_file_obsolete(bundle, update_refs)
            &&& was_written(bundle, seen)
        },
        _ => last_pack(seen) is None,
    }
}

/// Whether `status` reports the last pack that was written during `seen` if there is anything in it, along with the
/// negotiation and the update of references that were reported.
spec fn is_status_of<S: Session>(status: Status<S>, dry_run: bool, seen: Seq<Event<S>>) -> bool {
    match last_pack(seen) {
        Some(pack) if pack.index.num_objects > 0 => {
            &&& status matches Status::Change { negotiate, write_pack_bundle, update_refs }
            &&& seen.contains(Event::Reply(Reply::Fetched(Ok(Some(negotiate)))))
            &&& seen.contains(Event::Reply(Reply::RefsUpdated(Ok(update_refs))))
            &&& write_pack_bundle == (PackBundle {
                keep_path: if update_refs.edits@.len() > 0 {
                    None
                } else {
                    pack.keep_path
                },
                ..pack
            })
            &&& pack.keep_path is Some && update_refs.edits@.len() > 0 ==> seen.contains(
                Event::Reply(Reply::FileRemoved(Ok(()))),
            )
        },
        pack => {
            &&& status matches Status::NoPackReceived { dry_run: is_dry_run, negotiate, update_refs }
            &&& is_dry_run == dry_run
            &&& pack is Some ==> negotiate is Some
            &&& seen.contains(Event::Reply(Reply::Fetched(Ok(negotiate))))
            &&& seen.contains(Event::Reply(Reply::RefsUpdated(Ok(update_refs))))
            &&& pack is Some && pack->0.keep_path is Some ==> seen.contains(
                Event::Reply(Reply::FileRemoved(Ok(()))),
            )
        },
    }
}

/// Whether a fetch that started as `start` may have ended with `result` after `seen`.
spec fn is_end_consistent<'a, S: Session>(
    start: Receive<'a, S>,
    progress: Progress<'a, S>,
    seen: Seq<Event<S>>,
) -> bool {
    match progress {
        Progress::Continue(run) => is_consistent(start, run, seen),
        Progress::Finished(Ok(outcome)) => {
            &&& outcome.ref_map == start.ref_map
            &&& outcome.handshake == last_handshake(start.handshake, seen)
            &&& is_status_of(outcome.status, start.dry_run == DryRun::Yes, seen)
            &&& match outcome.status {
                Status::NoPackReceived { dry_run, .. } => dry_run == (start.dry_run
                    == DryRun::Yes),
                Status::Change { write_pack_bundle, update_refs, .. } => {
                    &&& start.dry_run == DryRun::No
                    &&& write_pack_bundle.index.num_objects >= 1
                    &&& was_written(write_pack_bundle, seen)
                    &&& is_keep_file_obsolete(write_pack_bundle, update_refs)
                        ==> write_pack_bundle.keep_path is None
                },
            }
        },
        Progress::Finished(Err(err)) => start.dry_run == DryRun::Yes ==> !(
        err is RemovePackKeepFile),
    }
}

proof fn lemma_was_written_extends<S: Session>(
    bundle: PackBundle,
    forgotten: PackBundle,
    seen: Seq<Event<S>>,
    more: Seq<Event<S>>,
)
    requires
        was_written(bundle, seen),
        forgotten == bundle || forgotten == (PackBundle { keep_path: None, ..bundle }),
    ensures
        was_written(forgotten, seen + more),
{
    let i = choose|i: int|
        0 <= i < seen.len() && (#[trigger] seen[i] matches Event::Pack(Some(Ok(written)))
            && is_bundle_of(bundle, written));
    assert((seen + more)[i] == seen[i]);
}

proof fn lemma_interaction_ended_extends<S: Session>(seen: Seq<Event<S>>, more: Seq<Event<S>>)
    requires
        was_interaction_ended(seen),
    ensures
        was_interaction_ended(seen + more),
{
    let i = choose|i: int|
        0 <= i < seen.len() && (#[trigger] seen[i] matches Event::Reply(
            Reply::InteractionEnded(_),
        ));
    assert((seen + more)[i] == seen[i]);
}

proof fn lemma_consistent_after_event<'a, S: Session>(
    start: Receive<'a, S>,
    run: Receive<'a, S>,
    seen: Seq<Event<S>>,
    event: Event<S>,
)
    requires
        is_consistent(start, run, seen),
        can_happen(run, event),
    ensures
        is_end_consistent(start, after_event(run, event), seen + seq![event]),
{
    let more = seq![event];
    assert((seen + more)[seen.len() as int] == event);
    assert((seen + more).drop_last() =~= seen);
    assert((seen + more).contains(event));
    assert forall|e: Event<S>| seen.contains(e) implies #[trigger] (seen + more).contains(e) by {
        let i = choose|i: int| 0 <= i < seen.len() && seen[i] == e;
        assert((seen + more)[i] == e);
    }
    match run.phase {
        Phase::Fetch { sink, .. } => {
            if sink.bundle is Some {
                lemma_was_written_extends(sink.bundle->0, sink.bundle->0, seen, more);
            }
        },
        Phase::EndInteraction { received } => {
            if let Received::Pack { bundle, .. } = received {
                lemma_was_written_extends(bundle, bundle, seen, more);
            }
        },
        Phase::UpdateRefs { received } => {
            if run.handshake.server_protocol_version == Protocol::V2 {
                lemma_interaction_ended_extends(seen, more);
            }
            if let Received::Pack { bundle, .. } = received {
                let forgotten = PackBundle { keep_path: None, ..bundle };
                lemma_was_written_extends(bundle, bundle, seen, more);
                lemma_was_written_extends(bundle, forgotten, seen, more);
            }
        },
        Phase::RemoveKeepFile { bundle, .. } => {
            lemma_was_written_extends(bundle, bundle, seen, more);
            if let Event::Reply(Reply::FileRemoved(Ok(removed))) = event {
                assert(removed == ());
            }
        },
        _ => {},
    }
}

proof fn lemma_consistent_after<'a, S: Session>(
    start: Receive<'a, S>,
    run: Receive<'a, S>,
    seen: Seq<Event<S>>,
    events: Seq<Event<S>>,
)
    requires
        is_consistent(start, run, seen),
        all_can_happen(run, events),
    ensures
        is_end_consistent(start, after_events(run, events), seen + events),
    decreases events.len(),
{
    if events.len() == 0 {
        assert(seen + events =~= seen);
    } else {
        let more = seq![events.first()];
        lemma_consistent_after_event(start, run, seen, events.first());
        assert(seen + more + events.drop_first() =~= seen + events);
        match after_event(run, events.first()) {
            Progress::Continue(next) => {
                lemma_consistent_after(start, next, seen + more, events.drop_first());
            },
            Progress::Finished(_) => {
                assert(seen + more =~= seen + events);
            },
        }
    }
}

/// If dry run is enabled, no change to the repository is made: no pack is asked to be written, references are asked
/// to be left alone, no file is removed, and the outcome says that there is no pack as it was a dry run.
pub proof fn law_dry_run_changes_nothing<'a, S: Session>(
    prepare: Prepare<'a, S>,
    object_hash: gix_hash::Kind,
    run: Receive<'a, S>,
    events: Seq<Event<S>>,
)
    requires
        prepare.dry_run == DryRun::Yes,
        run.is_start(prepare, object_hash),
        all_can_happen(run, events),
    ensures
        match after_events(run, events) {
            Progress::Continue(now) => match now.requested() {
                Request::Fetch { sink, .. } => sink.dry_run == DryRun::Yes && sink.bundle is None,
                Request::UpdateRefs { dry_run, .. } => dry_run == DryRun::Yes,
                Request::RemoveFile { .. } => false,
                _ => true,
            },
            Progress::Finished(Ok(outcome)) => outcome.status matches Status::NoPackReceived {
                dry_run,
                ..
            } && dry_run,
            Progress::Finished(Err(err)) => !(err is RemovePackKeepFile),
        },
{
    lemma_consistent_after(run, run, Seq::empty(), events);
}

/// The outcome has the references and the handshake that were there when the fetch was prepared, with the version of
/// the protocol as it was and the details as they were left by work that was asked for. It reports a change
/// only with a pack that was written and has at least one object, and it says that there is no pack due to a dry run exactly if it was one.
pub proof fn law_outcome_reports_what_happened<'a, S: Session>(
    prepare: Prepare<'a, S>,
    object_hash: gix_hash::Kind,
    run: Receive<'a, S>,
    events: Seq<Event<S>>,
)
    requires
        prepare.is_connected(),
        run.is_start(prepare, object_hash),
        all_can_happen(run, events),
    ensures
        after_events(run, events) matches Progress::Finished(Ok(outcome)) ==> {
            &&& outcome.ref_map == prepare.ref_map
            &&& outcome.handshake == last_handshake(prepare.con->0.handshake->0, events)
            &&& match outcome.status {
                Status::NoPackReceived { dry_run, .. } => dry_run == (prepare.dry_run
                    == DryRun::Yes),
                Status::Change { write_pack_bundle, .. } => {
                    &&& write_pack_bundle.index.num_objects >= 1
                    &&& was_written(write_pack_bundle, events)
                },
            }
        },
{
    lemma_consistent_after(run, run, Seq::empty(), events);
    assert(Seq::empty() + events =~= events);
}

/// A file is removed only if it keeps a pack for no reason. Once a fetch succeeded, no such file is left.
pub proof fn law_obsolete_keep_files_are_removed<'a, S: Session>(
    prepare: Prepare<'a, S>,
    object_hash: gix_hash::Kind,
    run: Receive<'a, S>,
    events: Seq<Event<S>>,
)
    requires
        run.is_start(prepare, object_hash),
        all_can_happen(run, events),
    ensures
        match after_events(run, events) {
            Progress::Continue(now) => now.requested() is RemoveFile ==> {
                &&& now.phase is RemoveKeepFile
                &&& is_keep_file_obsolete(
                    now.phase->RemoveKeepFile_bundle,
                    now.phase->RemoveKeepFile_update_refs,
                )
                &&& was_written(now.phase->RemoveKeepFile_bundle, events)
            },
            Progress::Finished(Ok(outcome)) => outcome.status matches Status::Change {
                write_pack_bundle,
                update_refs,
                ..
            } ==> (is_keep_file_obsolete(write_pack_bundle, update_refs)
                ==> write_pack_bundle.keep_path is None),
            Progress::Finished(Err(_)) => true,
        },
{
    lemma_consistent_after(run, run, Seq::empty(), events);
    assert(Seq::empty() + events =~= events);
}

/// Once references were updated, the next thing to do is to remove the file that keeps a pack for no reason. Only
/// then the fetch ends, with the pack being reported as change exactly if there are objects in it.
pub proof fn law_keep_file_is_removed_before_the_end<'a, S: Session>(
    run: Receive<'a, S>,
    bundle: PackBundle,
    negotiate: Negotiate<S>,
    update_refs: UpdateOutcome<S>,
)
    requires
        run.phase == (Phase::UpdateRefs::<S> { received: Received::Pack { bundle, negotiate } }),
    ensures
        match run.next(Reply::RefsUpdated(Ok(update_refs))) {
            Progress::Continue(next) => {
                &&& is_keep_file_obsolete(bundle, update_refs)
                &&& next.requested() matches Request::RemoveFile { path }
                &&& bundle.keep_path == Some(*path)
                &&& next.next(Reply::FileRemoved(Ok(()))) matches Progress::Finished(Ok(outcome))
                &&& outcome.status is Change <==> bundle.index.num_objects != 0
            },
            Progress::Finished(Ok(outcome)) => {
                &&& is_keep_file_obsolete(bundle, update_refs) ==> bundle.keep_path is None
                &&& outcome.status is Change <==> bundle.index.num_objects != 0
            },
            Progress::Finished(Err(_)) => false,
        },
{
}

/// Before references are updated, a server that speaks the second version of the protocol was told that there is
/// nothing left to say. Other servers are never told.
pub proof fn law_interaction_is_ended<'a, S: Session>(
    prepare: Prepare<'a, S>,
    object_hash: gix_hash::Kind,
    run: Receive<'a, S>,
    events: Seq<Event<S>>,
)
    requires
        run.is_start(prepare, object_hash),
        all_can_happen(run, events),
    ensures
        after_events(run, events) matches Progress::Continue(now) ==> {
            let is_v2 = run.handshake.server_protocol_version == Protocol::V2;
            &&& now.requested() is EndInteraction ==> is_v2
            &&& now.requested() is UpdateRefs && is_v2 ==> was_interaction_ended(events)
        },
{
    lemma_consistent_after(run, run, Seq::empty(), events);
    assert(Seq::empty() + events =~= events);
}

/// An upper bound of the amount of answers that `run` still waits for.
pub open spec fn remaining_replies<'a, S: Session>(run: Receive<'a, S>) -> nat {
    match run.phase {
        Phase::RejectShallow => 9,
        Phase::NegotiationAlgorithm { .. } => 8,
        Phase::Alternates { .. } => 7,
        Phase::IndexThreads { .. } => 6,
        Phase::IndexVersion { .. } => 5,
        Phase::Fetch { .. } => 4,
        Phase::EndInteraction { .. } => 3,
        Phase::UpdateRefs { .. } => 2,
        Phase::RemoveKeepFile { .. } => 1,
    }
}

/// Whether `reply` is of the kind that `run` waits for.
pub open spec fn is_answer<'a, S: Session>(run: Receive<'a, S>, reply: Reply<S>) -> bool {
    match run.phase {
        Phase::RejectShallow => reply is RejectShallow,
        Phase::NegotiationAlgorithm { .. } => reply is NegotiationAlgorithm,
        Phase::Alternates { .. } => reply is Alternates,
        Phase::IndexThreads { .. } => reply is IndexThreads,
        Phase::IndexVersion { .. } => reply is IndexVersion,
        Phase::Fetch { .. } => reply is Fetched,
        Phase::EndInteraction { .. } => reply is InteractionEnded,
        Phase::UpdateRefs { .. } => reply is RefsUpdated,
        Phase::RemoveKeepFile { .. } => reply is FileRemoved,
    }
}

/// Whether `reply` keeps a fetch going. A missing value is no obstacle, nor is an invalid one that is ignored, nor a
/// server that does not listen anymore.
pub open spec fn is_success<S: Session>(reply: Reply<S>) -> bool {
    match reply {
        Reply::RejectShallow(configured) => !(configured matches Some(Err(_))),
        Reply::NegotiationAlgorithm { configured, lenient } => lenient || !(
        configured matches Some(Err(_))),
        Reply::Alternates(result) => result is Ok,
        Reply::IndexThreads(result) => result is Ok,
        Reply::IndexVersion(result) => result is Ok,
        Reply::Fetched(result) => result is Ok,
        Reply::InteractionEnded(_) => true,
        Reply::RefsUpdated(result) => result is Ok,
        Reply::FileRemoved(result) => result is Ok,
    }
}

/// The answer to a request brings a fetch closer to its end, or ends it with success, if it reports success.
/// Otherwise it ends the fetch with failure. Everything that is no answer has no effect at all.
pub proof fn law_fetch_makes_progress<'a, S: Session>(run: Receive<'a, S>, reply: Reply<S>)
    ensures
        !is_answer(run, reply) ==> run.next(reply) == Progress::Continue(run),
        is_answer(run, reply) ==> match run.next(reply) {
            Progress::Continue(next) => is_success(reply) && remaining_replies(next)
                < remaining_replies(run),
            Progress::Finished(result) => is_success(reply) == result is Ok,
        },
{
}

/// A fetch does not fail as long as everything that it asks for succeeds.
pub proof fn law_fetch_fails_with_a_reply<'a, S: Session>(
    run: Receive<'a, S>,
    events: Seq<Event<S>>,
)
    requires
        forall|i: int|
            0 <= i < events.len() ==> (#[trigger] events[i] matches Event::Reply(reply)
                ==> is_success(reply)),
    ensures
        after_events(run, events) matches Progress::Finished(result) ==> result is Ok,
    decreases events.len(),
{
    if events.len() != 0 {
        assert(events[0] == events.first());
        if let Progress::Continue(next) = after_event(run, events.first()) {
            let rest = events.drop_first();
            assert forall|i: int| 0 <= i < rest.len() implies (#[trigger] rest[i] matches Event::Reply(
                reply,
            ) ==> is_success(reply)) by {
                assert(rest[i] == events[i + 1]);
            }
            law_fetch_fails_with_a_reply(next, rest);
        }
    }
}

/// A fetch negotiates as the configuration says. Shallow remotes are rejected only if it says so, and the walk over
/// history is consecutive unless it says otherwise. A pack that arrives is verified, and has to use the hash of the
/// repository.
pub proof fn law_fetch_is_configured<'a, S: Session>(
    prepare: Prepare<'a, S>,
    object_hash: gix_hash::Kind,
    run: Receive<'a, S>,
    reject_shallow: Option<Result<bool, S::Failure>>,
    algorithm: Option<Result<Algorithm, S::Failure>>,
    lenient: bool,
    alternates: Vec<PathBuf>,
    threads: Option<usize>,
    version: IndexVersion,
)
    requires
        run.is_start(prepare, object_hash),
        chosen_reject_shallow(reject_shallow) is Ok,
        chosen_algorithm(algorithm, lenient) is Ok,
    ensures
        ({
            let replies = seq![
                Event::Reply(Reply::RejectShallow(reject_shallow)),
                Event::Reply(Reply::NegotiationAlgorithm { configured: algorithm, lenient }),
                Event::Reply(Reply::Alternates(Ok(alternates))),
                Event::Reply(Reply::IndexThreads(Ok(threads))),
                Event::Reply(Reply::IndexVersion(Ok(version))),
            ];
            &&& after_events(run, replies) matches Progress::Continue(now)
            &&& now.requested() matches Request::Fetch {
                settings,
                sink,
                ref_map,
                shallow,
                tags,
                trace,
            }
            &&& settings.reject_shallow_remote == (reject_shallow matches Some(Ok(true)))
            &&& settings.algorithm == (match algorithm {
                Some(Ok(algorithm)) => algorithm,
                _ => Algorithm::Consecutive,
            })
            &&& settings.alternates.paths == alternates
            &&& sink.dry_run == prepare.dry_run
            &&& sink.options.thread_limit == threads
            &&& sink.options.index_version == version
            &&& sink.options.iteration_mode == IterationMode::Verify
            &&& sink.options.object_hash == object_hash
            &&& sink.bundle is None
            &&& *ref_map == prepare.ref_map
            &&& *shallow == prepare.shallow
            &&& *tags == prepare.con->0.remote.fetch_tags
            &&& trace == prepare.con->0.trace
        }),
{
    reveal_with_fuel(after_events, 6);
    let replies = seq![
        Event::<S>::Reply(Reply::RejectShallow(reject_shallow)),
        Event::Reply(Reply::NegotiationAlgorithm { configured: algorithm, lenient }),
        Event::Reply(Reply::Alternates(Ok(alternates))),
        Event::Reply(Reply::IndexThreads(Ok(threads))),
        Event::Reply(Reply::IndexVersion(Ok(version))),
    ];
    let rest = replies.drop_first().drop_first();
    assert(replies.drop_first()[0] == replies[1]);
    assert(rest[0] == replies[2]);
    assert(rest.drop_first()[0] == replies[3]);
    assert(rest.drop_first().drop_first()[0] == replies[4]);
}

/// All that a fetch is asked to do is decided when it starts. How far it has come changes, the transport and the
/// details of the handshake are as they were left by work that was asked for, and nothing else ever changes.
pub proof fn law_fetch_keeps_its_configuration<'a, S: Session>(
    prepare: Prepare<'a, S>,
    object_hash: gix_hash::Kind,
    run: Receive<'a, S>,
    events: Seq<Event<S>>,
)
    requires
        run.is_start(prepare, object_hash),
        all_can_happen(run, events),
    ensures
        after_events(run, events) matches Progress::Continue(now) ==> now == last_run(
            run,
            now.phase,
            events,
        ),
{
    lemma_consistent_after(run, run, Seq::empty(), events);
    assert(Seq::empty() + events =~= events);
}

/// A fetch that succeeds reports a change exactly if the last pack that was written has objects, and then it reports that
/// very pack. In any case it reports the negotiation and the update of references that it was told about. The file that
/// keeps the pack is gone if references changed or there is nothing in the pack, and is left alone otherwise.
pub proof fn law_written_packs_are_reported<'a, S: Session>(
    prepare: Prepare<'a, S>,
    object_hash: gix_hash::Kind,
    run: Receive<'a, S>,
    events: Seq<Event<S>>,
)
    requires
        run.is_start(prepare, object_hash),
        all_can_happen(run, events),
    ensures
        after_events(run, events) matches Progress::Finished(Ok(outcome)) ==> match last_pack(
            events,
        ) {
            Some(pack) if pack.index.num_objects > 0 => {
                &&& outcome.status matches Status::Change {
                    negotiate,
                    write_pack_bundle,
                    update_refs,
                }
                &&& events.contains(Event::Reply(Reply::Fetched(Ok(Some(negotiate)))))
                &&& events.contains(Event::Reply(Reply::RefsUpdated(Ok(update_refs))))
                &&& write_pack_bundle == (PackBundle {
                    keep_path: if update_refs.edits@.len() > 0 {
                        None
                    } else {
                        pack.keep_path
                    },
                    ..pack
                })
                &&& pack.keep_path is Some && update_refs.edits@.len() > 0 ==> events.contains(
                    Event::Reply(Reply::FileRemoved(Ok(()))),
                )
            },
            pack => {
                &&& outcome.status matches Status::NoPackReceived {
                    dry_run,
                    negotiate,
                    update_refs,
                }
                &&& dry_run == (prepare.dry_run == DryRun::Yes)
                &&& pack is Some ==> negotiate is Some
                &&& events.contains(Event::Reply(Reply::Fetched(Ok(negotiate))))
                &&& events.contains(Event::Reply(Reply::RefsUpdated(Ok(update_refs))))
                &&& pack is Some && pack->0.keep_path is Some ==> events.contains(
                    Event::Reply(Reply::FileRemoved(Ok(()))),
                )
            },
        },
{
    lemma_consistent_after(run, run, Seq::empty(), events);
    assert(Seq::empty() + events =~= events);
}

/// Whatever happened before, a request has exactly what was prepared: references are negotiated and updated with the
/// mappings, refspecs, tags, message and choices that the fetch was configured with, be there a pack or not. A file is
/// removed only if it keeps the last pack that was written, and references changed or there is nothing in the pack.
pub proof fn law_fetch_requests<'a, S: Session>(
    prepare: Prepare<'a, S>,
    object_hash: gix_hash::Kind,
    run: Receive<'a, S>,
    events: Seq<Event<S>>,
)
    requires
        prepare.con is Some,
        run.is_start(prepare, object_hash),
        all_can_happen(run, events),
    ensures
        after_events(run, events) matches Progress::Continue(now) ==> match now.requested() {
            Request::Fetch { sink, ref_map, shallow, tags, trace, .. } => {
                &&& *ref_map == prepare.ref_map
                &&& *shallow == prepare.shallow
                &&& *tags == prepare.con->0.remote.fetch_tags
                &&& trace == prepare.con->0.trace
                &&& sink.dry_run == prepare.dry_run
                &&& sink.bundle == last_pack(events)
                &&& sink.options.iteration_mode == IterationMode::Verify
                &&& sink.options.object_hash == object_hash
            },
            Request::EndInteraction { trace } => trace == prepare.con->0.trace,
            Request::UpdateRefs {
                message,
                mappings,
                refspecs,
                extra_refspecs,
                tags,
                dry_run,
                write_packed_refs,
            } => {
                &&& match prepare.reflog_message {
                    Some(prepared) => *message == prepared,
                    None => message@ == (RefLogMessageView::Prefixed {
                        action: seq!['f', 'e', 't', 'c', 'h'],
                    }),
                }
                &&& *mappings == prepare.ref_map.mappings
                &&& *refspecs == prepare.con->0.remote.fetch_specs
                &&& *extra_refspecs == prepare.ref_map.extra_refspecs
                &&& *tags == prepare.con->0.remote.fetch_tags
                &&& dry_run == prepare.dry_run
                &&& write_packed_refs == prepare.write_packed_refs
            },
            Request::RemoveFile { path } => {
                &&& last_pack(events) matches Some(pack)
                &&& pack.keep_path == Some(*path)
                &&& pack.index.num_objects == 0 || exists|update_refs: UpdateOutcome<S>|
                    #![trigger update_refs.edits]
                    update_refs.edits@.len() > 0 && events.contains(
                        Event::Reply(Reply::RefsUpdated(Ok(update_refs))),
                    )
            },
            _ => true,
        },
{
    lemma_consistent_after(run, run, Seq::empty(), events);
    assert(Seq::empty() + events =~= events);
    if let Progress::Continue(now) = after_events(run, events) {
        if let Phase::RemoveKeepFile { update_refs, .. } = now.phase {
            assert(update_refs.edits == update_refs.edits);
        }
    }
}

/// Configuration is asked for first, one value after the other, with an invalid one ending the fetch with the error that
/// belongs to it. Then a pack is fetched.
pub proof fn law_order_of_configuration<'a, S: Session>(run: Receive<'a, S>, reply: Reply<S>)
    ensures
        match (run.requested(), reply, run.next(reply)) {
            (Request::RejectShallowConfig, Reply::RejectShallow(value), after) => match value {
                Some(Err(err)) => after == Progress::<'a, S>::Finished(
                    Err(Error::RejectShallowRemoteConfig(err)),
                ),
                _ => after matches Progress::Continue(next) && next.requested()
                    is NegotiationAlgorithmConfig,
            },
            (
                Request::NegotiationAlgorithmConfig,
                Reply::NegotiationAlgorithm { configured, lenient },
                after,
            ) => match configured {
                Some(Err(err)) if !lenient => after == Progress::<'a, S>::Finished(
                    Err(Error::NegotiationAlgorithmConfig(err)),
                ),
                _ => after matches Progress::Continue(next) && next.requested() is LoadAlternates,
            },
            (Request::LoadAlternates, Reply::Alternates(value), after) => match value {
                Err(err) => after == Progress::<'a, S>::Finished(Err(Error::LoadAlternates(err))),
                Ok(_) => after matches Progress::Continue(next) && next.requested()
                    is IndexThreadsConfig,
            },
            (Request::IndexThreadsConfig, Reply::IndexThreads(value), after) => match value {
                Err(err) => after == Progress::<'a, S>::Finished(Err(Error::PackThreads(err))),
                Ok(_) => after matches Progress::Continue(next) && next.requested()
                    is IndexVersionConfig,
            },
            (Request::IndexVersionConfig, Reply::IndexVersion(value), after) => match value {
                Err(err) => after == Progress::<'a, S>::Finished(Err(Error::PackIndexVersion(err))),
                Ok(_) => after matches Progress::Continue(next) && next.requested() is Fetch,
            },
            _ => true,
        },
{
}

/// Once a pack was fetched, a server that speaks the second version of the protocol is told that there is nothing left to
/// say, and whether it listens or not, references are updated then. With other servers references are updated at once.
/// After that the file that keeps the last pack is removed if there is such a file and it is not needed anymore, and the
/// fetch succeeds. What fails ends the fetch with the error that belongs to it.
pub proof fn law_order_of_fetching<'a, S: Session>(
    prepare: Prepare<'a, S>,
    object_hash: gix_hash::Kind,
    run: Receive<'a, S>,
    events: Seq<Event<S>>,
    now: Receive<'a, S>,
    reply: Reply<S>,
)
    requires
        prepare.con is Some && prepare.con->0.handshake is Some,
        run.is_start(prepare, object_hash),
        all_can_happen(run, events),
        after_events(run, events) == Progress::Continue(now),
        reply matches Reply::Fetched(Ok(None)) ==> last_pack(events) is None,
    ensures
        match (now.requested(), reply, now.next(reply)) {
            (Request::Fetch { .. }, Reply::Fetched(fetched), after) => match fetched {
                Err(err) => after == Progress::<'a, S>::Finished(Err(Error::Fetch(err))),
                Ok(_) => {
                    &&& after matches Progress::Continue(next)
                    &&& if prepare.con->0.handshake->0.server_protocol_version == Protocol::V2 {
                        next.requested() is EndInteraction
                    } else {
                        next.requested() is UpdateRefs
                    }
                },
            },
            (Request::EndInteraction { .. }, Reply::InteractionEnded(_), after) => after
                matches Progress::Continue(next) && next.requested() is UpdateRefs,
            (Request::UpdateRefs { .. }, Reply::RefsUpdated(updated), after) => match updated {
                Err(err) => after == Progress::<'a, S>::Finished(Err(Error::UpdateRefs(err))),
                Ok(update_refs) => match last_pack(events) {
                    Some(pack) if pack.keep_path is Some && (update_refs.edits@.len() > 0
                        || pack.index.num_objects == 0) => {
                        &&& after matches Progress::Continue(next)
                        &&& next.requested() matches Request::RemoveFile { path }
                        &&& *path == pack.keep_path->0
                    },
                    _ => after matches Progress::Finished(Ok(_)),
                },
            },
            (Request::RemoveFile { path }, Reply::FileRemoved(removed), after) => match removed {
                Err(source) => after == Progress::<'a, S>::Finished(
                    Err(Error::RemovePackKeepFile { path: *path, source }),
                ),
                Ok(()) => after matches Progress::Finished(Ok(_)),
            },
            _ => true,
        },
{
    lemma_consistent_after(run, run, Seq::empty(), events);
    assert(Seq::empty() + events =~= events);
}

/// A fetch starts by asking whether to reject shallow remotes.
pub proof fn law_fetch_starts_with_configuration<'a, S: Session>(
    prepare: Prepare<'a, S>,
    object_hash: gix_hash::Kind,
    run: Receive<'a, S>,
)
    requires
        run.is_start(prepare, object_hash),
    ensures
        run.requested() is RejectShallowConfig,
{
}

/// While a pack is being fetched, alternates are as the negotiation left them, with all else that configures the
/// negotiation as it was.
pub proof fn law_alternates_are_kept_as_left<'a, S: Session>(
    run: Receive<'a, S>,
    event: Event<S>,
)
    requires
        run.phase is Fetch,
        can_happen(run, event),
        !(event is Reply),
    ensures
        after_event(run, event) matches Progress::Continue(next) && next.requested()
            matches Request::Fetch { settings: after, .. } && run.requested()
            matches Request::Fetch { settings: before, .. } && {
            &&& after.algorithm == before.algorithm
            &&& after.reject_shallow_remote == before.reject_shallow_remote
            &&& after.alternates == (match event {
                Event::Alternates(left) => left,
                _ => before.alternates,
            })
        },
{
}

/// A fetch is refused exactly if a refspec asks for what the remote does not have, or else if the remote uses another hash.
/// The former is reported with all refspecs, those of the remote first, and the amount of references of the remote, the
/// latter with both hashes. Otherwise it starts.
pub proof fn law_refused_fetches<'a, S: Session>(
    prepare: Prepare<'a, S>,
    object_hash: gix_hash::Kind,
    received: Result<Receive<'a, S>, Error<S>>,
)
    requires
        call_ensures(Prepare::<'a, S>::receive, (prepare, object_hash), received),
    ensures
        match received {
            Err(Error::NoMapping { refspecs, num_remote_refs }) => {
                &&& prepare.ref_map.missing_required_mapping
                &&& refspecs@ == prepare.ref_map.refspecs@ + prepare.ref_map.extra_refspecs@
                &&& num_remote_refs == prepare.ref_map.remote_refs@.len()
            },
            Err(Error::IncompatibleObjectHash { local, remote }) => {
                &&& !prepare.ref_map.missing_required_mapping
                &&& local != remote
                &&& local == object_hash
                &&& remote == prepare.ref_map.object_hash
            },
            Err(_) => false,
            Ok(run) => {
                &&& !prepare.ref_map.missing_required_mapping
                &&& prepare.ref_map.object_hash == object_hash
                &&& run.is_start(prepare, object_hash)
            },
        },
{
}

} // verus!
