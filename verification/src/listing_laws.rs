//! What holds of every listing, whatever comes of the work that it asks for.

use gix_refspec::RefSpec;
use vstd::prelude::*;

use crate::connection::Connection;
use crate::listing::{Listed, Phase, Progress, RefMapRun, Reply, Request};
use crate::prepare::Prepare;
use crate::ref_map::{Error, Options, RefMap, RefsFailure};
use crate::refspec::with_tag_spec;
use crate::session::{Handshake, Service, Session};
use crate::url::parse_result;

verus! {

/// Something that happens during a listing.
pub enum Event<S: Session> {
    /// A request was answered.
    Reply(Reply<S>),
    /// Work that was asked for left the transport in another state.
    Transport(S::Transport),
    /// The handshake left the way to obtain credentials in another state.
    Credentials(S::Credentials),
    /// Determining how to obtain references left other details of the handshake.
    Details(S::HandshakeDetails),
}

/// Whether `event` can happen: there is nothing to change in credentials before they are there, nor in the details of
/// a handshake unless it is time to look at them.
pub open spec fn can_happen<'a, S: Session>(run: RefMapRun<'a, S>, event: Event<S>) -> bool {
    match event {
        Event::Reply(_) | Event::Transport(_) => true,
        Event::Credentials(_) => run.authenticator() is Some,
        Event::Details(_) => run.phase is PrepareRefs,
    }
}

/// The state of affairs after `event`.
pub open spec fn after_event<'a, S: Session>(
    run: RefMapRun<'a, S>,
    event: Event<S>,
) -> Progress<'a, S> {
    match event {
        Event::Reply(reply) => run.next(reply),
        Event::Transport(transport) => Progress::Continue(run.with_transport(transport)),
        Event::Credentials(credentials) => Progress::Continue(run.with_authenticator(credentials)),
        Event::Details(details) => Progress::Continue(run.with_details(details)),
    }
}

/// The state of affairs after all `events`, or after as many of them as it takes to end.
pub open spec fn after_events<'a, S: Session>(
    run: RefMapRun<'a, S>,
    events: Seq<Event<S>>,
) -> Progress<'a, S>
    decreases events.len(),
{
    if events.len() == 0 {
        Progress::Continue(run)
    } else {
        match after_event(run, events.first()) {
            Progress::Continue(run) => after_events(run, events.drop_first()),
            Progress::Finished(listed) => Progress::Finished(listed),
        }
    }
}

/// Whether all `events` can happen in sequence, with nothing happening after the end.
pub open spec fn all_can_happen<'a, S: Session>(
    run: RefMapRun<'a, S>,
    events: Seq<Event<S>>,
) -> bool
    decreases events.len(),
{
    events.len() == 0 || (can_happen(run, events.first()) && match after_event(
        run,
        events.first(),
    ) {
        Progress::Continue(run) => all_can_happen(run, events.drop_first()),
        Progress::Finished(_) => events.len() == 1,
    })
}

/// The state of the transport after `events`, which is `transport` unless it was changed.
pub open spec fn last_transport<S: Session>(
    transport: S::Transport,
    events: Seq<Event<S>>,
) -> S::Transport
    decreases events.len(),
{
    if events.len() == 0 {
        transport
    } else {
        match events.last() {
            Event::Transport(changed) => changed,
            _ => last_transport(transport, events.drop_last()),
        }
    }
}

/// The state of the way to obtain credentials after `events`, which is `credentials` unless it was changed.
pub open spec fn last_credentials<S: Session>(
    credentials: S::Credentials,
    events: Seq<Event<S>>,
) -> S::Credentials
    decreases events.len(),
{
    if events.len() == 0 {
        credentials
    } else {
        match events.last() {
            Event::Credentials(changed) => changed,
            _ => last_credentials(credentials, events.drop_last()),
        }
    }
}

/// The details of the handshake after `events`, which are `details` unless they were changed.
pub open spec fn last_details<S: Session>(
    details: S::HandshakeDetails,
    events: Seq<Event<S>>,
) -> S::HandshakeDetails
    decreases events.len(),
{
    if events.len() == 0 {
        details
    } else {
        match events.last() {
            Event::Details(changed) => changed,
            _ => last_details(details, events.drop_last()),
        }
    }
}

/// Whether `credentials` were configured according to one of `events`, and are as they were left by those that followed.
pub open spec fn were_configured<S: Session>(
    credentials: S::Credentials,
    events: Seq<Event<S>>,
) -> bool {
    exists|i: int|
        0 <= i < events.len() && (#[trigger] events[i] matches Event::Reply(
            Reply::Credentials(Ok(configured)),
        ) && credentials == last_credentials(configured, events.skip(i + 1)))
}

/// Whether `handshake` was reported by one of `events`, with its details as they were left by those that followed.
pub open spec fn was_reported<S: Session>(handshake: Handshake<S>, events: Seq<Event<S>>) -> bool {
    exists|i: int|
        0 <= i < events.len() && (#[trigger] events[i] matches Event::Reply(
            Reply::Handshake(Ok(reported)),
        ) && handshake == (Handshake {
            details: last_details(reported.details, events.skip(i + 1)),
            ..reported
        }))
}

/// Whether `now` is the connection `con` after `events`, apart from the handshake. Work that was asked for may have
/// changed its transport and its custom credentials in place, and it has transport options that it lacked before only if
/// they were gathered.
pub open spec fn is_same_connection<'a, S: Session>(
    con: Connection<'a, S>,
    now: Connection<'a, S>,
    events: Seq<Event<S>>,
) -> bool {
    &&& now.remote == con.remote
    &&& now.authenticate == (match con.authenticate {
        Some(custom) => Some(last_credentials(custom, events)),
        None => None,
    })
    &&& match con.transport_options {
        Some(_) => now.transport_options == con.transport_options,
        None => now.transport_options is Some ==> events.contains(
            Event::Reply(Reply::TransportOptions(Ok(now.transport_options))),
        ),
    }
    &&& now.transport == last_transport(con.transport, events)
    &&& now.trace == con.trace
}

/// Whether a listing that started as `start` may have come to `run` after `seen`.
spec fn is_consistent<'a, S: Session>(
    start: RefMapRun<'a, S>,
    run: RefMapRun<'a, S>,
    seen: Seq<Event<S>>,
) -> bool {
    &&& is_same_connection(start.con, run.con, seen)
    &&& run.con.handshake == start.con.handshake
    &&& run.transport_url == start.transport_url
    &&& run.options == start.options
    &&& run.con.authenticate is None && run.credentials is Some ==> were_configured(
        run.credentials->0,
        seen,
    )
    &&& (run.phase is Handshake || run.phase is PrepareRefs || run.phase is FetchRefs)
        && run.con.transport_options is Some ==> seen.contains(
        Event::Reply(Reply::TransportConfigured(Ok(()))),
    )
    &&& match run.phase {
        Phase::InvalidTransportUrl { .. } => start.con.authenticate is None && run.phase
            == start.phase,
        Phase::Credentials { .. } => {
            &&& start.con.authenticate is None
            &&& run.phase == start.phase
            &&& run.con.transport_options == start.con.transport_options
        },
        Phase::TransportOptions => run.con.transport_options is None && run.authenticator() is Some,
        Phase::ConfigureTransport => run.con.transport_options is Some && run.authenticator() is Some,
        Phase::Handshake => run.authenticator() is Some,
        Phase::PrepareRefs { handshake } => was_reported(handshake, seen),
        Phase::FetchRefs { handshake, listing } => was_reported(handshake, seen) && seen.contains(
            Event::Reply(Reply::RefsPrepared(Ok(listing))),
        ),
    }
}

/// Whether a listing that started as `start` may have ended with `listed` after `seen`.
spec fn is_end_consistent<'a, S: Session>(
    start: RefMapRun<'a, S>,
    listed: Listed<'a, S>,
    seen: Seq<Event<S>>,
) -> bool {
    &&& is_same_connection(start.con, listed.con, seen)
    &&& match listed.result {
        Ok(ref_map) => {
            &&& listed.con.handshake is Some
            &&& was_reported(listed.con.handshake->0, seen)
            &&& seen.contains(Event::Reply(Reply::RefsFetched(Ok(ref_map))))
        },
        Err(_) => listed.con.handshake == start.con.handshake,
    }
}

proof fn lemma_were_configured_extends<S: Session>(
    credentials: S::Credentials,
    seen: Seq<Event<S>>,
    event: Event<S>,
)
    requires
        were_configured(credentials, seen),
    ensures
        were_configured(last_credentials(credentials, seq![event]), seen.push(event)),
{
    reveal_with_fuel(last_credentials, 2);
    let i = choose|i: int|
        0 <= i < seen.len() && (#[trigger] seen[i] matches Event::Reply(
            Reply::Credentials(Ok(configured)),
        ) && credentials == last_credentials(configured, seen.skip(i + 1)));
    assert(seen.push(event)[i] == seen[i]);
    assert(seen.push(event).skip(i + 1).drop_last() =~= seen.skip(i + 1));
}

proof fn lemma_was_reported_extends<S: Session>(
    handshake: Handshake<S>,
    seen: Seq<Event<S>>,
    event: Event<S>,
)
    requires
        was_reported(handshake, seen),
    ensures
        was_reported(
            (Handshake { details: last_details(handshake.details, seq![event]), ..handshake }),
            seen.push(event),
        ),
{
    reveal_with_fuel(last_details, 2);
    let i = choose|i: int|
        0 <= i < seen.len() && (#[trigger] seen[i] matches Event::Reply(
            Reply::Handshake(Ok(reported)),
        ) && handshake == (Handshake {
            details: last_details(reported.details, seen.skip(i + 1)),
            ..reported
        }));
    assert(seen.push(event)[i] == seen[i]);
    assert(seen.push(event).skip(i + 1).drop_last() =~= seen.skip(i + 1));
}

proof fn lemma_consistent_after_event<'a, S: Session>(
    start: RefMapRun<'a, S>,
    run: RefMapRun<'a, S>,
    seen: Seq<Event<S>>,
    event: Event<S>,
)
    requires
        is_consistent(start, run, seen),
        can_happen(run, event),
    ensures
        match after_event(run, event) {
            Progress::Continue(next) => is_consistent(start, next, seen.push(event)),
            Progress::Finished(listed) => is_end_consistent(start, listed, seen.push(event)),
        },
{
    reveal_with_fuel(last_credentials, 2);
    reveal_with_fuel(last_details, 2);
    let now = seen.push(event);
    assert(now[seen.len() as int] == event);
    assert(now.drop_last() =~= seen);
    assert(now.skip(seen.len() as int + 1) =~= Seq::empty());
    assert forall|e: Event<S>| seen.contains(e) implies #[trigger] now.contains(e) by {
        let i = choose|i: int| 0 <= i < seen.len() && seen[i] == e;
        assert(now[i] == e);
    }
    if let Event::Reply(Reply::TransportConfigured(Ok(configured))) = event {
        assert(configured == ());
    }
    if run.con.authenticate is None && run.credentials is Some {
        lemma_were_configured_extends(run.credentials->0, seen, event);
    }
    match run.phase {
        Phase::PrepareRefs { handshake } => {
            lemma_was_reported_extends(handshake, seen, event);
        },
        Phase::FetchRefs { handshake, .. } => {
            lemma_was_reported_extends(handshake, seen, event);
        },
        _ => {},
    }
}

proof fn lemma_consistent_after<'a, S: Session>(
    start: RefMapRun<'a, S>,
    run: RefMapRun<'a, S>,
    seen: Seq<Event<S>>,
    events: Seq<Event<S>>,
)
    requires
        is_consistent(start, run, seen),
        all_can_happen(run, events),
    ensures
        match after_events(run, events) {
            Progress::Continue(now) => is_consistent(start, now, seen + events),
            Progress::Finished(listed) => is_end_consistent(start, listed, seen + events),
        },
    decreases events.len(),
{
    if events.len() == 0 {
        assert(seen + events =~= seen);
    } else {
        let event = events.first();
        lemma_consistent_after_event(start, run, seen, event);
        assert(seen.push(event) + events.drop_first() =~= seen + events);
        match after_event(run, event) {
            Progress::Continue(next) => {
                lemma_consistent_after(start, next, seen.push(event), events.drop_first());
            },
            Progress::Finished(_) => {
                assert(seen.push(event) =~= seen + events);
            },
        }
    }
}

/// A listing never changes where the connection leads to, nor does it replace transport options that were set before.
/// Its transport and custom credentials are what they were, as left by work that was asked for. Only success changes
/// the handshake.
pub proof fn law_listing_keeps_connection<'a, S: Session>(
    con: Connection<'a, S>,
    transport_url: Vec<u8>,
    tag_spec: Option<RefSpec>,
    options: Options,
    run: RefMapRun<'a, S>,
    events: Seq<Event<S>>,
)
    requires
        run.is_start(con, transport_url, tag_spec, options),
        all_can_happen(run, events),
    ensures
        match after_events(run, events) {
            Progress::Continue(now) => {
                &&& is_same_connection(con, now.con, events)
                &&& now.con.handshake == con.handshake
            },
            Progress::Finished(listed) => {
                &&& is_same_connection(con, listed.con, events)
                &&& listed.result is Err ==> listed.con.handshake == con.handshake
            },
        },
{
    lemma_consistent_after(run, run, Seq::empty(), events);
    assert(Seq::empty() + events =~= events);
}

/// A listing asks for configured credentials only without custom ones, and for configured transport options only
/// without any. When it is time to configure the transport the options are there, either those that were set or those
/// that were gathered. During the handshake there is a way to obtain credentials, either the custom one or the one that
/// was configured. The handshake is for receiving a pack. References are looked for with the handshake that was reported,
/// with the refspecs of the remote, and with extra refspecs that have the one for tags.
pub proof fn law_listing_requests<'a, S: Session>(
    con: Connection<'a, S>,
    transport_url: Vec<u8>,
    tag_spec: Option<RefSpec>,
    options: Options,
    run: RefMapRun<'a, S>,
    events: Seq<Event<S>>,
)
    requires
        run.is_start(con, transport_url, tag_spec, options),
        all_can_happen(run, events),
    ensures
        after_events(run, events) matches Progress::Continue(now) ==> match now.requested() {
            Request::RejectTransportUrl { .. } => con.authenticate is None,
            Request::ConfigureCredentials { .. } => con.authenticate is None,
            Request::GatherTransportOptions { transport_url: url, remote_name } => {
                &&& con.transport_options is None
                &&& *url == transport_url
                &&& *remote_name == con.remote.name
            },
            Request::ConfigureTransport { options: config } => {
                &&& config is Some
                &&& match con.transport_options {
                    Some(set) => *config->0 == set,
                    None => events.contains(
                        Event::Reply(Reply::TransportOptions(Ok(Some(*config->0)))),
                    ),
                }
            },
            Request::Handshake { service, authenticate, parameters } => {
                &&& service == Service::UploadPack
                &&& authenticate is Some
                &&& match con.authenticate {
                    Some(custom) => *authenticate->0 == last_credentials(custom, events),
                    None => were_configured(*authenticate->0, events),
                }
                &&& *parameters == options.handshake_parameters
            },
            Request::PrepareRefs {
                handshake,
                prefix_from_spec_as_filter_on_remote,
                fetch_refspecs,
                extra_refspecs,
            } => {
                &&& was_reported(*handshake, events)
                &&& prefix_from_spec_as_filter_on_remote
                    == options.prefix_from_spec_as_filter_on_remote
                &&& *fetch_refspecs == con.remote.fetch_specs
                &&& extra_refspecs@ == with_tag_spec(options.extra_refspecs@, tag_spec)
            },
            Request::FetchRefs { listing, trace } => {
                &&& events.contains(Event::Reply(Reply::RefsPrepared(Ok(*listing))))
                &&& trace == con.trace
            },
        },
{
    lemma_consistent_after(run, run, Seq::empty(), events);
    assert(Seq::empty() + events =~= events);
}

/// Listing references performs the handshake and stores it if it succeeds: with references there is a handshake,
/// and it is the one that was reported, with its details as they were left by work that was asked for. The references
/// are those that were obtained. A fetch that was prepared with all that is ready to receive.
pub proof fn law_listing_stores_handshake<'a, S: Session>(
    con: Connection<'a, S>,
    transport_url: Vec<u8>,
    tag_spec: Option<RefSpec>,
    options: Options,
    run: RefMapRun<'a, S>,
    events: Seq<Event<S>>,
    prepare: Prepare<'a, S>,
)
    requires
        run.is_start(con, transport_url, tag_spec, options),
        all_can_happen(run, events),
    ensures
        after_events(run, events) matches Progress::Finished(listed) ==> {
            &&& listed.has_handshake()
            &&& listed.result matches Ok(ref_map) ==> {
                &&& was_reported(listed.con.handshake->0, events)
                &&& events.contains(Event::Reply(Reply::RefsFetched(Ok(ref_map))))
                &&& prepare.con == Some(listed.con) ==> prepare.is_connected()
            }
        },
{
    lemma_consistent_after(run, run, Seq::empty(), events);
    assert(Seq::empty() + events =~= events);
}

/// Whether `reply` reports success.
pub open spec fn is_success<S: Session>(reply: Reply<S>) -> bool {
    match reply {
        Reply::Credentials(result) => result is Ok,
        Reply::TransportOptions(result) => result is Ok,
        Reply::TransportConfigured(result) => result is Ok,
        Reply::Handshake(result) => result is Ok,
        Reply::RefsPrepared(result) => result is Ok,
        Reply::RefsFetched(result) => result is Ok,
    }
}

/// A listing does not fail as long as everything that it asks for succeeds.
pub proof fn law_listing_fails_with_a_reply<'a, S: Session>(
    run: RefMapRun<'a, S>,
    events: Seq<Event<S>>,
)
    requires
        forall|i: int|
            0 <= i < events.len() ==> (#[trigger] events[i] matches Event::Reply(reply)
                ==> is_success(reply)),
    ensures
        after_events(run, events) matches Progress::Finished(listed) ==> listed.result is Ok,
    decreases events.len(),
{
    if events.len() != 0 {
        assert(events[0] == events.first());
        if let Progress::Continue(next) = after_event(run, events.first()) {
            let rest = events.drop_first();
            assert forall|i: int| 0 <= i < rest.len() implies (#[trigger] rest[i] matches Event::Reply(
                reply,
            ) ==> is_success(reply)) by {
                assert(rest[i] == events[i + 1]);
            }
            law_listing_fails_with_a_reply(next, rest);
        }
    }
}

/// An upper bound of the amount of answers that `run` still waits for.
pub open spec fn remaining_replies<'a, S: Session>(run: RefMapRun<'a, S>) -> nat {
    match run.phase {
        Phase::InvalidTransportUrl { .. } => 0,
        Phase::Credentials { .. } => 6,
        Phase::TransportOptions => 5,
        Phase::ConfigureTransport => 4,
        Phase::Handshake => 3,
        Phase::PrepareRefs { .. } => 2,
        Phase::FetchRefs { .. } => 1,
    }
}

/// Whether `reply` is of the kind that `run` waits for.
pub open spec fn is_answer<'a, S: Session>(run: RefMapRun<'a, S>, reply: Reply<S>) -> bool {
    match run.phase {
        Phase::InvalidTransportUrl { .. } => false,
        Phase::Credentials { .. } => reply is Credentials,
        Phase::TransportOptions => reply is TransportOptions,
        Phase::ConfigureTransport => reply is TransportConfigured,
        Phase::Handshake => reply is Handshake,
        Phase::PrepareRefs { .. } => reply is RefsPrepared,
        Phase::FetchRefs { .. } => reply is RefsFetched,
    }
}

/// The answer to a request brings a listing closer to its end, or ends it with success, if it reports success.
/// Otherwise it ends the listing with failure. Everything that is no answer has no effect at all.
pub proof fn law_listing_makes_progress<'a, S: Session>(run: RefMapRun<'a, S>, reply: Reply<S>)
    ensures
        !is_answer(run, reply) ==> run.next(reply) == Progress::Continue(run),
        is_answer(run, reply) ==> match run.next(reply) {
            Progress::Continue(next) => is_success(reply) && remaining_replies(next)
                < remaining_replies(run),
            Progress::Finished(listed) => is_success(reply) == listed.result is Ok,
        },
{
}

/// A listing without custom credentials starts by asking for configured ones, for the location of the remote if it has
/// one, and for the location that the transport reports otherwise, which has to be valid. With custom credentials it starts
/// by asking for transport options if there are none, and by configuring the transport with those that there are otherwise.
pub proof fn law_listing_starts<'a, S: Session>(
    con: Connection<'a, S>,
    transport_url: Vec<u8>,
    tag_spec: Option<RefSpec>,
    options: Options,
    run: RefMapRun<'a, S>,
)
    requires
        run.is_start(con, transport_url, tag_spec, options),
    ensures
        match (con.authenticate, con.remote.url, con.transport_options) {
            (None, Some(of_remote), _) => {
                &&& run.requested() matches Request::ConfigureCredentials { url }
                &&& *url == of_remote
            },
            (None, None, _) => exists|on_windows: bool|
                match #[trigger] parse_result(transport_url@, on_windows) {
                    Ok(of_transport) => {
                        &&& run.requested() matches Request::ConfigureCredentials { url }
                        &&& *url == of_transport
                    },
                    Err(err) => {
                        &&& run.requested() matches Request::RejectTransportUrl { source }
                        &&& *source == err
                    },
                },
            (Some(_), _, None) => run.requested() is GatherTransportOptions,
            (Some(_), _, Some(set)) => {
                &&& run.requested() matches Request::ConfigureTransport { options: config }
                &&& config is Some && *config->0 == set
            },
        },
{
    if con.authenticate is None && con.remote.url is None {
        let on_unix = parse_result(transport_url@, false);
        let on_windows = parse_result(transport_url@, true);
        assert(on_unix is Ok || on_unix is Err);
        assert(on_windows is Ok || on_windows is Err);
    }
}

/// A listing goes on with what is still missing: transport options are asked for if there are none, the transport is
/// configured with all options that there are, and only then the handshake follows. With its result it is determined how to
/// obtain references, and with that they are obtained, which ends the listing. What fails ends the listing with the error
/// that belongs to it.
pub proof fn law_order_of_listing<'a, S: Session>(
    con: Connection<'a, S>,
    transport_url: Vec<u8>,
    tag_spec: Option<RefSpec>,
    options: Options,
    run: RefMapRun<'a, S>,
    events: Seq<Event<S>>,
    now: RefMapRun<'a, S>,
    reply: Reply<S>,
)
    requires
        run.is_start(con, transport_url, tag_spec, options),
        all_can_happen(run, events),
        after_events(run, events) == Progress::Continue(now),
    ensures
        match (now.requested(), reply, now.next(reply)) {
            (Request::ConfigureCredentials { .. }, Reply::Credentials(value), after) => match value {
                Err(source) => after matches Progress::Finished(listed) && listed.result == Err::<
                    RefMap<S>,
                    _,
                >(Error::<S>::ConfigureCredentials(source)),
                Ok(_) => {
                    &&& after matches Progress::Continue(next)
                    &&& match con.transport_options {
                        None => next.requested() is GatherTransportOptions,
                        Some(set) => {
                            &&& next.requested() matches Request::ConfigureTransport {
                                options: config,
                            }
                            &&& config is Some && *config->0 == set
                        },
                    }
                },
            },
            (Request::GatherTransportOptions { .. }, Reply::TransportOptions(value), after) => {
                match value {
                    Err(source) => after matches Progress::Finished(listed) && listed.result
                        == Err::<RefMap<S>, _>(
                        (Error::<S>::GatherTransportConfig { url: transport_url, source }),
                    ),
                    Ok(None) => after matches Progress::Continue(next) && next.requested()
                        is Handshake,
                    Ok(Some(gathered)) => {
                        &&& after matches Progress::Continue(next)
                        &&& next.requested() matches Request::ConfigureTransport { options: config }
                        &&& config is Some && *config->0 == gathered
                    },
                }
            },
            (Request::ConfigureTransport { .. }, Reply::TransportConfigured(value), after) => {
                match value {
                    Err(source) => after matches Progress::Finished(listed) && listed.result
                        == Err::<RefMap<S>, _>(Error::<S>::ConfigureTransport(source)),
                    Ok(()) => after matches Progress::Continue(next) && next.requested()
                        is Handshake,
                }
            },
            (Request::Handshake { .. }, Reply::Handshake(value), after) => match value {
                Err(err) => after matches Progress::Finished(listed) && listed.result == Err::<
                    RefMap<S>,
                    _,
                >(Error::Handshake(err)),
                Ok(reported) => {
                    &&& after matches Progress::Continue(next)
                    &&& next.requested() matches Request::PrepareRefs { handshake, .. }
                    &&& *handshake == reported
                },
            },
            (Request::PrepareRefs { .. }, Reply::RefsPrepared(value), after) => match value {
                Err(source) => after matches Progress::Finished(listed) && listed.result == Err::<
                    RefMap<S>,
                    _,
                >(Error::<S>::InitRefMap(source)),
                Ok(prepared) => {
                    &&& after matches Progress::Continue(next)
                    &&& next.requested() matches Request::FetchRefs { listing, .. }
                    &&& *listing == prepared
                },
            },
            (Request::FetchRefs { .. }, Reply::RefsFetched(value), after) => {
                &&& after matches Progress::Finished(listed)
                &&& listed.result == (match value {
                    Err(RefsFailure::InitRefMap(source)) => Err::<RefMap<S>, _>(
                        Error::<S>::InitRefMap(source),
                    ),
                    Err(RefsFailure::Transport(err)) => Err(Error::Transport(err)),
                    Ok(ref_map) => Ok(ref_map),
                })
            },
            _ => true,
        },
{
    lemma_consistent_after(run, run, Seq::empty(), events);
    assert(Seq::empty() + events =~= events);
}

/// Whenever the handshake, or anything after it, is asked for, and the connection has transport options, then the
/// transport was configured before. Credentials are asked for the same location all along.
pub proof fn law_transport_is_configured_before_the_handshake<'a, S: Session>(
    con: Connection<'a, S>,
    transport_url: Vec<u8>,
    tag_spec: Option<RefSpec>,
    options: Options,
    run: RefMapRun<'a, S>,
    events: Seq<Event<S>>,
)
    requires
        run.is_start(con, transport_url, tag_spec, options),
        all_can_happen(run, events),
    ensures
        after_events(run, events) matches Progress::Continue(now) ==> {
            &&& (now.requested() is Handshake || now.requested() is PrepareRefs || now.requested()
                is FetchRefs) && now.con.transport_options is Some ==> events.contains(
                Event::Reply(Reply::TransportConfigured(Ok(()))),
            )
            &&& now.requested() is ConfigureCredentials || now.requested() is RejectTransportUrl
                ==> now.requested() == run.requested()
        },
{
    lemma_consistent_after(run, run, Seq::empty(), events);
    assert(Seq::empty() + events =~= events);
}

/// Transport options change only when they were asked for, and then they are what came of it. Once they are there they stay
/// with the connection, however the listing ends. Credentials that were configured are kept apart from custom ones.
pub proof fn law_gathered_options_stay<'a, S: Session>(run: RefMapRun<'a, S>, event: Event<S>)
    ensures
        ({
            let options = match (run.requested(), event) {
                (
                    Request::GatherTransportOptions { .. },
                    Event::Reply(Reply::TransportOptions(Ok(gathered))),
                ) => gathered,
                _ => run.con.transport_options,
            };
            match after_event(run, event) {
                Progress::Continue(next) => next.con.transport_options == options,
                Progress::Finished(listed) => listed.con.transport_options == options,
            }
        }),
        match (run.requested(), event, after_event(run, event)) {
            (
                Request::ConfigureCredentials { .. },
                Event::Reply(Reply::Credentials(Ok(configured))),
                after,
            ) => after matches Progress::Continue(next) && next.credentials == Some(configured)
                && next.con == run.con,
            (_, Event::Reply(_), Progress::Continue(next)) => next.credentials == run.credentials
                && next.con.authenticate == run.con.authenticate,
            _ => true,
        },
{
}

} // verus!
