//! Listing the references of a remote.

use gix_refspec::RefSpec;
use gix_url::parse::Error as UrlParseError;
use gix_url::Url;
use vstd::prelude::*;

use crate::connection::Connection;
use crate::ref_map::{Error, HandshakeFailure, Options, RefMap, RefsFailure};
use crate::refspec::{push_tag_spec, with_tag_spec};
use crate::session::{Handshake, Service, Session};
use crate::url::{parse_result, parse_url, CredentialsUrl};

verus! {

/// How far the listing has come.
pub enum Phase<'a, S: Session> {
    /// The transport reports a location that is none, which leads nowhere.
    InvalidTransportUrl {
        /// Why it is none.
        source: UrlParseError,
    },
    /// There are no custom credentials, so those that are configured are needed.
    Credentials {
        /// The location to obtain credentials for.
        url: CredentialsUrl<'a>,
    },
    /// The transport has no configuration yet.
    TransportOptions,
    /// The configuration has to be passed to the transport.
    ConfigureTransport,
    /// Everything is there for the handshake.
    Handshake,
    /// The handshake is done, it is time to determine how to obtain references.
    PrepareRefs {
        /// The result of the handshake.
        handshake: Handshake<S>,
    },
    /// References have to be obtained.
    FetchRefs {
        /// The result of the handshake.
        handshake: Handshake<S>,
        /// The operation that obtains references.
        listing: S::RefListing,
    },
}

/// What has to be done next.
pub enum Request<'m, S: Session> {
    /// Fail hard, as a transport must not report a location that is none.
    RejectTransportUrl {
        /// Why it is none.
        source: &'m UrlParseError,
    },
    /// Set up the helpers that are configured to obtain credentials.
    ConfigureCredentials {
        /// The location to obtain credentials for.
        url: &'m Url,
    },
    /// Obtain the configuration of the transport from the configuration of the repository.
    GatherTransportOptions {
        /// Where the transport connects to.
        transport_url: &'m Vec<u8>,
        /// The name of the remote.
        remote_name: &'m Option<Vec<u8>>,
    },
    /// Pass `options` to the transport.
    ConfigureTransport {
        /// The configuration, which is present.
        options: Option<&'m S::TransportOptions>,
    },
    /// Perform the handshake.
    Handshake {
        /// What to ask the server for.
        service: Service,
        /// The way to obtain credentials, which is present.
        authenticate: Option<&'m S::Credentials>,
        /// Additional parameters.
        parameters: &'m Vec<(String, Option<String>)>,
    },
    /// Determine how to obtain references from the result of the handshake.
    PrepareRefs {
        /// The result of the handshake.
        handshake: &'m Handshake<S>,
        /// Whether the server is to pre-filter references.
        prefix_from_spec_as_filter_on_remote: bool,
        /// The refspecs of the remote.
        fetch_refspecs: &'m Vec<RefSpec>,
        /// Refspecs in addition to those.
        extra_refspecs: &'m Vec<RefSpec>,
    },
    /// Obtain references.
    FetchRefs {
        /// The operation that does it.
        listing: &'m S::RefListing,
        /// Whether to trace each line that is sent or received.
        trace: bool,
    },
}

/// What came of a [`Request`].
pub enum Reply<S: Session> {
    /// The answer to [`Request::ConfigureCredentials`].
    Credentials(Result<S::Credentials, S::Failure>),
    /// The answer to [`Request::GatherTransportOptions`].
    TransportOptions(Result<Option<S::TransportOptions>, S::Failure>),
    /// The answer to [`Request::ConfigureTransport`].
    TransportConfigured(Result<(), S::Failure>),
    /// The answer to [`Request::Handshake`].
    Handshake(Result<Handshake<S>, HandshakeFailure<S>>),
    /// The answer to [`Request::PrepareRefs`].
    RefsPrepared(Result<S::RefListing, S::Failure>),
    /// The answer to [`Request::FetchRefs`].
    RefsFetched(Result<RefMap<S>, RefsFailure<S>>),
}

/// A listing in progress.
pub struct RefMapRun<'a, S: Session> {
    /// The connection to list the references of.
    pub con: Connection<'a, S>,
    /// The location that the transport reports.
    pub transport_url: Vec<u8>,
    /// How to list, with the refspec for tags being among the extra refspecs.
    pub options: Options,
    /// Credentials that were configured, for use if the connection has none.
    pub credentials: Option<S::Credentials>,
    /// How far it has come.
    pub phase: Phase<'a, S>,
}

/// What the work that a [`Request`] asks for may use, and change in place if it is mutable.
pub struct Work<'m, S: Session> {
    /// The channel to the remote.
    pub transport: &'m mut S::Transport,
    /// The way to obtain credentials, once there is one.
    pub authenticate: Option<&'m mut S::Credentials>,
    /// What the server said during the handshake, while it is time to determine how to obtain references.
    pub details: Option<&'m mut S::HandshakeDetails>,
    /// The configuration of the transport, if there is one.
    pub transport_options: Option<&'m S::TransportOptions>,
    /// How to list.
    pub options: &'m Options,
    /// The operation that obtains references, once it is known.
    pub listing: Option<&'m S::RefListing>,
}

/// The end of a listing.
pub struct Listed<'a, S: Session> {
    /// The connection, which has the handshake if the listing succeeded.
    pub con: Connection<'a, S>,
    /// The references, or what went wrong.
    pub result: Result<RefMap<S>, Error<S>>,
}

/// The state of affairs after a [`Reply`].
pub enum Progress<'a, S: Session> {
    /// There is more to do.
    Continue(RefMapRun<'a, S>),
    /// The listing ended.
    Finished(Listed<'a, S>),
}

/// `value`, by reference.
pub open spec fn borrowed<T>(value: &Option<T>) -> Option<&T> {
    match value {
        Some(value) => Some(value),
        None => None,
    }
}

/// The first phase, given what comes of parsing the location that the transport reports.
pub open spec fn first_phase_of_parsed<'a, S: Session>(
    parsed: Result<Url, UrlParseError>,
) -> Phase<'a, S> {
    match parsed {
        Ok(url) => Phase::Credentials { url: CredentialsUrl::OfTransport(url) },
        Err(source) => Phase::InvalidTransportUrl { source },
    }
}

/// Return the first phase, given what came of parsing the location that the transport reports.
pub fn phase_of_parsed_url<'a, S: Session>(
    parsed: Result<Url, UrlParseError>,
) -> (phase: Phase<'a, S>)
    ensures
        phase == first_phase_of_parsed::<S>(parsed),
        parsed matches Ok(location) ==> (phase matches Phase::Credentials {
            url: CredentialsUrl::OfTransport(url),
        } && url == location),
        parsed matches Err(err) ==> (phase matches Phase::InvalidTransportUrl { source } && source
            == err),
{
    match parsed {
        Ok(url) => Phase::Credentials { url: CredentialsUrl::OfTransport(url) },
        Err(source) => Phase::InvalidTransportUrl { source },
    }
}

/// The phase in which credentials are there.
pub open spec fn phase_with_credentials<'a, S: Session>(con: Connection<'a, S>) -> Phase<'a, S> {
    if con.transport_options is None {
        Phase::TransportOptions
    } else {
        Phase::ConfigureTransport
    }
}

/// The phase in which the configuration of the transport was looked up.
pub open spec fn phase_with_options<'a, S: Session>(
    options: Option<S::TransportOptions>,
) -> Phase<'a, S> {
    if options is None {
        Phase::Handshake
    } else {
        Phase::ConfigureTransport
    }
}

/// Whether a listing may start with `phase`.
pub open spec fn is_first_phase<'a, S: Session>(
    con: Connection<'a, S>,
    transport_url: Seq<u8>,
    phase: Phase<'a, S>,
) -> bool {
    if con.authenticate is Some {
        phase == phase_with_credentials(con)
    } else {
        match con.remote.url {
            Some(url) => phase matches Phase::Credentials { url: CredentialsUrl::OfRemote(of_remote) }
                && *of_remote == url,
            None => {
                ||| phase == first_phase_of_parsed::<S>(parse_result(transport_url, false))
                ||| phase == first_phase_of_parsed::<S>(parse_result(transport_url, true))
            },
        }
    }
}

impl<'a, S: Session> RefMapRun<'a, S> {
    /// Whether this is the start of listing the references of `con`.
    pub open spec fn is_start(
        self,
        con: Connection<'a, S>,
        transport_url: Vec<u8>,
        tag_spec: Option<RefSpec>,
        options: Options,
    ) -> bool {
        &&& self.con == con
        &&& self.transport_url == transport_url
        &&& self.options.prefix_from_spec_as_filter_on_remote
            == options.prefix_from_spec_as_filter_on_remote
        &&& self.options.handshake_parameters == options.handshake_parameters
        &&& self.options.extra_refspecs@ == with_tag_spec(options.extra_refspecs@, tag_spec)
        &&& self.credentials is None
        &&& is_first_phase(con, transport_url@, self.phase)
    }

    /// What has to be done next.
    pub open spec fn requested(&self) -> Request<'_, S> {
        match &self.phase {
            Phase::InvalidTransportUrl { source } => Request::RejectTransportUrl { source },
            Phase::Credentials { url } => Request::ConfigureCredentials { url: &url.location() },
            Phase::TransportOptions => Request::GatherTransportOptions {
                transport_url: &self.transport_url,
                remote_name: &self.con.remote.name,
            },
            Phase::ConfigureTransport => Request::ConfigureTransport {
                options: borrowed(&self.con.transport_options),
            },
            Phase::Handshake => Request::Handshake {
                service: Service::UploadPack,
                authenticate: borrowed(&self.authenticator()),
                parameters: &self.options.handshake_parameters,
            },
            Phase::PrepareRefs { handshake } => Request::PrepareRefs {
                handshake,
                prefix_from_spec_as_filter_on_remote:
                    self.options.prefix_from_spec_as_filter_on_remote,
                fetch_refspecs: &self.con.remote.fetch_specs,
                extra_refspecs: &self.options.extra_refspecs,
            },
            Phase::FetchRefs { listing, .. } => Request::FetchRefs {
                listing,
                trace: self.con.trace,
            },
        }
    }

    /// The way to obtain credentials during the handshake.
    pub open spec fn authenticator(&self) -> Option<S::Credentials> {
        if self.con.authenticate is Some {
            self.con.authenticate
        } else {
            self.credentials
        }
    }

    /// The same listing with another state of the transport.
    pub open spec fn with_transport(self, transport: S::Transport) -> Self {
        RefMapRun { con: Connection { transport, ..self.con }, ..self }
    }

    /// The same listing with another state of the way to obtain credentials.
    pub open spec fn with_authenticator(self, authenticate: S::Credentials) -> Self {
        if self.con.authenticate is Some {
            RefMapRun {
                con: Connection { authenticate: Some(authenticate), ..self.con },
                ..self
            }
        } else {
            RefMapRun { credentials: Some(authenticate), ..self }
        }
    }

    /// The same listing with other details of the handshake, if it is time to look at them.
    pub open spec fn with_details(self, details: S::HandshakeDetails) -> Self {
        match self.phase {
            Phase::PrepareRefs { handshake } => RefMapRun {
                phase: Phase::PrepareRefs { handshake: Handshake { details, ..handshake } },
                ..self
            },
            _ => self,
        }
    }

    /// Return all that the pending work may use.
    pub fn work(&mut self) -> (work: Work<'_, S>)
        ensures
            *work.transport == old(self).con.transport,
            work.authenticate is Some <==> old(self).authenticator() is Some,
            work.authenticate is Some ==> old(self).authenticator() == Some(*work.authenticate->0),
            work.details is Some <==> old(self).phase is PrepareRefs,
            old(self).phase matches Phase::PrepareRefs { handshake } ==> *work.details->0
                == handshake.details,
            work.transport_options == borrowed(&old(self).con.transport_options),
            *work.options == old(self).options,
            work.listing == (match &old(self).phase {
                Phase::FetchRefs { listing, .. } => Some(listing),
                _ => None,
            }),
            *final(self) == ({
                let run = old(self).with_transport(*final(work.transport));
                let run = if work.authenticate is Some {
                    run.with_authenticator(*final(work.authenticate->0))
                } else {
                    run
                };
                if work.details is Some {
                    run.with_details(*final(work.details->0))
                } else {
                    run
                }
            }),
    {
        let authenticate = if self.con.authenticate.is_some() {
            self.con.authenticate.as_mut()
        } else {
            self.credentials.as_mut()
        };
        let (details, listing) = match &mut self.phase {
            Phase::PrepareRefs { handshake } => (Some(&mut handshake.details), None),
            Phase::FetchRefs { listing, .. } => (None, Some(&*listing)),
            _ => (None, None),
        };
        Work {
            transport: &mut self.con.transport,
            authenticate,
            details,
            transport_options: self.con.transport_options.as_ref(),
            options: &self.options,
            listing,
        }
    }

    /// Return what has to be done next.
    pub fn request(&self) -> (request: Request<'_, S>)
        ensures
            request == self.requested(),
    {
        match &self.phase {
            Phase::InvalidTransportUrl { source } => Request::RejectTransportUrl { source },
            Phase::Credentials { url } => Request::ConfigureCredentials { url: url.url() },
            Phase::TransportOptions => Request::GatherTransportOptions {
                transport_url: &self.transport_url,
                remote_name: &self.con.remote.name,
            },
            Phase::ConfigureTransport => Request::ConfigureTransport {
                options: self.con.transport_options.as_ref(),
            },
            Phase::Handshake => Request::Handshake {
                service: Service::UploadPack,
                authenticate: if self.con.authenticate.is_some() {
                    self.con.authenticate.as_ref()
                } else {
                    self.credentials.as_ref()
                },
                parameters: &self.options.handshake_parameters,
            },
            Phase::PrepareRefs { handshake } => Request::PrepareRefs {
                handshake,
                prefix_from_spec_as_filter_on_remote: self.options.prefix_from_spec_as_filter_on_remote,
                fetch_refspecs: &self.con.remote.fetch_specs,
                extra_refspecs: &self.options.extra_refspecs,
            },
            Phase::FetchRefs { listing, .. } => Request::FetchRefs {
                listing,
                trace: self.con.trace,
            },
        }
    }

    /// The state of affairs after `reply`. A reply to anything but the pending request changes nothing.
    pub open spec fn next(self, reply: Reply<S>) -> Progress<'a, S> {
        match (self.phase, reply) {
            (Phase::Credentials { .. }, Reply::Credentials(Ok(credentials))) => Progress::Continue(
                RefMapRun {
                    credentials: Some(credentials),
                    phase: phase_with_credentials(self.con),
                    ..self
                },
            ),
            (Phase::Credentials { .. }, Reply::Credentials(Err(source))) => self.failed(
                Error::ConfigureCredentials(source),
            ),
            (Phase::TransportOptions, Reply::TransportOptions(Ok(options))) => Progress::Continue(
                RefMapRun {
                    con: Connection { transport_options: options, ..self.con },
                    phase: phase_with_options(options),
                    ..self
                },
            ),
            (Phase::TransportOptions, Reply::TransportOptions(Err(source))) => self.failed(
                Error::GatherTransportConfig { url: self.transport_url, source },
            ),
            (Phase::ConfigureTransport, Reply::TransportConfigured(Ok(()))) => Progress::Continue(
                RefMapRun { phase: Phase::Handshake, ..self },
            ),
            (Phase::ConfigureTransport, Reply::TransportConfigured(Err(source))) => self.failed(
                Error::ConfigureTransport(source),
            ),
            (Phase::Handshake, Reply::Handshake(Ok(handshake))) => Progress::Continue(
                RefMapRun { phase: Phase::PrepareRefs { handshake }, ..self },
            ),
            (Phase::Handshake, Reply::Handshake(Err(err))) => self.failed(Error::Handshake(err)),
            (Phase::PrepareRefs { handshake }, Reply::RefsPrepared(Ok(listing))) =>
                Progress::Continue(
                RefMapRun { phase: Phase::FetchRefs { handshake, listing }, ..self },
            ),
            (Phase::PrepareRefs { .. }, Reply::RefsPrepared(Err(source))) => self.failed(
                Error::InitRefMap(source),
            ),
            (Phase::FetchRefs { handshake, .. }, Reply::RefsFetched(Ok(ref_map))) =>
                Progress::Finished(
                Listed {
                    con: Connection { handshake: Some(handshake), ..self.con },
                    result: Ok(ref_map),
                },
            ),
            (Phase::FetchRefs { .. }, Reply::RefsFetched(Err(RefsFailure::InitRefMap(source)))) =>
                self.failed(Error::InitRefMap(source)),
            (Phase::FetchRefs { .. }, Reply::RefsFetched(Err(RefsFailure::Transport(err)))) =>
                self.failed(Error::Transport(err)),
            _ => Progress::Continue(self),
        }
    }

    /// The end of the listing with `err`.
    pub open spec fn failed(self, err: Error<S>) -> Progress<'a, S> {
        Progress::Finished(Listed { con: self.con, result: Err(err) })
    }

    /// Take the answer to the pending request.
    pub fn step(self, reply: Reply<S>) -> (progress: Progress<'a, S>)
        ensures
            progress == self.next(reply),
    {
        let RefMapRun { con, transport_url, options, credentials, phase } = self;
        let mut con = con;
        match (phase, reply) {
            (Phase::Credentials { .. }, Reply::Credentials(Ok(configured))) => {
                let phase = if con.transport_options.is_none() {
                    Phase::TransportOptions
                } else {
                    Phase::ConfigureTransport
                };
                Progress::Continue(
                    RefMapRun { con, transport_url, options, credentials: Some(configured), phase },
                )
            },
            (Phase::Credentials { .. }, Reply::Credentials(Err(source))) => Progress::Finished(
                Listed { con, result: Err(Error::ConfigureCredentials(source)) },
            ),
            (Phase::TransportOptions, Reply::TransportOptions(Ok(transport_options))) => {
                let phase = if transport_options.is_none() {
                    Phase::Handshake
                } else {
                    Phase::ConfigureTransport
                };
                con.transport_options = transport_options;
                Progress::Continue(RefMapRun { con, transport_url, options, credentials, phase })
            },
            (Phase::TransportOptions, Reply::TransportOptions(Err(source))) => Progress::Finished(
                Listed {
                    con,
                    result: Err(Error::GatherTransportConfig { url: transport_url, source }),
                },
            ),
            (Phase::ConfigureTransport, Reply::TransportConfigured(Ok(()))) => Progress::Continue(
                RefMapRun { con, transport_url, options, credentials, phase: Phase::Handshake },
            ),
            (Phase::ConfigureTransport, Reply::TransportConfigured(Err(source))) =>
                Progress::Finished(Listed { con, result: Err(Error::ConfigureTransport(source)) }),
            (Phase::Handshake, Reply::Handshake(Ok(handshake))) => Progress::Continue(
                RefMapRun {
                    con,
                    transport_url,
                    options,
                    credentials,
                    phase: Phase::PrepareRefs { handshake },
                },
            ),
            (Phase::Handshake, Reply::Handshake(Err(err))) => Progress::Finished(
                Listed { con, result: Err(Error::Handshake(err)) },
            ),
            (Phase::PrepareRefs { handshake }, Reply::RefsPrepared(Ok(listing))) =>
                Progress::Continue(
                RefMapRun {
                    con,
                    transport_url,
                    options,
                    credentials,
                    phase: Phase::FetchRefs { handshake, listing },
                },
            ),
            (Phase::PrepareRefs { .. }, Reply::RefsPrepared(Err(source))) => Progress::Finished(
                Listed { con, result: Err(Error::InitRefMap(source)) },
            ),
            (Phase::FetchRefs { handshake, .. }, Reply::RefsFetched(Ok(ref_map))) => {
                con.handshake = Some(handshake);
                Progress::Finished(Listed { con, result: Ok(ref_map) })
            },
            (Phase::FetchRefs { .. }, Reply::RefsFetched(Err(RefsFailure::InitRefMap(source)))) =>
                Progress::Finished(Listed { con, result: Err(Error::InitRefMap(source)) }),
            (Phase::FetchRefs { .. }, Reply::RefsFetched(Err(RefsFailure::Transport(err)))) =>
                Progress::Finished(Listed { con, result: Err(Error::Transport(err)) }),
            (phase, _) => Progress::Continue(
                RefMapRun { con, transport_url, options, credentials, phase },
            ),
        }
    }
}

impl<'a, S: Session> Connection<'a, S> {
    /// Start to list all references on the remote that have been filtered through the refspecs of the remote
    /// for _fetching_, and those in `options`.
    ///
    /// `transport_url` is the location that the transport reports, and `tag_spec` the refspec that the
    /// remote's choice of tags stands for.
    pub fn ref_map_by_ref(
        self,
        transport_url: Vec<u8>,
        tag_spec: Option<RefSpec>,
        options: Options,
    ) -> (run: RefMapRun<'a, S>)
        ensures
            run.is_start(self, transport_url, tag_spec, options),
    {
        let mut options = options;
        push_tag_spec(&mut options.extra_refspecs, tag_spec);
        let phase = if self.authenticate.is_some() {
            if self.transport_options.is_none() {
                Phase::TransportOptions
            } else {
                Phase::ConfigureTransport
            }
        } else {
            match &self.remote.url {
                Some(url) => Phase::Credentials { url: CredentialsUrl::OfRemote(url) },
                None => phase_of_parsed_url(parse_url(&transport_url)),
            }
        };
        RefMapRun { con: self, transport_url, options, credentials: None, phase }
    }
}

} // verus!
