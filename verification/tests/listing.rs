//! Connections, and listing the references of their remote.

use gix_refspec::RefSpec;
use gix_remote::connection::{Connection, Remote};
use gix_remote::listing::{phase_of_parsed_url, Listed, Phase, Progress, RefMapRun, Reply, Request};
use gix_remote::prepare::{self, DryRun, WritePackedRefs};
use gix_remote::ref_map::{Error, HandshakeFailure, Options, RefMap, RefsFailure};
use gix_remote::session::{Handshake, Protocol, Service, Session};
use gix_remote::shallow::Shallow;
use gix_transport::client::Error as ClientError;

#[derive(Clone, Debug)]
struct Plain;

impl Session for Plain {
    type Credentials = &'static str;
    type TransportOptions = &'static str;
    type Transport = u8;
    type HandshakeDetails = &'static str;
    type Tags = u8;
    type Mapping = u8;
    type RemoteRef = u8;
    type RefListing = &'static str;
    type Graph = u8;
    type Round = u8;
    type RefEdit = u8;
    type RefUpdate = u8;
    type Failure = &'static str;
}

const HEADS: &str = "refs/heads/*:refs/remotes/origin/*";
const TAGS: &str = "refs/tags/*:refs/tags/*";

fn spec(spec: &str) -> RefSpec {
    gix_refspec::parse(spec.into(), gix_refspec::parse::Operation::Fetch)
        .expect("valid refspec")
        .to_owned()
}

fn bytes(specs: &[RefSpec]) -> Vec<Vec<u8>> {
    specs.iter().map(|spec| spec.to_ref().to_bstring().into()).collect()
}

fn remote(url: Option<&str>, specs: &[&str]) -> Remote<Plain> {
    Remote {
        name: Some(b"origin".to_vec()),
        url: url.map(|url| gix_url::parse(url.into()).expect("valid url")),
        fetch_specs: specs.iter().map(|s| spec(s)).collect(),
        fetch_tags: 5,
    }
}

fn connect(remote: &Remote<Plain>) -> Connection<'_, Plain> {
    Connection { remote, authenticate: None, transport_options: None, transport: 1, handshake: None, trace: true }
}

fn ref_map() -> RefMap<Plain> {
    RefMap {
        mappings: vec![1, 2],
        refspecs: Vec::new(),
        extra_refspecs: Vec::new(),
        remote_refs: vec![7, 8, 9],
        object_hash: gix_hash::Kind::Sha1,
        missing_required_mapping: false,
    }
}

fn handshake() -> Handshake<Plain> {
    Handshake { server_protocol_version: Protocol::V2, details: "hello" }
}

fn start(con: Connection<'_, Plain>) -> RefMapRun<'_, Plain> {
    con.ref_map(b"https://example.com/repo".to_vec(), Some(spec(TAGS)), Options::default())
}

fn go_on<'a>(run: RefMapRun<'a, Plain>, reply: Reply<Plain>) -> RefMapRun<'a, Plain> {
    match run.step(reply) {
        Progress::Continue(run) => run,
        Progress::Finished(_) => panic!("there is more to do"),
    }
}

fn finish<'a>(run: RefMapRun<'a, Plain>, reply: Reply<Plain>) -> Listed<'a, Plain> {
    match run.step(reply) {
        Progress::Continue(_) => panic!("this is the end"),
        Progress::Finished(listed) => listed,
    }
}

fn error_of(listed: Listed<'_, Plain>) -> Error<Plain> {
    assert!(listed.con.handshake.is_none(), "no handshake is stored on failure");
    match listed.into_ref_map() {
        Ok(_) => panic!("it failed"),
        Err(err) => err,
    }
}

fn spurious_io_error() -> ClientError {
    ClientError::Io(std::io::Error::from(std::io::ErrorKind::ConnectionReset))
}

#[test]
fn builders_and_setters_do_the_same() {
    let remote = remote(None, &[]);
    let built = connect(&remote).with_credentials("custom").with_transport_options("options");
    let mut set = connect(&remote);
    set.set_credentials("custom").set_transport_options("options");
    for con in [built, set] {
        assert_eq!(con.authenticate, Some("custom"));
        assert_eq!(con.transport_options, Some("options"));
        assert_eq!(con.transport, 1);
        assert!(con.handshake.is_none());
        assert!(con.trace);
    }
}

#[test]
fn remote_and_transport_are_accessible() {
    let remote = remote(None, &[HEADS]);
    let mut con = connect(&remote);
    assert_eq!(con.remote().name, Some(b"origin".to_vec()));
    *con.transport_mut() = 9;
    assert_eq!(con.transport, 9);
}

#[test]
fn default_options() {
    let options = Options::default();
    assert!(options.prefix_from_spec_as_filter_on_remote);
    assert!(options.handshake_parameters.is_empty());
    assert!(options.extra_refspecs.is_empty());
}

#[test]
fn options_can_be_cloned() {
    let options = Options {
        prefix_from_spec_as_filter_on_remote: false,
        handshake_parameters: vec![("key".to_owned(), None)],
        extra_refspecs: vec![spec(TAGS)],
    };
    let clone = options.clone();
    assert!(!clone.prefix_from_spec_as_filter_on_remote);
    assert_eq!(clone.handshake_parameters, options.handshake_parameters);
    assert_eq!(bytes(&clone.extra_refspecs), bytes(&options.extra_refspecs));
}

#[test]
fn everything_is_asked_for_in_order_without_customization() {
    let remote = remote(Some("https://example.com/configured"), &[HEADS]);
    let run = start(connect(&remote));
    match run.request() {
        Request::ConfigureCredentials { url } => assert_eq!(url.to_bstring(), "https://example.com/configured"),
        _ => panic!("credentials are missing"),
    }
    let run = go_on(run, Reply::Credentials(Ok("configured")));
    match run.request() {
        Request::GatherTransportOptions { transport_url, remote_name } => {
            assert_eq!(transport_url, b"https://example.com/repo");
            assert_eq!(remote_name.as_deref(), Some(b"origin".as_slice()));
        }
        _ => panic!("options are missing"),
    }
    let run = go_on(run, Reply::TransportOptions(Ok(Some("gathered"))));
    match run.request() {
        Request::ConfigureTransport { options } => assert_eq!(options, Some(&"gathered")),
        _ => panic!("the transport is not configured"),
    }
    let run = go_on(run, Reply::TransportConfigured(Ok(())));
    match run.request() {
        Request::Handshake { service, authenticate, parameters } => {
            assert_eq!(service, Service::UploadPack);
            assert_eq!(authenticate, Some(&"configured"));
            assert!(parameters.is_empty());
        }
        _ => panic!("the handshake is missing"),
    }
    let run = go_on(run, Reply::Handshake(Ok(handshake())));
    match run.request() {
        Request::PrepareRefs { handshake, prefix_from_spec_as_filter_on_remote, fetch_refspecs, extra_refspecs } => {
            assert_eq!(handshake.details, "hello");
            assert!(prefix_from_spec_as_filter_on_remote);
            assert_eq!(bytes(fetch_refspecs), vec![HEADS.as_bytes().to_vec()]);
            assert_eq!(bytes(extra_refspecs), vec![TAGS.as_bytes().to_vec()]);
        }
        _ => panic!("the operation is missing"),
    }
    let run = go_on(run, Reply::RefsPrepared(Ok("ls-refs")));
    match run.request() {
        Request::FetchRefs { listing, trace } => {
            assert_eq!(listing, &"ls-refs");
            assert!(trace);
        }
        _ => panic!("references are missing"),
    }
    let listed = finish(run, Reply::RefsFetched(Ok(ref_map())));
    assert_eq!(listed.con.transport_options, Some("gathered"));
    assert_eq!(listed.con.authenticate, None);
    assert_eq!(listed.con.transport, 1);
    let (map, shake) = match listed.into_ref_map() {
        Ok(listed) => listed,
        Err(_) => panic!("it succeeded"),
    };
    assert_eq!(map.remote_refs, vec![7, 8, 9]);
    assert_eq!(shake.details, "hello");
    assert_eq!(shake.server_protocol_version, Protocol::V2);
}

#[test]
fn custom_credentials_and_options_are_not_asked_for() {
    let remote = remote(None, &[HEADS]);
    let run = start(connect(&remote).with_credentials("custom").with_transport_options("options"));
    match run.request() {
        Request::ConfigureTransport { options } => assert_eq!(options, Some(&"options")),
        _ => panic!("the transport is not configured"),
    }
    let run = go_on(run, Reply::TransportConfigured(Ok(())));
    match run.request() {
        Request::Handshake { authenticate, .. } => assert_eq!(authenticate, Some(&"custom")),
        _ => panic!("the handshake is missing"),
    }
}

#[test]
fn custom_credentials_do_not_replace_options() {
    let remote = remote(None, &[HEADS]);
    let run = start(connect(&remote).with_credentials("custom"));
    assert!(matches!(run.request(), Request::GatherTransportOptions { .. }));
    let remote = self::remote(Some("https://example.com/configured"), &[HEADS]);
    let run = start(connect(&remote).with_transport_options("options"));
    assert!(matches!(run.request(), Request::ConfigureCredentials { .. }));
    let run = go_on(run, Reply::Credentials(Ok("configured")));
    assert!(matches!(run.request(), Request::ConfigureTransport { options: Some(&"options") }));
}

#[test]
fn a_transport_without_options_is_not_configured() {
    let remote = remote(None, &[HEADS]);
    let run = start(connect(&remote).with_credentials("custom"));
    let run = go_on(run, Reply::TransportOptions(Ok(None)));
    assert!(matches!(run.request(), Request::Handshake { .. }));
    assert_eq!(run.con.transport_options, None);
}

#[test]
fn credentials_are_for_the_transport_if_the_remote_has_no_url() {
    let remote = remote(None, &[HEADS]);
    let run = start(connect(&remote));
    match run.request() {
        Request::ConfigureCredentials { url } => {
            assert_eq!(url.scheme, gix_url::Scheme::Https);
            assert_eq!(url.host(), Some("example.com"));
            assert_eq!(url.path, "/repo");
        }
        _ => panic!("credentials are missing"),
    }
}

#[test]
fn a_transport_has_to_report_a_valid_url() {
    let remote = remote(None, &[HEADS]);
    let run = connect(&remote).ref_map(Vec::new(), None, Options::default());
    assert!(matches!(run.request(), Request::RejectTransportUrl { .. }));
    let run = go_on(run, Reply::Credentials(Ok("too late")));
    assert!(matches!(run.request(), Request::RejectTransportUrl { .. }));
}

#[test]
fn the_url_of_the_transport_does_not_matter_with_credentials_or_a_remote_url() {
    let without_url = remote(None, &[HEADS]);
    let run = connect(&without_url).with_credentials("custom").ref_map(Vec::new(), None, Options::default());
    assert!(matches!(run.request(), Request::GatherTransportOptions { .. }));
    let with_url = remote(Some("https://example.com/configured"), &[HEADS]);
    let run = connect(&with_url).ref_map(Vec::new(), None, Options::default());
    assert!(matches!(run.request(), Request::ConfigureCredentials { .. }));
}

#[test]
fn the_first_phase_depends_on_the_parsed_url() {
    let parsed = gix_url::parse("ssh://host/path".into());
    assert!(matches!(phase_of_parsed_url::<Plain>(parsed), Phase::Credentials { url } if url.url().host() == Some("host")));
    let parsed = gix_url::parse("".into());
    assert!(matches!(phase_of_parsed_url::<Plain>(parsed), Phase::InvalidTransportUrl { .. }));
}

#[test]
fn the_tag_refspec_is_not_repeated() {
    let remote = remote(None, &[HEADS]);
    let options = Options {
        prefix_from_spec_as_filter_on_remote: false,
        handshake_parameters: vec![("key".to_owned(), Some("value".to_owned()))],
        extra_refspecs: vec![spec(TAGS), spec("HEAD")],
    };
    let run = connect(&remote).with_credentials("custom").ref_map(b"x".to_vec(), Some(spec(TAGS)), options);
    let run = go_on(run, Reply::TransportOptions(Ok(None)));
    match run.request() {
        Request::Handshake { parameters, .. } => {
            assert_eq!(parameters, &vec![("key".to_owned(), Some("value".to_owned()))]);
        }
        _ => panic!("the handshake is missing"),
    }
    let run = go_on(run, Reply::Handshake(Ok(handshake())));
    match run.request() {
        Request::PrepareRefs { prefix_from_spec_as_filter_on_remote, extra_refspecs, .. } => {
            assert!(!prefix_from_spec_as_filter_on_remote);
            assert_eq!(bytes(extra_refspecs), vec![TAGS.as_bytes().to_vec(), b"HEAD".to_vec()]);
        }
        _ => panic!("the operation is missing"),
    }
}

#[test]
fn work_changes_transport_and_custom_credentials_in_place() {
    let remote = remote(None, &[HEADS]);
    let mut run = start(connect(&remote).with_credentials("custom").with_transport_options("options"));
    let work = run.work();
    assert_eq!(work.transport_options, Some(&"options"));
    assert!(work.options.prefix_from_spec_as_filter_on_remote);
    assert!(work.details.is_none());
    assert!(work.listing.is_none());
    assert_eq!(*work.transport, 1);
    *work.transport = 2;
    let authenticate = work.authenticate.expect("custom credentials");
    assert_eq!(*authenticate, "custom");
    *authenticate = "used";
    assert_eq!(run.con.transport, 2);
    assert_eq!(run.con.authenticate, Some("used"));
    assert_eq!(run.credentials, None);
}

#[test]
fn work_changes_configured_credentials_in_place() {
    let remote = remote(Some("https://example.com/configured"), &[HEADS]);
    let mut run = start(connect(&remote));
    assert!(run.work().authenticate.is_none());
    let mut run = go_on(run, Reply::Credentials(Ok("configured")));
    *run.work().authenticate.expect("configured credentials") = "used";
    assert_eq!(run.con.authenticate, None);
    let run = go_on(run, Reply::TransportOptions(Ok(None)));
    assert!(matches!(run.request(), Request::Handshake { authenticate: Some(&"used"), .. }));
}

#[test]
fn the_handshake_is_stored_as_it_was_changed_last() {
    let remote = remote(None, &[HEADS]);
    let mut run = go_on(at_handshake(&remote), Reply::Handshake(Ok(handshake())));
    *run.work().details.expect("there was a handshake") = "changed";
    *run.work().details.expect("there was a handshake") = "changed again";
    let mut run = go_on(run, Reply::RefsPrepared(Ok("ls-refs")));
    assert!(run.work().details.is_none());
    assert_eq!(run.work().listing, Some(&"ls-refs"));
    let listed = finish(run, Reply::RefsFetched(Ok(ref_map())));
    let shake = listed.con.handshake.expect("stored");
    assert_eq!(shake.details, "changed again");
    assert_eq!(shake.server_protocol_version, Protocol::V2);
}

#[test]
fn unrelated_replies_change_nothing() {
    let remote = remote(None, &[HEADS]);
    let run = start(connect(&remote).with_credentials("custom"));
    let run = go_on(run, Reply::RefsFetched(Ok(ref_map())));
    let run = go_on(run, Reply::Handshake(Err(HandshakeFailure { source: "no", spurious: true })));
    assert!(matches!(run.request(), Request::GatherTransportOptions { .. }));
}

#[test]
fn failure_to_configure_credentials() {
    let remote = remote(Some("https://example.com/configured"), &[HEADS]);
    let err = error_of(finish(start(connect(&remote)), Reply::Credentials(Err("no helper"))));
    assert!(matches!(err, Error::ConfigureCredentials("no helper")));
    assert!(!err.is_spurious());
}

#[test]
fn failure_to_gather_transport_options() {
    let remote = remote(None, &[HEADS]);
    let run = start(connect(&remote).with_credentials("custom"));
    let err = error_of(finish(run, Reply::TransportOptions(Err("bad config"))));
    assert!(!err.is_spurious());
    match err {
        Error::GatherTransportConfig { url, source } => {
            assert_eq!(url, b"https://example.com/repo");
            assert_eq!(source, "bad config");
        }
        _ => panic!("another error"),
    }
}

#[test]
fn failure_to_configure_the_transport() {
    let remote = remote(None, &[HEADS]);
    let run = start(connect(&remote).with_credentials("custom").with_transport_options("options"));
    let err = error_of(finish(run, Reply::TransportConfigured(Err("refused"))));
    assert!(matches!(err, Error::ConfigureTransport("refused")));
    assert!(!err.is_spurious());
}

fn at_handshake(remote: &Remote<Plain>) -> RefMapRun<'_, Plain> {
    go_on(start(connect(remote).with_credentials("custom")), Reply::TransportOptions(Ok(None)))
}

#[test]
fn failure_of_the_handshake_is_as_spurious_as_it_says() {
    let remote = remote(None, &[HEADS]);
    for spurious in [false, true] {
        let failure = HandshakeFailure { source: "denied", spurious };
        let err = error_of(finish(at_handshake(&remote), Reply::Handshake(Err(failure))));
        assert!(matches!(&err, Error::Handshake(failure) if failure.source == "denied"));
        assert_eq!(err.is_spurious(), spurious);
        assert_eq!(err.is_spurious_given(!spurious), spurious);
        assert_eq!(prepare::Error::RefMap(err).is_spurious(), spurious);
    }
}

#[test]
fn failure_to_prepare_the_listing() {
    let remote = remote(None, &[HEADS]);
    let run = go_on(at_handshake(&remote), Reply::Handshake(Ok(handshake())));
    let err = error_of(finish(run, Reply::RefsPrepared(Err("unsupported"))));
    assert!(matches!(err, Error::InitRefMap("unsupported")));
    assert!(!err.is_spurious());
}

#[test]
fn failure_to_make_sense_of_references() {
    let remote = remote(None, &[HEADS]);
    let run = go_on(at_handshake(&remote), Reply::Handshake(Ok(handshake())));
    let run = go_on(run, Reply::RefsPrepared(Ok("ls-refs")));
    let err = error_of(finish(run, Reply::RefsFetched(Err(RefsFailure::InitRefMap("malformed")))));
    assert!(matches!(err, Error::InitRefMap("malformed")));
    assert!(!err.is_spurious());
    assert_eq!(format!("{:?}", prepare::Error::RefMap(err)), "RefMap(InitRefMap(\"malformed\"))");
}

#[test]
fn failure_of_the_transport_is_spurious_if_another_try_may_help() {
    let remote = remote(None, &[HEADS]);
    for (client_error, spurious) in [
        (spurious_io_error(), true),
        (ClientError::Io(std::io::Error::from(std::io::ErrorKind::NotFound)), false),
        (ClientError::MissingHandshake, false),
    ] {
        let run = go_on(at_handshake(&remote), Reply::Handshake(Ok(handshake())));
        let run = go_on(run, Reply::RefsPrepared(Ok("ls-refs")));
        let err = error_of(finish(run, Reply::RefsFetched(Err(RefsFailure::Transport(client_error)))));
        assert!(matches!(err, Error::Transport(_)));
        assert_eq!(err.is_spurious(), spurious);
        assert!(err.is_spurious_given(true));
        assert!(!err.is_spurious_given(false));
        assert_eq!(prepare::Error::RefMap(err).is_spurious(), spurious);
    }
}

#[test]
fn failure_keeps_an_earlier_handshake() {
    let remote = remote(None, &[HEADS]);
    let mut con = connect(&remote).with_credentials("custom");
    con.handshake = Some(Handshake { server_protocol_version: Protocol::V1, details: "earlier" });
    let listed = finish(start(con), Reply::TransportOptions(Err("bad config")));
    assert_eq!(listed.con.handshake.map(|shake| shake.details), Some("earlier"));
}

#[test]
fn a_fetch_needs_refspecs() {
    let remote = remote(Some("https://example.com/configured"), &[]);
    match connect(&remote).prepare_fetch(b"x".to_vec(), Some(spec(TAGS)), Options::default()) {
        Err(err) => {
            assert!(matches!(err, prepare::Error::MissingRefSpecs));
            assert!(!err.is_spurious());
        }
        Ok(_) => panic!("the refspec for tags is not enough"),
    }
    let options = Options { extra_refspecs: vec![spec("HEAD")], ..Options::default() };
    assert!(connect(&remote).prepare_fetch(b"x".to_vec(), None, options).is_ok());
    let remote = self::remote(Some("https://example.com/configured"), &[HEADS]);
    assert!(connect(&remote).prepare_fetch(b"x".to_vec(), None, Options::default()).is_ok());
}

#[test]
fn a_listing_without_refspecs_is_fine() {
    let remote = remote(Some("https://example.com/configured"), &[]);
    let run = connect(&remote).ref_map(b"x".to_vec(), None, Options::default());
    assert!(matches!(run.request(), Request::ConfigureCredentials { .. }));
}

#[test]
fn a_prepared_fetch_has_defaults() {
    let remote = remote(None, &[HEADS]);
    let con = connect(&remote).with_credentials("custom");
    let run = match con.prepare_fetch(b"x".to_vec(), None, Options::default()) {
        Ok(run) => run,
        Err(_) => panic!("there are refspecs"),
    };
    let run = go_on(run, Reply::TransportOptions(Ok(None)));
    let run = go_on(run, Reply::Handshake(Ok(handshake())));
    let run = go_on(run, Reply::RefsPrepared(Ok("ls-refs")));
    let prepare = match finish(run, Reply::RefsFetched(Ok(ref_map()))).into_prepare() {
        Ok(prepare) => prepare,
        Err(_) => panic!("it succeeded"),
    };
    assert_eq!(prepare.ref_map().remote_refs, vec![7, 8, 9]);
    assert_eq!(prepare.dry_run, DryRun::No);
    assert!(prepare.reflog_message.is_none());
    assert_eq!(prepare.write_packed_refs, WritePackedRefs::Never);
    assert!(matches!(prepare.shallow, Shallow::NoChange));
    let con = prepare.con.expect("connected");
    assert_eq!(con.handshake.map(|shake| shake.details), Some("hello"));
}

#[test]
fn a_failed_listing_prepares_nothing() {
    let remote = remote(None, &[HEADS]);
    let run = start(connect(&remote).with_credentials("custom"));
    match finish(run, Reply::TransportOptions(Err("bad config"))).into_prepare() {
        Err(prepare::Error::RefMap(Error::GatherTransportConfig { source, .. })) => assert_eq!(source, "bad config"),
        _ => panic!("it failed"),
    }
}
