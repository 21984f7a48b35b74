//! Arguments that concern the shallow boundary.

use gix_hash::ObjectId;
use gix_remote::shallow::{
    acquire_shallow_lock, add_boundary_and_change, add_shallow_args, Argument, Arguments, Error, Shallow, ShallowRequest,
    ShallowRun,
};
use nonempty::NonEmpty;

type Failure = &'static str;
type Lock = u8;

const DESCRIPTION: &str = "shallow clones need server support to remain shallow, otherwise bigger than expected packs are sent effectively unshallowing the repository";

fn id(byte: u8) -> ObjectId {
    ObjectId::from_bytes_or_panic(&[byte; 20])
}

/// Run through everything with a lock that can be acquired.
fn add(
    args: &mut Arguments,
    shallow: &Shallow,
    read: Result<Option<NonEmpty<ObjectId>>, Failure>,
) -> Result<(Option<NonEmpty<ObjectId>>, Option<Lock>), Error<Failure>> {
    let mut run = ShallowRun::<Lock>::new(shallow);
    if run.request == ShallowRequest::AcquireLock {
        run = acquire_shallow_lock(Ok::<_, Failure>(7))?;
    }
    assert_eq!(run.request, ShallowRequest::ReadFile);
    add_shallow_args(args, shallow, run, read)
}

fn added(shallow: &Shallow) -> Vec<Argument> {
    let mut args = Arguments::new(true);
    let (boundary, lock) = add(&mut args, shallow, Ok(None)).expect("server supports it");
    assert!(boundary.is_none());
    assert_eq!(lock.is_some(), shallow.expects_change());
    args.args
}

#[test]
fn no_change_without_boundary_adds_nothing_and_needs_nothing() {
    for can_use_shallow in [false, true] {
        let mut args = Arguments::new(can_use_shallow);
        let (boundary, lock) = add(&mut args, &Shallow::NoChange, Ok(None)).expect("nothing needed");
        assert!(boundary.is_none());
        assert!(lock.is_none());
        assert!(args.args.is_empty());
        assert_eq!(args.can_use_shallow, can_use_shallow);
    }
}

#[test]
fn the_boundary_is_left_alone_by_default() {
    assert!(matches!(Shallow::default(), Shallow::NoChange));
    assert!(!Shallow::default().expects_change());
}

#[test]
fn depth_at_remote() {
    assert_eq!(added(&Shallow::DepthAtRemote(3)), vec![Argument::Deepen(3)]);
    assert_eq!(added(&Shallow::DepthAtRemote(u32::MAX)), vec![Argument::Deepen(4_294_967_295)]);
}

#[test]
fn deepen_is_relative() {
    assert_eq!(added(&Shallow::Deepen(0)), vec![Argument::Deepen(0), Argument::DeepenRelative]);
    assert_eq!(added(&Shallow::Deepen(5)), vec![Argument::Deepen(5), Argument::DeepenRelative]);
}

#[test]
fn since_a_point_in_time() {
    assert_eq!(added(&Shallow::Since { cutoff: -12 }), vec![Argument::DeepenSince(-12)]);
}

#[test]
fn exclusion_starts_with_the_point_in_time() {
    let remote_refs = vec![b"refs/heads/a".to_vec(), b"v1".to_vec()];
    assert_eq!(
        added(&Shallow::Exclude { remote_refs: remote_refs.clone(), since_cutoff: Some(42) }),
        vec![
            Argument::DeepenSince(42),
            Argument::DeepenNot(b"refs/heads/a".to_vec()),
            Argument::DeepenNot(b"v1".to_vec()),
        ]
    );
    assert_eq!(
        added(&Shallow::Exclude { remote_refs, since_cutoff: None }),
        vec![Argument::DeepenNot(b"refs/heads/a".to_vec()), Argument::DeepenNot(b"v1".to_vec())]
    );
    assert_eq!(added(&Shallow::Exclude { remote_refs: Vec::new(), since_cutoff: None }), vec![]);
}

#[test]
fn the_boundary_comes_first_and_in_order() {
    let mut args = Arguments::new(true);
    args.args.push(Argument::DeepenRelative);
    let commits = NonEmpty { head: id(2), tail: vec![id(1), id(3)] };
    let (boundary, lock) = add(&mut args, &Shallow::Deepen(1), Ok(Some(commits.clone()))).expect("supported");
    assert_eq!(boundary, Some(commits));
    assert_eq!(lock, Some(7));
    assert_eq!(
        args.args,
        vec![
            Argument::DeepenRelative,
            Argument::Shallow(vec![2; 20]),
            Argument::Shallow(vec![1; 20]),
            Argument::Shallow(vec![3; 20]),
            Argument::Deepen(1),
            Argument::DeepenRelative,
        ]
    );
}

#[test]
fn a_boundary_is_kept_without_a_lock() {
    let mut args = Arguments::new(true);
    let commits = NonEmpty { head: id(9), tail: Vec::new() };
    let (boundary, lock) = add(&mut args, &Shallow::NoChange, Ok(Some(commits.clone()))).expect("supported");
    assert_eq!(boundary, Some(commits));
    assert_eq!(lock, None);
    assert_eq!(args.args, vec![Argument::Shallow(vec![9; 20])]);
}

fn assert_missing_shallow<T>(result: Result<T, Error<Failure>>) {
    match result {
        Err(Error::MissingServerFeature { feature, description }) => {
            assert_eq!(feature, "shallow");
            assert_eq!(description, DESCRIPTION);
        }
        _ => panic!("the server lacks a feature"),
    }
}

#[test]
fn a_boundary_needs_support_by_the_server() {
    let mut args = Arguments::new(false);
    let commits = NonEmpty { head: id(9), tail: Vec::new() };
    assert_missing_shallow(add(&mut args, &Shallow::NoChange, Ok(Some(commits))));
    assert!(args.args.is_empty());
}

#[test]
fn a_change_needs_support_by_the_server() {
    let mut args = Arguments::new(false);
    assert_missing_shallow(add(&mut args, &Shallow::DepthAtRemote(1), Ok(None)));
    let empty = Shallow::Exclude { remote_refs: Vec::new(), since_cutoff: None };
    assert_missing_shallow(add(&mut args, &empty, Ok(None)));
    assert!(args.args.is_empty());
}

#[test]
fn a_boundary_as_bytes_is_treated_alike() {
    let mut args = Arguments::new(false);
    assert_missing_shallow(add_boundary_and_change::<Failure>(
        &mut args,
        &Shallow::NoChange,
        &Some(vec![vec![1; 20]]),
    ));
    let mut args = Arguments::new(true);
    assert!(add_boundary_and_change::<Failure>(&mut args, &Shallow::Since { cutoff: 1 }, &Some(vec![vec![1; 20]])).is_ok());
    assert_eq!(args.args, vec![Argument::Shallow(vec![1; 20]), Argument::DeepenSince(1)]);
}

#[test]
fn a_lock_is_needed_only_for_a_change() {
    assert_eq!(ShallowRun::<Lock>::new(&Shallow::NoChange).request, ShallowRequest::ReadFile);
    let run = ShallowRun::<Lock>::new(&Shallow::Deepen(1));
    assert_eq!(run.request, ShallowRequest::AcquireLock);
    assert_eq!(run.lock, None);
}

#[test]
fn a_lock_that_is_held_by_somebody_else_is_an_error() {
    let run = acquire_shallow_lock::<Lock, Failure>(Err("held"));
    assert!(matches!(run, Err(Error::Lock("held"))));
}

#[test]
fn a_file_that_does_not_read_is_an_error() {
    let mut args = Arguments::new(true);
    let added = add(&mut args, &Shallow::Deepen(1), Err("unreadable"));
    assert!(matches!(added, Err(Error::Read("unreadable"))));
    assert!(args.args.is_empty());
}
