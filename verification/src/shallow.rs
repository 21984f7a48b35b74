//! The shallow boundary of a clone, and the arguments that keep or change it.

use gix_hash::ObjectId;
use nonempty::NonEmpty;
use vstd::prelude::*;

verus! {

/// A list with at least one item, as `nonempty` has it.
#[verifier::external_type_specification]
#[verifier::external_body]
#[verifier::reject_recursive_types(T)]
pub struct ExNonEmpty<T>(nonempty::NonEmpty<T>);

/// The bytes of each object id in `commits`, in order.
pub uninterp spec fn ids_of(commits: nonempty::NonEmpty<gix_hash::ObjectId>) -> Seq<Seq<u8>>;

/// Walk `commits` with `nonempty::NonEmpty::iter()`.
///
/// It yields the head and then each item of the tail in order, hence at least one item, each of
/// which is turned into the bytes that `gix_hash::oid::as_bytes()` gives of it.
#[verifier::external_body]
fn commit_ids(commits: &NonEmpty<ObjectId>) -> (ids: Vec<Vec<u8>>)
    ensures
        ids.deep_view() == ids_of(*commits),
        ids@.len() > 0,
{
    commits.iter().map(|id| id.as_bytes().to_vec()).collect()
}

/// How the shallow boundary is to change with a fetch.
#[derive(Debug)]
pub enum Shallow {
    /// Fetch all changes from the remote without affecting the shallow boundary.
    NoChange,
    /// Receive at most this many commits from the tip of each remote reference.
    DepthAtRemote(u32),
    /// Move the boundary by this many commits, as seen from where it is.
    Deepen(u32),
    /// Set the boundary at the given time.
    Since {
        /// Commits older than that, in seconds since the epoch, are cut off.
        cutoff: i64,
    },
    /// Receive all history apart from what is reachable from the given references.
    Exclude {
        /// The names of the references of the remote to leave out.
        remote_refs: Vec<Vec<u8>>,
        /// If set, commits older than that, in seconds since the epoch, are cut off as well.
        since_cutoff: Option<i64>,
    },
}

impl Default for Shallow {
    /// Leave the boundary alone.
    fn default() -> (shallow: Self)
        ensures
            shallow == Shallow::NoChange,
    {
        Shallow::NoChange
    }
}

/// An argument of a fetch that concerns the shallow boundary.
#[derive(Debug, PartialEq, Eq)]
pub enum Argument {
    /// The client has the commit with the given id, but not its parents.
    Shallow(Vec<u8>),
    /// Deepen the history to the given amount of commits.
    Deepen(usize),
    /// The depth is relative to the current boundary.
    DeepenRelative,
    /// Deepen the history to the given time in seconds since the epoch.
    DeepenSince(i64),
    /// Deepen the history, but leave out what the reference of the given name reaches.
    DeepenNot(Vec<u8>),
}

/// An [`Argument`] as mathematical value.
pub enum ArgumentView {
    /// See [`Argument::Shallow`].
    Shallow(Seq<u8>),
    /// See [`Argument::Deepen`].
    Deepen(usize),
    /// See [`Argument::DeepenRelative`].
    DeepenRelative,
    /// See [`Argument::DeepenSince`].
    DeepenSince(i64),
    /// See [`Argument::DeepenNot`].
    DeepenNot(Seq<u8>),
}

impl View for Argument {
    type V = ArgumentView;

    open spec fn view(&self) -> ArgumentView {
        match self {
            Argument::Shallow(id) => ArgumentView::Shallow(id@),
            Argument::Deepen(depth) => ArgumentView::Deepen(*depth),
            Argument::DeepenRelative => ArgumentView::DeepenRelative,
            Argument::DeepenSince(seconds) => ArgumentView::DeepenSince(*seconds),
            Argument::DeepenNot(name) => ArgumentView::DeepenNot(name@),
        }
    }
}

/// All of `args` as mathematical values.
pub open spec fn views_of(args: Seq<Argument>) -> Seq<ArgumentView> {
    args.map_values(|arg: Argument| arg@)
}

/// The arguments of a fetch that concern the shallow boundary, in the order they were added.
#[derive(Debug)]
pub struct Arguments {
    /// Whether the server lets a client have a shallow boundary.
    pub can_use_shallow: bool,
    /// What was added so far.
    pub args: Vec<Argument>,
}

impl Arguments {
    /// Create an instance without arguments.
    pub fn new(can_use_shallow: bool) -> (args: Self)
        ensures
            args.can_use_shallow == can_use_shallow,
            views_of(args.args@) == Seq::<ArgumentView>::empty(),
    {
        let args = Arguments { can_use_shallow, args: Vec::new() };
        assert(views_of(args.args@) =~= Seq::<ArgumentView>::empty());
        args
    }

    /// Add `argument` to the end.
    fn push(&mut self, argument: Argument)
        ensures
            final(self).can_use_shallow == old(self).can_use_shallow,
            final(self).args@ == old(self).args@.push(argument),
            views_of(final(self).args@) == views_of(old(self).args@).push(argument@),
    {
        self.args.push(argument);
        assert(views_of(self.args@) =~= views_of(old(self).args@).push(argument@));
    }
}

impl Shallow {
    /// Whether the shallow boundary may differ after the fetch.
    pub open spec fn changes_boundary(&self) -> bool {
        !(self is NoChange)
    }

    /// Return `true` if the shallow boundary may differ after the fetch.
    pub fn expects_change(&self) -> (change: bool)
        ensures
            change == self.changes_boundary(),
            change == !(self is NoChange),
    {
        match self {
            Shallow::NoChange => false,
            _ => true,
        }
    }

    /// The arguments that ask the server for this change.
    pub open spec fn arguments(&self) -> Seq<ArgumentView> {
        match self {
            Shallow::NoChange => seq![],
            Shallow::DepthAtRemote(commits) => seq![ArgumentView::Deepen(*commits as usize)],
            Shallow::Deepen(commits) => seq![
                ArgumentView::Deepen(*commits as usize),
                ArgumentView::DeepenRelative,
            ],
            Shallow::Since { cutoff } => seq![ArgumentView::DeepenSince(*cutoff)],
            Shallow::Exclude { remote_refs, since_cutoff } => since_arguments(*since_cutoff)
                + exclude_arguments(remote_refs.deep_view()),
        }
    }
}

/// The arguments for an optional point in time.
pub open spec fn since_arguments(since_cutoff: Option<i64>) -> Seq<ArgumentView> {
    match since_cutoff {
        Some(cutoff) => seq![ArgumentView::DeepenSince(cutoff)],
        None => seq![],
    }
}

/// One argument for each reference to leave out.
pub open spec fn exclude_arguments(names: Seq<Seq<u8>>) -> Seq<ArgumentView> {
    names.map_values(|name: Seq<u8>| ArgumentView::DeepenNot(name))
}

/// The bytes of the id of each commit at the current boundary, or `None` if there is no boundary.
pub open spec fn boundary_of(commits: Option<NonEmpty<ObjectId>>) -> Option<Seq<Seq<u8>>> {
    match commits {
        Some(commits) => Some(ids_of(commits)),
        None => None,
    }
}

/// One argument for each commit at the current boundary.
pub open spec fn boundary_arguments(boundary: Option<Seq<Seq<u8>>>) -> Seq<ArgumentView> {
    match boundary {
        Some(ids) => ids.map_values(|id: Seq<u8>| ArgumentView::Shallow(id)),
        None => seq![],
    }
}

/// Whether the server has to support shallow clones to keep `boundary`, or change it as `shallow` says.
pub open spec fn needs_server_support(
    shallow: &Shallow,
    boundary: Option<Seq<Seq<u8>>>,
) -> bool {
    boundary is Some || shallow.changes_boundary()
}

/// Why the shallow boundary cannot be dealt with. `F` is how outside work fails.
#[derive(Debug)]
pub enum Error<F> {
    /// The file with the shallow boundary could not be locked.
    Lock(F),
    /// The file with the shallow boundary could not be read.
    Read(F),
    /// The server lacks a feature.
    MissingServerFeature {
        /// The name of the feature.
        feature: &'static str,
        /// Why the feature is needed.
        description: &'static str,
    },
}

impl<F> Error<F> {
    /// Whether this says that the server cannot deal with shallow clones.
    pub open spec fn is_missing_shallow(&self) -> bool {
        match self {
            Error::MissingServerFeature { feature, description } => {
                &&& feature@ == "shallow"@
                &&& description@
                    == "shallow clones need server support to remain shallow, otherwise bigger than expected packs are sent effectively unshallowing the repository"@
            },
            _ => false,
        }
    }
}

/// What has to be done before the arguments can be added.
#[derive(Clone, Copy, Debug, PartialEq, Eq, Structural)]
pub enum ShallowRequest {
    /// Lock the file with the shallow boundary, failing at once if somebody else holds the lock.
    AcquireLock,
    /// Read the file with the shallow boundary.
    ReadFile,
}

/// Gathers what is needed to add arguments. `L` is the lock on the file with the shallow boundary.
pub struct ShallowRun<L> {
    /// The lock, if it was needed and is held.
    pub lock: Option<L>,
    /// What to do next.
    pub request: ShallowRequest,
}

impl<L> ShallowRun<L> {
    /// Whether everything is there to add the arguments for `shallow` once the file is read.
    pub open spec fn is_ready_for(&self, shallow: &Shallow) -> bool {
        &&& self.request == ShallowRequest::ReadFile
        &&& self.lock is Some <==> shallow.changes_boundary()
    }

    /// Start out, with the lock being required only if `shallow` changes the boundary.
    pub fn new(shallow: &Shallow) -> (run: Self)
        ensures
            run.lock is None,
            run.request == (match shallow {
                Shallow::NoChange => ShallowRequest::ReadFile,
                Shallow::DepthAtRemote(_) => ShallowRequest::AcquireLock,
                Shallow::Deepen(_) => ShallowRequest::AcquireLock,
                Shallow::Since { .. } => ShallowRequest::AcquireLock,
                Shallow::Exclude { .. } => ShallowRequest::AcquireLock,
            }),
            shallow.changes_boundary() ==> run.request == ShallowRequest::AcquireLock,
            !shallow.changes_boundary() ==> run.is_ready_for(shallow),
    {
        let request = if shallow.expects_change() {
            ShallowRequest::AcquireLock
        } else {
            ShallowRequest::ReadFile
        };
        ShallowRun { lock: None, request }
    }
}

/// Go on to reading the file if the lock was acquired, or fail.
pub fn acquire_shallow_lock<L, F>(acquired: Result<L, F>) -> (run: Result<ShallowRun<L>, Error<F>>)
    ensures
        run == (match acquired {
            Ok(lock) => Ok(
                (ShallowRun { lock: Some(lock), request: ShallowRequest::ReadFile }),
            ),
            Err(err) => Err(Error::Lock(err)),
        }),
{
    match acquired {
        Ok(lock) => Ok(ShallowRun { lock: Some(lock), request: ShallowRequest::ReadFile }),
        Err(err) => Err(Error::Lock(err)),
    }
}

/// Add all commits at the boundary to `args`.
fn add_boundary(args: &mut Arguments, ids: &Vec<Vec<u8>>)
    ensures
        final(args).can_use_shallow == old(args).can_use_shallow,
        old(args).args@.is_prefix_of(final(args).args@),
        views_of(final(args).args@) == views_of(old(args).args@) + ids.deep_view().map_values(
            |id: Seq<u8>| ArgumentView::Shallow(id),
        ),
{
    let ghost added = ids.deep_view().map_values(|id: Seq<u8>| ArgumentView::Shallow(id));
    let ghost before = views_of(args.args@);
    let mut i: usize = 0;
    assert(views_of(args.args@) =~= before + added.take(0));
    while i < ids.len()
        invariant
            i <= ids.len(),
            added == ids.deep_view().map_values(|id: Seq<u8>| ArgumentView::Shallow(id)),
            args.can_use_shallow == old(args).can_use_shallow,
            old(args).args@.is_prefix_of(args.args@),
            views_of(args.args@) == before + added.take(i as int),
        decreases ids.len() - i,
    {
        let id = ids[i].clone();
        assert(id@ =~= ids.deep_view()[i as int]);
        args.push(Argument::Shallow(id));
        i += 1;
        assert(views_of(args.args@) =~= before + added.take(i as int));
    }
    assert(added.take(i as int) =~= added);
}

/// Add all references to leave out to `args`.
fn add_excluded(args: &mut Arguments, names: &Vec<Vec<u8>>)
    ensures
        final(args).can_use_shallow == old(args).can_use_shallow,
        old(args).args@.is_prefix_of(final(args).args@),
        views_of(final(args).args@) == views_of(old(args).args@) + exclude_arguments(names.deep_view()),
{
    let ghost added = exclude_arguments(names.deep_view());
    let ghost before = views_of(args.args@);
    let mut i: usize = 0;
    assert(views_of(args.args@) =~= before + added.take(0));
    while i < names.len()
        invariant
            i <= names.len(),
            added == exclude_arguments(names.deep_view()),
            args.can_use_shallow == old(args).can_use_shallow,
            old(args).args@.is_prefix_of(args.args@),
            views_of(args.args@) == before + added.take(i as int),
        decreases names.len() - i,
    {
        let name = names[i].clone();
        assert(name@ =~= names.deep_view()[i as int]);
        args.push(Argument::DeepenNot(name));
        i += 1;
        assert(views_of(args.args@) =~= before + added.take(i as int));
    }
    assert(added.take(i as int) =~= added);
}

/// Add the arguments that ask the server for the change in `shallow` to `args`.
fn add_change(args: &mut Arguments, shallow: &Shallow)
    ensures
        final(args).can_use_shallow == old(args).can_use_shallow,
        old(args).args@.is_prefix_of(final(args).args@),
        views_of(final(args).args@) == views_of(old(args).args@) + shallow.arguments(),
{
    match shallow {
        Shallow::NoChange => {},
        Shallow::DepthAtRemote(commits) => {
            args.push(Argument::Deepen(*commits as usize));
        },
        Shallow::Deepen(commits) => {
            args.push(Argument::Deepen(*commits as usize));
            args.push(Argument::DeepenRelative);
        },
        Shallow::Since { cutoff } => {
            args.push(Argument::DeepenSince(*cutoff));
        },
        Shallow::Exclude { remote_refs, since_cutoff } => {
            if let Some(cutoff) = since_cutoff {
                args.push(Argument::DeepenSince(*cutoff));
            }
            add_excluded(args, remote_refs);
        },
    }
    assert(views_of(args.args@) =~= views_of(old(args).args@) + shallow.arguments());
}

/// Add all arguments to `args` that tell the server about the current shallow boundary, and how
/// `shallow` wants to change it, or fail if that takes a feature that the server lacks.
///
/// `boundary` has the bytes of the ids of all commits at the boundary.
pub fn add_boundary_and_change<F>(
    args: &mut Arguments,
    shallow: &Shallow,
    boundary: &Option<Vec<Vec<u8>>>,
) -> (added: Result<(), Error<F>>)
    ensures
        final(args).can_use_shallow == old(args).can_use_shallow,
        if needs_server_support(shallow, boundary.deep_view()) && !old(args).can_use_shallow {
            &&& added is Err
            &&& added->Err_0.is_missing_shallow()
            &&& views_of(final(args).args@) == views_of(old(args).args@)
        } else {
            &&& added is Ok
            &&& views_of(final(args).args@) == views_of(old(args).args@) + boundary_arguments(boundary.deep_view())
                + shallow.arguments()
        },
        added is Err <==> !old(args).can_use_shallow && (boundary is Some || !(
        shallow is NoChange)),
        added is Err ==> added->Err_0 is MissingServerFeature && final(args).args@ == old(args).args@,
        added matches Err(Error::MissingServerFeature { feature, description }) ==> {
            &&& feature@ == "shallow"@
            &&& description@
                == "shallow clones need server support to remain shallow, otherwise bigger than expected packs are sent effectively unshallowing the repository"@
        },
        old(args).args@.is_prefix_of(final(args).args@),
{
    if (boundary.is_some() || shallow.expects_change()) && !args.can_use_shallow {
        return Err(
            Error::MissingServerFeature {
                feature: "shallow",
                description: "shallow clones need server support to remain shallow, otherwise bigger than expected packs are sent effectively unshallowing the repository",
            },
        );
    }
    if let Some(ids) = boundary {
        add_boundary(args, ids);
    }
    assert(views_of(args.args@) =~= views_of(old(args).args@) + boundary_arguments(boundary.deep_view()));
    add_change(args, shallow);
    Ok(())
}

/// Add all arguments to `args` that tell the server about the current shallow boundary, and how
/// `shallow` wants to change it.
///
/// `read` is the result of reading the file with the shallow boundary, with `None` if there is no
/// boundary. Return the boundary, along with the lock that is needed to change it.
pub fn add_shallow_args<L, F>(
    args: &mut Arguments,
    shallow: &Shallow,
    run: ShallowRun<L>,
    read: Result<Option<NonEmpty<ObjectId>>, F>,
) -> (added: Result<(Option<NonEmpty<ObjectId>>, Option<L>), Error<F>>)
    requires
        run.is_ready_for(shallow),
    ensures
        final(args).can_use_shallow == old(args).can_use_shallow,
        match read {
            Err(err) => added == Err::<(Option<NonEmpty<ObjectId>>, Option<L>), _>(
                Error::Read(err),
            ) && views_of(final(args).args@) == views_of(old(args).args@),
            Ok(commits) => if needs_server_support(shallow, boundary_of(commits))
                && !old(args).can_use_shallow {
                &&& added is Err
                &&& added->Err_0.is_missing_shallow()
                &&& views_of(final(args).args@) == views_of(old(args).args@)
            } else {
                &&& added == Ok::<_, Error<F>>((commits, run.lock))
                &&& views_of(final(args).args@) == views_of(old(args).args@) + boundary_arguments(
                    boundary_of(commits),
                ) + shallow.arguments()
            },
        },
        added matches Ok((commits, lock)) ==> {
            &&& read == Ok::<_, F>(commits)
            &&& lock == run.lock
            &&& lock is Some <==> !(shallow is NoChange)
            &&& commits is Some || !(shallow is NoChange) ==> old(args).can_use_shallow
        },
        added matches Err(Error::Read(err)) ==> read == Err::<Option<NonEmpty<ObjectId>>, _>(err),
        added matches Err(Error::MissingServerFeature { feature, description }) ==> {
            &&& !old(args).can_use_shallow
            &&& read is Ok && (read->Ok_0 is Some || !(shallow is NoChange))
            &&& feature@ == "shallow"@
            &&& description@
                == "shallow clones need server support to remain shallow, otherwise bigger than expected packs are sent effectively unshallowing the repository"@
        },
        added is Err ==> !(added->Err_0 is Lock) && final(args).args@ == old(args).args@,
        old(args).args@.is_prefix_of(final(args).args@),
{
    let shallow_commits = match read {
        Ok(commits) => commits,
        Err(err) => return Err(Error::Read(err)),
    };
    let boundary = match &shallow_commits {
        Some(commits) => Some(commit_ids(commits)),
        None => None,
    };
    match add_boundary_and_change(args, shallow, &boundary) {
        Ok(()) => Ok((shallow_commits, run.lock)),
        Err(err) => Err(err),
    }
}

/// Leaving a repository alone that has all of its history takes no argument at all, and no feature of the server.
pub proof fn law_complete_history_needs_nothing()
    ensures
        !needs_server_support(&Shallow::NoChange, None),
        boundary_arguments(None) + Shallow::NoChange.arguments() == Seq::<ArgumentView>::empty(),
{
}

/// The server hears of the whole current boundary, in order, before it hears of any change to it.
pub proof fn law_boundary_precedes_change(
    sent: Seq<ArgumentView>,
    boundary: Seq<Seq<u8>>,
    shallow: &Shallow,
)
    ensures
        ({
            let all = sent + boundary_arguments(Some(boundary)) + shallow.arguments();
            &&& forall|i: int|
                0 <= i < boundary.len() ==> all[#[trigger] (sent.len() + i)]
                    == ArgumentView::Shallow(boundary[i])
            &&& forall|i: int|
                sent.len() + boundary.len() <= i < all.len() ==> !((#[trigger] all[i]) is Shallow)
        }),
{
    assert forall|i: int| 0 <= i < shallow.arguments().len() implies !((
    #[trigger] shallow.arguments()[i]) is Shallow) by {
        if let Shallow::Exclude { remote_refs, since_cutoff } = shallow {
            let since = since_arguments(*since_cutoff);
            if i >= since.len() {
                assert(shallow.arguments()[i] == exclude_arguments(remote_refs.deep_view())[i
                    - since.len()]);
            }
        }
    }
    let all = sent + boundary_arguments(Some(boundary)) + shallow.arguments();
    assert forall|i: int| sent.len() + boundary.len() <= i < all.len() implies !((
    #[trigger] all[i]) is Shallow) by {
        assert(all[i] == shallow.arguments()[i - sent.len() - boundary.len()]);
    }
}

/// Each change of the boundary, of whatever kind, takes the lock and a server that supports shallow clones. Only leaving
/// the boundary alone goes without the lock, and without support by the server if there is no boundary.
pub proof fn law_changes_need_lock_and_support<L>(
    shallow: &Shallow,
    boundary: Option<Seq<Seq<u8>>>,
    run: ShallowRun<L>,
)
    ensures
        match shallow {
            Shallow::NoChange => {
                &&& !shallow.changes_boundary()
                &&& needs_server_support(shallow, boundary) == boundary is Some
                &&& run.is_ready_for(shallow) == (run.request == ShallowRequest::ReadFile
                    && run.lock is None)
            },
            Shallow::DepthAtRemote(_) | Shallow::Deepen(_) | Shallow::Since { .. }
            | Shallow::Exclude { .. } => {
                &&& shallow.changes_boundary()
                &&& needs_server_support(shallow, boundary)
                &&& run.is_ready_for(shallow) == (run.request == ShallowRequest::ReadFile
                    && run.lock is Some)
            },
        },
{
}

/// Arguments that deepen the history are added only with a lock that is needed and with support by the server that is
/// needed, as there is no such argument unless the boundary changes.
pub proof fn law_deepening_is_a_change(shallow: &Shallow, boundary: Option<Seq<Seq<u8>>>)
    ensures
        shallow.arguments().len() > 0 ==> shallow.changes_boundary() && needs_server_support(
            shallow,
            boundary,
        ),
        forall|i: int|
            0 <= i < shallow.arguments().len() ==> {
                let argument = #[trigger] shallow.arguments()[i];
                argument is Deepen || argument is DeepenRelative || argument is DeepenSince
                    || argument is DeepenNot
            },
{
    if let Shallow::Exclude { remote_refs, since_cutoff } = shallow {
        let since = since_arguments(*since_cutoff);
        assert forall|i: int| 0 <= i < shallow.arguments().len() implies {
            let argument = #[trigger] shallow.arguments()[i];
            argument is DeepenSince || argument is DeepenNot
        } by {
            if i >= since.len() {
                assert(shallow.arguments()[i] == exclude_arguments(remote_refs.deep_view())[i
                    - since.len()]);
            }
        }
    }
}

/// The server is asked for exactly the depth, point in time and references that were chosen, where a depth counts from the
/// current boundary only if it is to be moved, and where the point in time comes before references, which are in order.
pub proof fn law_arguments_of_changes(shallow: &Shallow)
    ensures
        ({
            let sent = shallow.arguments();
            match shallow {
                Shallow::NoChange => sent.len() == 0,
                Shallow::DepthAtRemote(commits) => {
                    &&& sent.len() == 1
                    &&& sent[0] matches ArgumentView::Deepen(depth)
                    &&& depth == *commits
                },
                Shallow::Deepen(commits) => {
                    &&& sent.len() == 2
                    &&& sent[0] matches ArgumentView::Deepen(depth)
                    &&& depth == *commits
                    &&& sent[1] is DeepenRelative
                },
                Shallow::Since { cutoff } => {
                    &&& sent.len() == 1
                    &&& sent[0] == ArgumentView::DeepenSince(*cutoff)
                },
                Shallow::Exclude { remote_refs, since_cutoff: Some(cutoff) } => {
                    &&& sent.len() == 1 + remote_refs@.len()
                    &&& sent[0] == ArgumentView::DeepenSince(*cutoff)
                    &&& forall|i: int|
                        0 <= i < remote_refs@.len() ==> sent[1 + i] == ArgumentView::DeepenNot(
                            (#[trigger] remote_refs@[i])@,
                        )
                },
                Shallow::Exclude { remote_refs, since_cutoff: None } => {
                    &&& sent.len() == remote_refs@.len()
                    &&& forall|i: int|
                        0 <= i < remote_refs@.len() ==> sent[i] == ArgumentView::DeepenNot(
                            (#[trigger] remote_refs@[i])@,
                        )
                },
            }
        }),
{
    if let Shallow::Exclude { remote_refs, since_cutoff } = shallow {
        let names = remote_refs.deep_view();
        assert(names.len() == remote_refs@.len());
        assert forall|i: int| 0 <= i < remote_refs@.len() implies names[i] == (
        #[trigger] remote_refs@[i])@ by {
            assert(names[i] =~= remote_refs@[i]@);
        }
    }
}

/// The boundary is told by one argument for each commit in it, in order, and by none if there is no boundary.
pub proof fn law_arguments_of_the_boundary(commits: NonEmpty<ObjectId>)
    ensures
        boundary_of(None) is None,
        boundary_of(Some(commits)) == Some(ids_of(commits)),
        boundary_arguments(None).len() == 0,
        boundary_arguments(boundary_of(Some(commits))).len() == ids_of(commits).len(),
        forall|i: int|
            0 <= i < ids_of(commits).len() ==> boundary_arguments(boundary_of(Some(commits)))[i]
                == ArgumentView::Shallow(#[trigger] ids_of(commits)[i]),
{
}

/// Mathematical values show what kind of argument there is, and all that is in it.
pub proof fn law_views_show_arguments(args: Seq<Argument>)
    ensures
        views_of(args).len() == args.len(),
        forall|i: int|
            0 <= i < args.len() ==> match (#[trigger] args[i]) {
                Argument::Shallow(id) => views_of(args)[i] == ArgumentView::Shallow(id@),
                Argument::Deepen(depth) => views_of(args)[i] == ArgumentView::Deepen(depth),
                Argument::DeepenRelative => views_of(args)[i] is DeepenRelative,
                Argument::DeepenSince(seconds) => views_of(args)[i] == ArgumentView::DeepenSince(
                    seconds,
                ),
                Argument::DeepenNot(name) => views_of(args)[i] == ArgumentView::DeepenNot(name@),
            },
{
}

/// A server that lacks support for shallow clones is reported with the name of the feature and why it is needed.
pub proof fn law_missing_support_is_explained<F>(err: Error<F>)
    ensures
        err.is_missing_shallow() <==> {
            &&& err matches Error::MissingServerFeature { feature, description }
            &&& feature@ == "shallow"@
            &&& description@
                == "shallow clones need server support to remain shallow, otherwise bigger than expected packs are sent effectively unshallowing the repository"@
        },
{
}

} // verus!
