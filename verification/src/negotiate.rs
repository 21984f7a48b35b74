//! How to find out what client and server have in common.

use std::path::PathBuf;
use vstd::prelude::*;

verus! {

/// The way the negotiation is performed.
#[derive(Clone, Copy, Debug, PartialEq, Eq, Structural)]
pub enum Algorithm {
    /// Do not send any information at all, which typically leads to complete packs to be sent.
    Noop,
    /// Walk over consecutive commits and check each one. This can be costly be assures packs are exactly the size they need to be.
    Consecutive,
    /// Like `Consecutive`, but skips commits to converge faster, at the cost of receiving packs that are larger than they have to be.
    Skipping,
}

/// The algorithm to use if the configuration has `configured`, with invalid values being ignored if `lenient`.
pub open spec fn chosen_algorithm<F>(
    configured: Option<Result<Algorithm, F>>,
    lenient: bool,
) -> Result<Algorithm, F> {
    match configured {
        Some(Ok(algorithm)) => Ok(algorithm),
        Some(Err(err)) if !lenient => Err(err),
        _ => Ok(Algorithm::Consecutive),
    }
}

/// Return the algorithm to use if the configuration has `configured`, with invalid values being ignored if `lenient`.
pub fn choose_algorithm<F>(
    configured: Option<Result<Algorithm, F>>,
    lenient: bool,
) -> (algorithm: Result<Algorithm, F>)
    ensures
        algorithm == chosen_algorithm(configured, lenient),
        algorithm is Err <==> !lenient && (configured matches Some(Err(_))),
        configured matches Some(Ok(value)) ==> algorithm == Ok::<_, F>(value),
        configured matches Some(Err(err)) ==> algorithm is Ok || algorithm == Err::<Algorithm, _>(
            err,
        ),
        !(configured matches Some(Ok(_))) && algorithm is Ok ==> algorithm->Ok_0
            == Algorithm::Consecutive,
{
    match configured {
        Some(Ok(algorithm)) => Ok(algorithm),
        Some(Err(err)) => if lenient {
            Ok(Algorithm::Consecutive)
        } else {
            Err(err)
        },
        None => Ok(Algorithm::Consecutive),
    }
}

/// Whether to reject shallow remotes if the configuration has `configured`.
pub open spec fn chosen_reject_shallow<F>(configured: Option<Result<bool, F>>) -> Result<bool, F> {
    match configured {
        Some(value) => value,
        None => Ok(false),
    }
}

/// Return whether to reject shallow remotes if the configuration has `configured`.
pub fn choose_reject_shallow<F>(configured: Option<Result<bool, F>>) -> (reject: Result<bool, F>)
    ensures
        reject == chosen_reject_shallow(configured),
        configured is Some ==> reject == configured->0,
        configured is None ==> reject == Ok::<_, F>(false),
{
    match configured {
        Some(value) => value,
        None => Ok(false),
    }
}

/// What `std::path::Path::parent()` returns for `path`, on Windows or elsewhere.
pub uninterp spec fn parent_of(path: std::path::PathBuf, on_windows: bool) -> Option<std::path::PathBuf>;

/// Call `std::path::Path::parent()`.
///
/// Its result is a function of `path` and of the platform that the program was built for, as there are more
/// separators on Windows. Which of the two it is stays open.
#[verifier::external_body]
fn parent(path: &PathBuf) -> (dir: Option<PathBuf>)
    ensures
        dir == parent_of(*path, false) || dir == parent_of(*path, true),
{
    path.parent().map(|dir| dir.to_path_buf())
}

/// The object databases that the one of the repository borrows objects from.
pub struct Alternates {
    /// The paths to the databases.
    pub paths: Vec<PathBuf>,
}

impl Alternates {
    /// Return all paths, leaving none behind, so that each alternate is considered only once.
    pub fn take(&mut self) -> (paths: Vec<PathBuf>)
        ensures
            paths == old(self).paths,
            final(self).paths@ == Seq::<PathBuf>::empty(),
    {
        let mut paths: Vec<PathBuf> = Vec::new();
        std::mem::swap(&mut paths, &mut self.paths);
        paths
    }

    /// Like [`take()`](Self::take()), but return the directory that each database is in, which is where its
    /// repository is, with `None` for a path that is in no directory.
    pub fn take_git_dirs(&mut self) -> (dirs: Vec<Option<PathBuf>>)
        ensures
            dirs@.len() == old(self).paths@.len(),
            forall|i: int|
                0 <= i < dirs@.len() ==> {
                    ||| #[trigger] dirs@[i] == parent_of(old(self).paths@[i], false)
                    ||| dirs@[i] == parent_of(old(self).paths@[i], true)
                },
            final(self).paths@ == Seq::<PathBuf>::empty(),
    {
        let paths = self.take();
        let mut dirs: Vec<Option<PathBuf>> = Vec::new();
        for path in iter: &paths
            invariant
                dirs@.len() == iter.index(),
                forall|i: int|
                    0 <= i < dirs@.len() ==> {
                        ||| #[trigger] dirs@[i] == parent_of(paths@[i], false)
                        ||| dirs@[i] == parent_of(paths@[i], true)
                    },
        {
            dirs.push(parent(path));
        }
        dirs
    }
}

/// All values in `values`, in order.
pub open spec fn present<T>(values: Seq<Option<T>>) -> Seq<T>
    decreases values.len(),
{
    if values.len() == 0 {
        seq![]
    } else {
        match values.last() {
            Some(value) => present(values.drop_last()).push(value),
            None => present(values.drop_last()),
        }
    }
}

/// Return all values in `values` while keeping their order.
///
/// With it, alternates that are no part of a repository, or whose repository does not open, are left out.
pub fn keep_present<T>(values: Vec<Option<T>>) -> (kept: Vec<T>)
    ensures
        kept@ == present(values@),
{
    let ghost all = values@;
    let mut kept: Vec<T> = Vec::new();
    assert(all.take(0) =~= seq![]);
    for value in iter: values
        invariant
            iter.seq() == all,
            kept@ == present(all.take(iter.index())),
    {
        assert(all.take(iter.index() + 1).drop_last() =~= all.take(iter.index()));
        if let Some(value) = value {
            kept.push(value);
        }
    }
    assert(all.take(all.len() as int) =~= all);
    kept
}

/// A valid value decides on the algorithm, whether invalid ones are ignored or not. Without a value, or with an invalid one
/// that is ignored, the walk is consecutive. An invalid one that is not ignored is an error.
pub proof fn law_configured_algorithms<F>(algorithm: Algorithm, err: F, lenient: bool)
    ensures
        chosen_algorithm(Some(Ok::<_, F>(algorithm)), lenient) == Ok::<_, F>(algorithm),
        chosen_algorithm(None::<Result<_, F>>, lenient) == Ok::<_, F>(Algorithm::Consecutive),
        chosen_algorithm(Some(Err(err)), true) == Ok::<_, F>(Algorithm::Consecutive),
        chosen_algorithm(Some(Err(err)), false) == Err::<Algorithm, _>(err),
{
}

/// Shallow remotes are rejected exactly if the configuration says so, with an invalid value being an error.
pub proof fn law_configured_rejection<F>(reject: bool, err: F)
    ensures
        chosen_reject_shallow(Some(Ok::<_, F>(reject))) == Ok::<_, F>(reject),
        chosen_reject_shallow(None::<Result<_, F>>) == Ok::<_, F>(false),
        chosen_reject_shallow(Some(Err(err))) == Err::<bool, _>(err),
{
}

/// Values are kept one by one and in order: each that is there is kept once, each that is not is left out, and what comes
/// later has no influence on what came before.
pub proof fn law_present_values_are_kept<T>(value: T, first: Seq<Option<T>>, second: Seq<Option<T>>)
    ensures
        present(seq![Some(value)]) == seq![value],
        present(seq![None::<T>]) == Seq::<T>::empty(),
        present(Seq::<Option<T>>::empty()) == Seq::<T>::empty(),
        present(first + second) == present(first) + present(second),
    decreases second.len(),
{
    reveal_with_fuel(present, 2);
    assert(seq![Some(value)].drop_last() =~= Seq::<Option<T>>::empty());
    assert(seq![None::<T>].drop_last() =~= Seq::<Option<T>>::empty());
    if second.len() == 0 {
        assert(first + second =~= first);
        assert(present(first) + present(second) =~= present(first));
    } else {
        law_present_values_are_kept(value, first, second.drop_last());
        assert((first + second).drop_last() =~= first + second.drop_last());
        assert((first + second).last() == second.last());
        assert(present(first + second) =~= present(first) + present(second));
    }
}

} // verus!
