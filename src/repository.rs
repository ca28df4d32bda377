//! What the prompt shows of a version-control repository: the current
//! reference, an operation in progress, and whether changes are staged or
//! not yet staged.

use crate::head_file::{branch_from_head_file, head_branch};
use crate::segment::{ComponentModel, Emphasis, PromptComponent};
use crate::style::Colour;
use crate::text::concat_str;
use git2::RepositoryState as GitState;
use vstd::prelude::*;

verus! {

#[verifier::external_type_specification]
#[verifier::external_body]
pub struct ExRepository(git2::Repository);

/// Status bits of a file changed in the index: new, modified, deleted,
/// renamed or type-changed.
pub const INDEX_CHANGES: u32 = 0x1f;

/// Status bits of a file changed in the working tree: new, modified,
/// deleted, type-changed or renamed.
pub const WORKTREE_CHANGES: u32 = 0xf80;

pub open spec fn is_staged(flags: u32) -> bool {
    flags & INDEX_CHANGES != 0
}

pub open spec fn is_unstaged(flags: u32) -> bool {
    flags & WORKTREE_CHANGES != 0
}

/// Whether changes are staged, and whether changes are not yet staged.
#[derive(Clone, Copy, Debug, PartialEq, Eq, Structural)]
pub struct ChangeSummary {
    pub staged: bool,
    pub unstaged: bool,
}

pub open spec fn any_staged(entries: Seq<u32>) -> bool {
    exists|i: int| 0 <= i < entries.len() && is_staged(#[trigger] entries[i])
}

pub open spec fn any_unstaged(entries: Seq<u32>) -> bool {
    exists|i: int| 0 <= i < entries.len() && is_unstaged(#[trigger] entries[i])
}

pub open spec fn summary_of(entries: Seq<u32>) -> ChangeSummary {
    ChangeSummary { staged: any_staged(entries), unstaged: any_unstaged(entries) }
}

/// Reduces the status bits of every file to whether any file has changes
/// in the index and whether any has changes in the working tree.
pub fn classify_statuses(entries: &Vec<u32>) -> (r: ChangeSummary)
    ensures
        r == summary_of(entries@),
{
    let mut staged = false;
    let mut unstaged = false;
    let mut i: usize = 0;
    while i < entries.len() && !(staged && unstaged)
        invariant
            0 <= i <= entries.len(),
            staged == any_staged(entries@.take(i as int)),
            unstaged == any_unstaged(entries@.take(i as int)),
        decreases entries.len() - i,
    {
        let flags = entries[i];
        assert(entries@.take(i as int + 1)[i as int] == flags);
        if flags & WORKTREE_CHANGES != 0 {
            unstaged = true;
        }
        if flags & INDEX_CHANGES != 0 {
            staged = true;
        }
        i = i + 1;
        assert(forall|k: int|
            0 <= k < i - 1 ==> entries@.take(i as int)[k] == entries@.take(i - 1)[k]);
    }
    if i < entries.len() {
        assert(forall|k: int| 0 <= k < i ==> entries@.take(i as int)[k] == entries@[k]);
    } else {
        assert(entries@.take(i as int) =~= entries@);
    }
    ChangeSummary { staged, unstaged }
}

/// The result of classifying does not depend on the order in which the
/// files are listed: two listings of the same files give the same result.
pub proof fn lemma_classification_ignores_order(a: Seq<u32>, b: Seq<u32>)
    requires
        a.to_multiset() == b.to_multiset(),
    ensures
        summary_of(a) == summary_of(b),
{
    assert forall|x: Seq<u32>, y: Seq<u32>|
        x.to_multiset() == y.to_multiset() && #[trigger] any_staged(x) implies #[trigger] any_staged(
            y,
        ) by {
        let i = choose|i: int| 0 <= i < x.len() && is_staged(x[i]);
        vstd::seq_lib::to_multiset_contains(x, x[i]);
        vstd::seq_lib::to_multiset_contains(y, x[i]);
        assert(x.contains(x[i]));
        let j = choose|j: int| 0 <= j < y.len() && y[j] == x[i];
        assert(is_staged(y[j]));
    }
    assert forall|x: Seq<u32>, y: Seq<u32>|
        x.to_multiset() == y.to_multiset() && #[trigger] any_unstaged(x)
            implies #[trigger] any_unstaged(y) by {
        let i = choose|i: int| 0 <= i < x.len() && is_unstaged(x[i]);
        vstd::seq_lib::to_multiset_contains(x, x[i]);
        vstd::seq_lib::to_multiset_contains(y, x[i]);
        assert(x.contains(x[i]));
        let j = choose|j: int| 0 <= j < y.len() && y[j] == x[i];
        assert(is_unstaged(y[j]));
    }
    assert(any_staged(a) == any_staged(b));
    assert(any_unstaged(a) == any_unstaged(b));
}

/// A single file counts as staged exactly when it has an index change, and
/// as unstaged exactly when it has a working-tree change, each regardless
/// of the other.
pub proof fn lemma_single_file_families(flags: u32)
    ensures
        summary_of(seq![flags]) == (ChangeSummary {
            staged: flags & INDEX_CHANGES != 0,
            unstaged: flags & WORKTREE_CHANGES != 0,
        }),
{
    assert(seq![flags][0] == flags);
}

/// The repository's lifecycle state: normal, or in the middle of a
/// multi-step operation.
#[derive(Clone, Copy, Debug, PartialEq, Eq, Structural)]
pub enum RepoState {
    Clean,
    Merge,
    Revert,
    RevertSequence,
    CherryPick,
    CherryPickSequence,
    Bisect,
    Rebase,
    RebaseInteractive,
    RebaseMerge,
    ApplyMailbox,
    ApplyMailboxOrRebase,
}

/// A multi-step operation that the prompt announces.
#[derive(Clone, Copy, Debug, PartialEq, Eq, Structural)]
pub enum Operation {
    Merge,
    Revert,
    CherryPick,
    Rebase,
}

pub open spec fn operation_of(state: RepoState) -> Option<Operation> {
    match state {
        RepoState::Merge => Some(Operation::Merge),
        RepoState::Revert | RepoState::RevertSequence => Some(Operation::Revert),
        RepoState::CherryPick | RepoState::CherryPickSequence => Some(Operation::CherryPick),
        RepoState::Rebase | RepoState::RebaseInteractive | RepoState::RebaseMerge => Some(
            Operation::Rebase,
        ),
        _ => None,
    }
}

/// The operation in progress in `state`, if the prompt announces one.
pub fn operation_in_progress(state: RepoState) -> (r: Option<Operation>)
    ensures
        r == operation_of(state),
        r == Some(Operation::Merge) <==> state == RepoState::Merge,
        r == Some(Operation::Revert) <==> (state == RepoState::Revert || state
            == RepoState::RevertSequence),
        r == Some(Operation::CherryPick) <==> (state == RepoState::CherryPick || state
            == RepoState::CherryPickSequence),
        r == Some(Operation::Rebase) <==> (state == RepoState::Rebase || state
            == RepoState::RebaseInteractive || state == RepoState::RebaseMerge),
        state == RepoState::Clean ==> r is None,
{
    match state {
        RepoState::Merge => Some(Operation::Merge),
        RepoState::Revert | RepoState::RevertSequence => Some(Operation::Revert),
        RepoState::CherryPick | RepoState::CherryPickSequence => Some(Operation::CherryPick),
        RepoState::Rebase | RepoState::RebaseInteractive | RepoState::RebaseMerge => Some(
            Operation::Rebase,
        ),
        _ => None,
    }
}

impl Operation {
    pub open spec fn label_text(self) -> Seq<char> {
        match self {
            Operation::Merge => "merge"@,
            Operation::Revert => "revert"@,
            Operation::CherryPick => "cherry pick"@,
            Operation::Rebase => "rebase"@,
        }
    }

    /// The words that name the operation in the prompt.
    pub fn label(&self) -> (r: &'static str)
        ensures
            r@ == self.label_text(),
    {
        match self {
            Operation::Merge => "merge",
            Operation::Revert => "revert",
            Operation::CherryPick => "cherry pick",
            Operation::Rebase => "rebase",
        }
    }
}

/// How looking up the reference that HEAD points at came out.
pub enum HeadLookup {
    /// HEAD resolves; this is the reference's short name.
    Resolved(String),
    /// There is no HEAD reference.
    Missing,
    /// HEAD names a branch that has no commit yet.
    Unborn,
    /// The lookup failed otherwise.
    Failed,
}

/// Why the repository's part of the prompt could not be made.
#[derive(Clone, Copy, Debug, PartialEq, Eq, Structural)]
pub enum GitInfoError {
    /// Looking up HEAD failed for a reason other than a missing reference or
    /// an unborn branch, or HEAD's short name is not UTF-8.
    HeadLookupFailed,
    /// The branch is unborn and the head-pointer file could not be read.
    HeadFileUnreadable,
    /// The branch is unborn and the head-pointer file holds no line.
    HeadFileEmpty,
    /// The scan of the working tree and the index failed.
    StatusScanFailed,
}

pub open spec fn text_of(s: Option<&str>) -> Option<Seq<char>> {
    match s {
        Some(t) => Some(t@),
        None => None,
    }
}

/// The name of the current reference (`None` where there is none), given how
/// HEAD's lookup came out and the head-pointer file's contents, if read.
pub open spec fn resolution(lookup: HeadLookup, head_file: Option<Seq<char>>) -> Result<
    Option<Seq<char>>,
    GitInfoError,
> {
    match lookup {
        HeadLookup::Resolved(name) => Ok(Some(name@)),
        HeadLookup::Missing => Ok(None),
        HeadLookup::Unborn => match head_file {
            None => Err(GitInfoError::HeadFileUnreadable),
            Some(contents) => match head_branch(contents) {
                Some(name) => Ok(Some(name)),
                None => Err(GitInfoError::HeadFileEmpty),
            },
        },
        HeadLookup::Failed => Err(GitInfoError::HeadLookupFailed),
    }
}

/// Resolves the name of the current reference. An unborn branch is named
/// from the first line of the head-pointer file.
pub fn resolve_reference(lookup: HeadLookup, head_file: Option<&str>) -> (r: Result<
    Option<String>,
    GitInfoError,
>)
    ensures
        match r {
            Ok(Some(name)) => resolution(lookup, text_of(head_file)) == Ok::<
                Option<Seq<char>>,
                GitInfoError,
            >(Some(name@)),
            Ok(None) => resolution(lookup, text_of(head_file)) == Ok::<
                Option<Seq<char>>,
                GitInfoError,
            >(None),
            Err(e) => resolution(lookup, text_of(head_file)) == Err::<
                Option<Seq<char>>,
                GitInfoError,
            >(e),
        },
{
    match lookup {
        HeadLookup::Resolved(name) => Ok(Some(name)),
        HeadLookup::Missing => Ok(None),
        HeadLookup::Unborn => match head_file {
            None => Err(GitInfoError::HeadFileUnreadable),
            Some(contents) => match branch_from_head_file(contents) {
                Some(name) => Ok(Some(name)),
                None => Err(GitInfoError::HeadFileEmpty),
            },
        },
        HeadLookup::Failed => Err(GitInfoError::HeadLookupFailed),
    }
}

/// The glyph that precedes the reference's name.
pub open spec fn reference_text(name: Option<Seq<char>>) -> Seq<char> {
    "\u{e725} "@ + match name {
        Some(n) => n,
        None => "(no HEAD)"@,
    }
}

pub open spec fn name_text(name: Option<String>) -> Option<Seq<char>> {
    match name {
        Some(n) => Some(n@),
        None => None,
    }
}

pub open spec fn spaced(text: Seq<char>, style: Emphasis) -> ComponentModel {
    ComponentModel { text, style, space_after: true }
}

/// The repository's segments: the reference in blue; then, during an
/// operation, "performing a" and the operation in pink; then a green `+`
/// when changes are staged; then a red dot when changes are not staged.
pub open spec fn git_segments(
    name: Option<Seq<char>>,
    op: Option<Operation>,
    changes: ChangeSummary,
) -> Seq<ComponentModel> {
    let head = seq![spaced(reference_text(name), Emphasis::Bold(Colour::Blue))];
    let action = match op {
        Some(o) => seq![
            spaced("performing a"@, Emphasis::Plain),
            spaced(o.label_text(), Emphasis::Bold(Colour::Pink)),
        ],
        None => Seq::empty(),
    };
    let plus = if changes.staged {
        seq![spaced("+"@, Emphasis::Bold(Colour::Green))]
    } else {
        Seq::empty()
    };
    let dot = if changes.unstaged {
        seq![spaced("\u{25CF}"@, Emphasis::Bold(Colour::Red))]
    } else {
        Seq::empty()
    };
    head + action + plus + dot
}

pub open spec fn models(v: Seq<PromptComponent>) -> Seq<ComponentModel> {
    v.map_values(|c: PromptComponent| c.model())
}

/// With an operation in progress and changes both staged and not staged,
/// what follows the reference is, in this order: the words introducing the
/// operation, the operation, the staged marker and the unstaged marker.
pub proof fn lemma_segment_order(name: Option<Seq<char>>, op: Operation, changes: ChangeSummary)
    requires
        changes.staged,
        changes.unstaged,
    ensures
        git_segments(name, Some(op), changes).drop_first() == seq![
            spaced("performing a"@, Emphasis::Plain),
            spaced(op.label_text(), Emphasis::Bold(Colour::Pink)),
            spaced("+"@, Emphasis::Bold(Colour::Green)),
            spaced("\u{25CF}"@, Emphasis::Bold(Colour::Red)),
        ],
{
    assert(git_segments(name, Some(op), changes).drop_first() =~= seq![
        spaced("performing a"@, Emphasis::Plain),
        spaced(op.label_text(), Emphasis::Bold(Colour::Pink)),
        spaced("+"@, Emphasis::Bold(Colour::Green)),
        spaced("\u{25CF}"@, Emphasis::Bold(Colour::Red)),
    ]);
}

/// Builds the repository's segments from the reference's name, the operation
/// in progress and the summary of changes.
pub fn repository_segments(
    name: Option<String>,
    op: Option<Operation>,
    changes: ChangeSummary,
) -> (r: Vec<PromptComponent>)
    ensures
        models(r@) == git_segments(name_text(name), op, changes),
{
    let head_text = match &name {
        Some(n) => concat_str("\u{e725} ", n.as_str()),
        None => concat_str("\u{e725} ", "(no HEAD)"),
    };
    let mut v: Vec<PromptComponent> = Vec::new();
    v.push(PromptComponent::bold(head_text.as_str(), Colour::Blue));
    let ghost head = seq![spaced(reference_text(name_text(name)), Emphasis::Bold(Colour::Blue))];
    assert(models(v@) =~= head);
    let ghost action: Seq<ComponentModel> = Seq::empty();
    if let Some(o) = op {
        v.push(PromptComponent::unstyled("performing a"));
        v.push(PromptComponent::bold(o.label(), Colour::Pink));
        proof {
            action = seq![
                spaced("performing a"@, Emphasis::Plain),
                spaced(o.label_text(), Emphasis::Bold(Colour::Pink)),
            ];
        }
    }
    assert(models(v@) =~= head + action);
    let ghost plus: Seq<ComponentModel> = Seq::empty();
    if changes.staged {
        v.push(PromptComponent::bold("+", Colour::Green));
        proof {
            plus = seq![spaced("+"@, Emphasis::Bold(Colour::Green))];
        }
    }
    assert(models(v@) =~= head + action + plus);
    let ghost dot: Seq<ComponentModel> = Seq::empty();
    if changes.unstaged {
        v.push(PromptComponent::bold("\u{25CF}", Colour::Red));
        proof {
            dot = seq![spaced("\u{25CF}"@, Emphasis::Bold(Colour::Red))];
        }
    }
    assert(models(v@) =~= head + action + plus + dot);
    v
}

/// The repository's segments, given how HEAD's lookup came out, the
/// head-pointer file's contents if read, the lifecycle state and the status
/// bits of every changed file. Fails only where the reference cannot be
/// resolved.
pub fn git_info_from(
    lookup: HeadLookup,
    head_file: Option<&str>,
    state: RepoState,
    entries: &Vec<u32>,
) -> (r: Result<Vec<PromptComponent>, GitInfoError>)
    ensures
        match (r, resolution(lookup, text_of(head_file))) {
            (Ok(v), Ok(name)) => models(v@) == git_segments(
                name,
                operation_of(state),
                summary_of(entries@),
            ),
            (Err(e), Err(f)) => e == f,
            _ => false,
        },
{
    let name = resolve_reference(lookup, head_file)?;
    let op = operation_in_progress(state);
    let changes = classify_statuses(entries);
    Ok(repository_segments(name, op, changes))
}

/// The repository's segments, or the error met, given how HEAD's lookup came
/// out, the head-pointer file's contents if read, the lifecycle state and
/// the status bits of every file, where the scan succeeded. The reference is
/// resolved first; a failed scan is reported only after it.
pub open spec fn repository_outcome(
    lookup: HeadLookup,
    head_file: Option<Seq<char>>,
    state: RepoState,
    scan: Option<Seq<u32>>,
) -> Result<Seq<ComponentModel>, GitInfoError> {
    match resolution(lookup, head_file) {
        Err(e) => Err(e),
        Ok(name) => match scan {
            None => Err(GitInfoError::StatusScanFailed),
            Some(entries) => Ok(git_segments(name, operation_of(state), summary_of(entries))),
        },
    }
}

pub open spec fn scan_of(scan: Option<Vec<u32>>) -> Option<Seq<u32>> {
    match scan {
        Some(entries) => Some(entries@),
        None => None,
    }
}

/// The repository's segments from the outcomes of the head lookup, the
/// status scan and the lifecycle state; fails where the reference cannot be
/// resolved or the scan failed.
pub fn repository_info(
    lookup: HeadLookup,
    head_file: Option<&str>,
    state: RepoState,
    scan: Option<Vec<u32>>,
) -> (r: Result<Vec<PromptComponent>, GitInfoError>)
    ensures
        match (r, repository_outcome(lookup, text_of(head_file), state, scan_of(scan))) {
            (Ok(v), Ok(segments)) => models(v@) == segments,
            (Err(e), Err(f)) => e == f,
            _ => false,
        },
{
    match scan {
        Some(entries) => git_info_from(lookup, head_file, state, &entries),
        None => {
            resolve_reference(lookup, head_file)?;
            Err(GitInfoError::StatusScanFailed)
        },
    }
}

#[verifier::external_type_specification]
#[verifier::external_body]
pub struct ExGitError(git2::Error);

#[verifier::external_type_specification]
#[verifier::external_body]
pub struct ExReference<'repo>(git2::Reference<'repo>);

/// Relies on git2's `Repository::head`: the reference that HEAD resolves to,
/// or the error that the lookup met.
pub assume_specification<'a>[ git2::Repository::head ](repo: &'a git2::Repository) -> Result<
    git2::Reference<'a>,
    git2::Error,
>;

/// Relies on git2's `Reference::shorthand`: the reference's short name, or
/// `None` where that name is not UTF-8.
#[verifier::external_body]
fn short_name(reference: &git2::Reference<'_>) -> (r: Option<String>) {
    reference.shorthand().ok().map(|name| name.to_string())
}

/// Relies on git2's `Error::code`: whether a failed HEAD lookup met a
/// missing reference, an unborn branch, or something else.
#[verifier::external_body]
fn head_failure(e: &git2::Error) -> (r: HeadLookup)
    ensures
        !(r is Resolved),
{
    match e.code() {
        git2::ErrorCode::NotFound => HeadLookup::Missing,
        git2::ErrorCode::UnbornBranch => HeadLookup::Unborn,
        _ => HeadLookup::Failed,
    }
}

/// Looks up the reference that HEAD points at, and its short name.
fn lookup_head(repo: &git2::Repository) -> (r: HeadLookup) {
    match repo.head() {
        Ok(head) => match short_name(&head) {
            Some(name) => HeadLookup::Resolved(name),
            None => HeadLookup::Failed,
        },
        Err(e) => head_failure(&e),
    }
}

/// Relies on git2's `Repository::statuses`, with no options, and
/// `StatusEntry::status`: the status bits of each entry that the scan
/// reports, or `None` where the scan fails.
#[verifier::external_body]
fn status_entries(repo: &git2::Repository) -> (r: Option<Vec<u32>>) {
    repo.statuses(None).ok().map(|st| st.iter().map(|e| e.status().bits()).collect())
}

/// Relies on git2's `Repository::state`: the repository's lifecycle state,
/// variant for variant.
#[verifier::external_body]
fn lifecycle_state(repo: &git2::Repository) -> (r: RepoState) {
    match repo.state() {
        GitState::Clean => RepoState::Clean,
        GitState::Merge => RepoState::Merge,
        GitState::Revert => RepoState::Revert,
        GitState::RevertSequence => RepoState::RevertSequence,
        GitState::CherryPick => RepoState::CherryPick,
        GitState::CherryPickSequence => RepoState::CherryPickSequence,
        GitState::Bisect => RepoState::Bisect,
        GitState::Rebase => RepoState::Rebase,
        GitState::RebaseInteractive => RepoState::RebaseInteractive,
        GitState::RebaseMerge => RepoState::RebaseMerge,
        GitState::ApplyMailbox => RepoState::ApplyMailbox,
        GitState::ApplyMailboxOrRebase => RepoState::ApplyMailboxOrRebase,
    }
}

/// What `get_git_info` leaves in `components` and returns, given the
/// segments before the call and the outcome for the repository.
pub open spec fn appended(
    before: Seq<ComponentModel>,
    after: Seq<ComponentModel>,
    r: Result<(), GitInfoError>,
    outcome: Result<Seq<ComponentModel>, GitInfoError>,
) -> bool {
    match (r, outcome) {
        (Ok(()), Ok(segments)) => after == before + segments,
        (Err(e), Err(f)) => e == f && after == before,
        _ => false,
    }
}

/// Appends the repository's segments to `components`. Outside a repository
/// nothing is appended and nothing fails. In a repository, the head lookup,
/// the status scan and the lifecycle state come from disk; whatever they
/// give, the result is `repository_outcome` of them. `head_file` holds the
/// contents of the repository's head-pointer file where it could be read;
/// it is used only for an unborn branch. On failure nothing is appended.
pub fn get_git_info(
    components: &mut Vec<PromptComponent>,
    repo: &Option<git2::Repository>,
    head_file: Option<&str>,
) -> (r: Result<(), GitInfoError>)
    ensures
        repo is None ==> r is Ok && final(components)@ == old(components)@,
        r is Err ==> final(components)@ == old(components)@,
        repo is Some ==> exists|lookup: HeadLookup, state: RepoState, scan: Option<Seq<u32>>|
            appended(
                models(old(components)@),
                models(final(components)@),
                r,
                #[trigger] repository_outcome(lookup, text_of(head_file), state, scan),
            ),
        r == Err::<(), GitInfoError>(GitInfoError::HeadFileUnreadable) ==> head_file is None,
        r == Err::<(), GitInfoError>(GitInfoError::HeadFileEmpty) ==> (head_file matches Some(t)
            && t@.len() == 0),
{
    match repo {
        None => Ok(()),
        Some(repo) => {
            let lookup = lookup_head(repo);
            let scan = status_entries(repo);
            let state = lifecycle_state(repo);
            let ghost outcome = repository_outcome(lookup, text_of(head_file), state, scan_of(scan));
            match repository_info(lookup, head_file, state, scan) {
                Ok(mut segments) => {
                    let ghost before = components@;
                    components.append(&mut segments);
                    assert(models(components@) =~= models(before) + outcome->Ok_0);
                    Ok(())
                },
                Err(e) => Err(e),
            }
        },
    }
}

} // verus!
