use fsh_prompt::head_file::branch_from_head_file;
use fsh_prompt::repository::{
    classify_statuses, get_git_info, git_info_from, repository_info, operation_in_progress, resolve_reference,
    ChangeSummary, GitInfoError, HeadLookup, Operation, RepoState, INDEX_CHANGES,
    WORKTREE_CHANGES,
};
use fsh_prompt::segment::{Emphasis, PromptComponent};
use fsh_prompt::style::Colour;

fn texts(v: &[PromptComponent]) -> Vec<String> {
    v.iter().map(|c| c.text.clone()).collect()
}

#[test]
fn masks_match_git2_status_bits() {
    let index = git2::Status::INDEX_DELETED
        | git2::Status::INDEX_MODIFIED
        | git2::Status::INDEX_NEW
        | git2::Status::INDEX_RENAMED
        | git2::Status::INDEX_TYPECHANGE;
    let worktree = git2::Status::WT_DELETED
        | git2::Status::WT_MODIFIED
        | git2::Status::WT_NEW
        | git2::Status::WT_RENAMED
        | git2::Status::WT_TYPECHANGE;
    assert_eq!(index.bits(), INDEX_CHANGES);
    assert_eq!(worktree.bits(), WORKTREE_CHANGES);
}

#[test]
fn clean_tree_has_no_changes() {
    let r = classify_statuses(&vec![]);
    assert_eq!(r, ChangeSummary { staged: false, unstaged: false });
}

#[test]
fn worktree_only_file_is_unstaged() {
    let r = classify_statuses(&vec![git2::Status::WT_MODIFIED.bits()]);
    assert_eq!(r, ChangeSummary { staged: false, unstaged: true });
}

#[test]
fn index_only_file_is_staged() {
    let r = classify_statuses(&vec![git2::Status::INDEX_NEW.bits()]);
    assert_eq!(r, ChangeSummary { staged: true, unstaged: false });
}

#[test]
fn file_in_both_families_is_both() {
    let f = (git2::Status::INDEX_RENAMED | git2::Status::WT_DELETED).bits();
    let r = classify_statuses(&vec![f]);
    assert_eq!(r, ChangeSummary { staged: true, unstaged: true });
}

#[test]
fn ignored_and_conflicted_files_count_for_nothing() {
    let r = classify_statuses(&vec![
        git2::Status::IGNORED.bits(),
        git2::Status::CONFLICTED.bits(),
        git2::Status::WT_UNREADABLE.bits(),
        0,
    ]);
    assert_eq!(r, ChangeSummary { staged: false, unstaged: false });
}

#[test]
fn classification_ignores_order() {
    let a = vec![0x4000, 0x100, 0, 0x2];
    let b = vec![0x2, 0, 0x4000, 0x100];
    assert_eq!(classify_statuses(&a), classify_statuses(&b));
    assert_eq!(classify_statuses(&a), ChangeSummary { staged: true, unstaged: true });
}

#[test]
fn operation_for_each_state() {
    let cases = [
        (RepoState::Clean, None),
        (RepoState::Merge, Some(Operation::Merge)),
        (RepoState::Revert, Some(Operation::Revert)),
        (RepoState::RevertSequence, Some(Operation::Revert)),
        (RepoState::CherryPick, Some(Operation::CherryPick)),
        (RepoState::CherryPickSequence, Some(Operation::CherryPick)),
        (RepoState::Bisect, None),
        (RepoState::Rebase, Some(Operation::Rebase)),
        (RepoState::RebaseInteractive, Some(Operation::Rebase)),
        (RepoState::RebaseMerge, Some(Operation::Rebase)),
        (RepoState::ApplyMailbox, None),
        (RepoState::ApplyMailboxOrRebase, None),
    ];
    for (state, expected) in cases {
        assert_eq!(operation_in_progress(state), expected);
    }
}

#[test]
fn operation_labels() {
    assert_eq!(Operation::Merge.label(), "merge");
    assert_eq!(Operation::Revert.label(), "revert");
    assert_eq!(Operation::CherryPick.label(), "cherry pick");
    assert_eq!(Operation::Rebase.label(), "rebase");
}

#[test]
fn unborn_branch_named_from_head_file() {
    let name = branch_from_head_file("ref: refs/heads/my-feature\n");
    assert_eq!(name.as_deref(), Some("my-feature"));
}

#[test]
fn head_file_first_line_is_trimmed() {
    let name = branch_from_head_file("  ref: refs/heads/team/topic \t\r\nref: refs/heads/other\n");
    assert_eq!(name.as_deref(), Some("topic"));
}

#[test]
fn head_file_without_slash_gives_whole_line() {
    assert_eq!(branch_from_head_file("detached").as_deref(), Some("detached"));
}

#[test]
fn head_file_with_blank_first_line_gives_empty_name() {
    assert_eq!(branch_from_head_file("\nref: refs/heads/x").as_deref(), Some(""));
}

#[test]
fn empty_head_file_names_nothing() {
    assert_eq!(branch_from_head_file(""), None);
}

#[test]
fn resolve_each_lookup_outcome() {
    assert_eq!(
        resolve_reference(HeadLookup::Resolved("main".to_string()), None),
        Ok(Some("main".to_string()))
    );
    assert_eq!(resolve_reference(HeadLookup::Missing, None), Ok(None));
    assert_eq!(
        resolve_reference(HeadLookup::Unborn, Some("ref: refs/heads/dev\n")),
        Ok(Some("dev".to_string()))
    );
    assert_eq!(
        resolve_reference(HeadLookup::Unborn, None),
        Err(GitInfoError::HeadFileUnreadable)
    );
    assert_eq!(resolve_reference(HeadLookup::Unborn, Some("")), Err(GitInfoError::HeadFileEmpty));
    assert_eq!(
        resolve_reference(HeadLookup::Failed, Some("ref: refs/heads/dev\n")),
        Err(GitInfoError::HeadLookupFailed)
    );
}

#[test]
fn clean_repository_on_main() {
    let v = git_info_from(
        HeadLookup::Resolved("main".to_string()),
        None,
        RepoState::Clean,
        &vec![],
    )
    .unwrap();
    assert_eq!(texts(&v), vec!["\u{e725} main".to_string()]);
    assert_eq!(v[0].style, Emphasis::Bold(Colour::Blue));
    assert!(v[0].space_after);
}

#[test]
fn staged_and_unstaged_mid_rebase() {
    let entries = vec![git2::Status::INDEX_NEW.bits(), git2::Status::WT_MODIFIED.bits()];
    let v = git_info_from(
        HeadLookup::Resolved("feature/x".to_string()),
        None,
        RepoState::RebaseInteractive,
        &entries,
    )
    .unwrap();
    assert_eq!(
        texts(&v),
        vec!["\u{e725} feature/x", "performing a", "rebase", "+", "\u{25CF}"]
    );
    let styles: Vec<Emphasis> = v.iter().map(|c| c.style).collect();
    assert_eq!(
        styles,
        vec![
            Emphasis::Bold(Colour::Blue),
            Emphasis::Plain,
            Emphasis::Bold(Colour::Pink),
            Emphasis::Bold(Colour::Green),
            Emphasis::Bold(Colour::Red),
        ]
    );
}

#[test]
fn missing_head_shows_placeholder() {
    let v = git_info_from(HeadLookup::Missing, None, RepoState::Merge, &vec![0x80]).unwrap();
    assert_eq!(texts(&v), vec!["\u{e725} (no HEAD)", "performing a", "merge", "\u{25CF}"]);
}

#[test]
fn failed_lookup_gives_no_segments() {
    let r = git_info_from(HeadLookup::Failed, None, RepoState::Clean, &vec![]);
    assert_eq!(r.err(), Some(GitInfoError::HeadLookupFailed));
}

#[test]
fn no_repository_adds_nothing() {
    let mut v = vec![PromptComponent::unstyled("in")];
    let r = get_git_info(&mut v, &None, None);
    assert_eq!(r, Ok(()));
    assert_eq!(texts(&v), vec!["in"]);
}

#[test]
fn failed_scan_is_reported_after_the_reference() {
    let r = repository_info(HeadLookup::Missing, None, RepoState::Clean, None);
    assert_eq!(r.err(), Some(GitInfoError::StatusScanFailed));
    let r = repository_info(HeadLookup::Unborn, None, RepoState::Clean, None);
    assert_eq!(r.err(), Some(GitInfoError::HeadFileUnreadable));
}

#[test]
fn repository_info_unborn_branch_mid_merge() {
    let v = repository_info(
        HeadLookup::Unborn,
        Some("ref: refs/heads/my-feature\n"),
        RepoState::Merge,
        Some(vec![git2::Status::WT_NEW.bits(), git2::Status::INDEX_DELETED.bits()]),
    )
    .unwrap();
    assert_eq!(
        texts(&v),
        vec!["\u{e725} my-feature", "performing a", "merge", "+", "\u{25CF}"]
    );
}
