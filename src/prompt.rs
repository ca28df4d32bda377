//! The whole prompt: who and where the user is, the repository's state, and
//! how the last command ended; and the text that the shell prints.

use crate::repository::{
    appended, get_git_info, models, repository_outcome, spaced, text_of, GitInfoError, HeadLookup,
    RepoState,
};
use crate::segment::{painted, ComponentModel, Emphasis, PromptComponent};
use crate::style::{decimal_text, signed_decimal, Colour};
use crate::text::{chars_of, concat_str, push_char};
use vstd::prelude::*;

verus! {

pub open spec fn tight(text: Seq<char>, style: Emphasis) -> ComponentModel {
    ComponentModel { text, style, space_after: false }
}

/// The user in purple; with a host name, `user@host` with the host in pink.
pub open spec fn identity_segments(user: Seq<char>, host: Option<Seq<char>>) -> Seq<
    ComponentModel,
> {
    match host {
        None => seq![spaced(user, Emphasis::Bold(Colour::Purple))],
        Some(h) => seq![
            tight(user, Emphasis::Bold(Colour::Purple)),
            tight("@"@, Emphasis::Plain),
            spaced(h, Emphasis::Bold(Colour::Pink)),
        ],
    }
}

/// Who the user is, and on which host unless that is hidden.
pub fn identity_components(user: &str, hostname: Option<&str>) -> (r: Vec<PromptComponent>)
    ensures
        models(r@) == identity_segments(user@, text_of(hostname)),
{
    let mut v: Vec<PromptComponent> = Vec::new();
    match hostname {
        None => {
            v.push(PromptComponent::bold(user, Colour::Purple));
        },
        Some(host) => {
            v.push(PromptComponent::bold(user, Colour::Purple).no_space());
            v.push(PromptComponent::unstyled("@").no_space());
            v.push(PromptComponent::bold(host, Colour::Pink));
        },
    }
    assert(models(v@) =~= identity_segments(user@, text_of(hostname)));
    v
}

pub open spec fn backslashed(c: char) -> char {
    if c == '/' {
        '\\'
    } else {
        c
    }
}

/// A directory path written the way a Windows drive shows it: `C:` before
/// it, and every `/` turned into `\`.
pub open spec fn drive_path(path: Seq<char>) -> Seq<char> {
    "C:"@ + path.map_values(|c: char| backslashed(c))
}

/// Writes `path` as a path on drive `C:`.
pub fn windows_dir(path: &str) -> (r: String)
    ensures
        r@ == drive_path(path@),
{
    let v = chars_of(path);
    let mut s = "C:".to_owned();
    let ghost prefix = s@;
    let mut i: usize = 0;
    while i < v.len()
        invariant
            0 <= i <= v.len(),
            v@ == path@,
            s@ == prefix + v@.take(i as int).map_values(|c: char| backslashed(c)),
        decreases v.len() - i,
    {
        let c = v[i];
        if c == '/' {
            push_char(&mut s, '\\');
        } else {
            push_char(&mut s, c);
        }
        i = i + 1;
        assert(s@ =~= prefix + v@.take(i as int).map_values(|c: char| backslashed(c)));
    }
    assert(v@.take(i as int) =~= v@);
    s
}

pub open spec fn location_segments(path: Seq<char>) -> Seq<ComponentModel> {
    seq![
        spaced("in"@, Emphasis::Plain),
        spaced(drive_path(path), Emphasis::Bold(Colour::Green)),
    ]
}

/// "in" and the working directory in green.
pub fn location_components(path: &str) -> (r: Vec<PromptComponent>)
    ensures
        models(r@) == location_segments(path@),
{
    let dir = windows_dir(path);
    let mut v: Vec<PromptComponent> = Vec::new();
    v.push(PromptComponent::unstyled("in"));
    v.push(PromptComponent::bold(dir.as_str(), Colour::Green));
    assert(models(v@) =~= location_segments(path@));
    v
}

/// An arrow in yellow after a success; after a failure the exit status and
/// the arrow in red.
pub open spec fn status_segment(last_status: int) -> ComponentModel {
    if last_status == 0 {
        spaced("\u{f061}"@, Emphasis::Bold(Colour::Yellow))
    } else {
        spaced(signed_decimal(last_status) + " \u{f061}"@, Emphasis::Bold(Colour::Red))
    }
}

/// The segment that shows how the last command ended.
pub fn status_component(last_status: i32) -> (r: PromptComponent)
    ensures
        r.model() == status_segment(last_status as int),
{
    if last_status == 0 {
        PromptComponent::bold("\u{f061}", Colour::Yellow)
    } else {
        let text = concat_str(decimal_text(last_status).as_str(), " \u{f061}");
        PromptComponent::bold(text.as_str(), Colour::Red)
    }
}

/// The printed prompt: each segment painted, with a space after those that
/// ask for one.
pub open spec fn rendered(s: Seq<ComponentModel>) -> Seq<char>
    decreases s.len(),
{
    if s.len() == 0 {
        Seq::empty()
    } else {
        let last = s.last();
        rendered(s.drop_last()) + painted(last.text, last.style) + if last.space_after {
            seq![' ']
        } else {
            Seq::empty()
        }
    }
}

/// The text that the shell prints for `components`.
pub fn render_prompt(components: &Vec<PromptComponent>) -> (r: String)
    ensures
        r@ == rendered(models(components@)),
{
    let mut s = String::new();
    let mut i: usize = 0;
    while i < components.len()
        invariant
            0 <= i <= components.len(),
            s@ == rendered(models(components@).take(i as int)),
        decreases components.len() - i,
    {
        let piece = components[i].render();
        s.append(piece.as_str());
        if components[i].space_after {
            push_char(&mut s, ' ');
        }
        proof {
            let m = models(components@);
            assert(m.take(i + 1).drop_last() =~= m.take(i as int));
        }
        i = i + 1;
        assert(s@ =~= rendered(models(components@).take(i as int)));
    }
    assert(models(components@).take(i as int) =~= models(components@));
    s
}

/// The repository's part of the prompt for a given outcome: its segments,
/// or nothing where it could not be read.
pub open spec fn repository_part(outcome: Result<Seq<ComponentModel>, GitInfoError>) -> Seq<
    ComponentModel,
> {
    match outcome {
        Ok(segments) => segments,
        Err(_) => Seq::empty(),
    }
}

/// The whole prompt's segments: identity, location, the repository's state
/// and the last exit status. Where the repository's state cannot be read,
/// its segments are left out and the rest of the prompt still stands.
pub fn prompt_components(
    user: &str,
    hostname: Option<&str>,
    path: &str,
    repo: &Option<git2::Repository>,
    head_file: Option<&str>,
    last_status: i32,
) -> (r: Vec<PromptComponent>)
    ensures
        exists|git: Seq<ComponentModel>|
            {
                &&& models(r@) == identity_segments(user@, text_of(hostname))
                    + location_segments(path@) + git + seq![status_segment(last_status as int)]
                &&& repo is None ==> git.len() == 0
                &&& repo is Some ==> exists|
                    lookup: HeadLookup,
                    state: RepoState,
                    scan: Option<Seq<u32>>,
                |
                    git == repository_part(
                        #[trigger] repository_outcome(lookup, text_of(head_file), state, scan),
                    )
            },
{
    let mut v = identity_components(user, hostname);
    let mut location = location_components(path);
    v.append(&mut location);
    let ghost before = models(v@);
    assert(before =~= identity_segments(user@, text_of(hostname)) + location_segments(path@));
    let result = get_git_info(&mut v, repo, head_file);
    let ghost git = models(v@).subrange(before.len() as int, models(v@).len() as int);
    proof {
        if repo is Some {
            let (lookup, state, scan) = choose|
                lookup: HeadLookup,
                state: RepoState,
                scan: Option<Seq<u32>>,
            |
                appended(
                    before,
                    models(v@),
                    result,
                    #[trigger] repository_outcome(lookup, text_of(head_file), state, scan),
                );
            let outcome = repository_outcome(lookup, text_of(head_file), state, scan);
            assert(git =~= repository_part(outcome));
        } else {
            assert(git =~= Seq::<ComponentModel>::empty());
        }
    }
    assert(models(v@) =~= before + git);
    v.push(status_component(last_status));
    assert(models(v@) =~= before + git + seq![status_segment(last_status as int)]);
    v
}

} // verus!
