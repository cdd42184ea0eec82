//! Naming a repository after its URL, placing it on disk, and finding the directory that
//! a manifest lies in.
//!
//! Paths are texts in which `/` separates the segments; a path that begins with `/` is
//! absolute. Empty segments and segments that are `.` do not count.

use vstd::prelude::*;
use vstd::string::*;
use crate::config::option_text;
use crate::text::{
    chars_of, chain, ends_with, ends_with_chars, free_of, last_segment, last_segment_from,
    last_segment_start, lemma_last_segment_free, lemma_last_segment_of_joined,
    lemma_last_segment_start, starts_with, strip_suffix,
};

verus! {

/// The URL without one trailing `/` and then without one trailing `.git`.
pub open spec fn trimmed_url(url: Seq<char>) -> Seq<char> {
    strip_suffix(strip_suffix(url, "/"@), ".git"@)
}

/// The name of the repository behind `url`: of the trimmed URL, what follows the last
/// `/`, and of that, what follows the last `:`. Where nothing is left, the name is
/// `unknown`.
pub open spec fn repo_name(url: Seq<char>) -> Seq<char> {
    let segment = last_segment(last_segment(trimmed_url(url), '/'), ':');
    if segment.len() == 0 {
        "unknown"@
    } else {
        segment
    }
}

/// The path begins at the root.
pub open spec fn is_absolute(path: Seq<char>) -> bool {
    path.len() > 0 && path[0] == '/'
}

/// `segment` below `base`. An absolute `segment` stands for itself; otherwise the two are
/// put together with one `/` between them, which an empty `base` and a `base` that
/// already ends in `/` do not need.
pub open spec fn path_join(base: Seq<char>, segment: Seq<char>) -> Seq<char> {
    if is_absolute(segment) {
        segment
    } else if base.len() == 0 || base.last() == '/' {
        base + segment
    } else {
        base + "/"@ + segment
    }
}

/// The directory that holds a repository: the override below the base directory, or the
/// base directory where there is no override.
pub open spec fn local_dir(base_dir: Seq<char>, local_dir_override: Option<Seq<char>>) -> Seq<
    char,
> {
    match local_dir_override {
        Some(dir) => path_join(base_dir, dir),
        None => base_dir,
    }
}

/// Where a repository named `name` lives on disk.
pub open spec fn local_path(
    base_dir: Seq<char>,
    local_dir_override: Option<Seq<char>>,
    name: Seq<char>,
) -> Seq<char> {
    path_join(local_dir(base_dir, local_dir_override), name)
}

/// Where the repository at `local_path` keeps its Git data.
pub open spec fn git_dir(local_path: Seq<char>) -> Seq<char> {
    path_join(local_path, ".git"@)
}

/// The number of characters at the beginning of `path` that belong to no segment: the
/// `/` of an absolute path, or the `.` of a path that begins in the current directory,
/// which is `.` itself or begins with `./`.
pub open spec fn path_lead(path: Seq<char>) -> int {
    if is_absolute(path) || path == "."@ || starts_with(path, "./"@) {
        1
    } else {
        0
    }
}

/// `path` without what stands idle at its end: separators, and segments that are `.`.
/// The first `lead` characters are never taken off.
pub open spec fn without_idle_end(path: Seq<char>, lead: int) -> Seq<char>
    decreases path.len(),
{
    if path.len() > lead && lead >= 0 && (path.last() == '/' || (path.last() == '.'
        && path.len() >= 2 && path[path.len() - 2] == '/')) {
        without_idle_end(path.drop_last(), lead)
    } else {
        path
    }
}

/// The directory that holds `path`: the path without its last segment and without what
/// stands idle before it. A path in the current directory has the empty path as its
/// parent; the root and the empty path have none.
pub open spec fn parent_dir(path: Seq<char>) -> Option<Seq<char>> {
    let lead = path_lead(path);
    let trimmed = without_idle_end(path, lead);
    if trimmed.len() > lead {
        let start = lead + last_segment_start(trimmed.skip(lead), '/');
        let cut = if start > lead {
            start - 1
        } else {
            lead
        };
        Some(without_idle_end(trimmed.take(cut), lead))
    } else if lead == 1 && !is_absolute(path) {
        Some(Seq::empty())
    } else {
        None
    }
}

/// The directory that the entries of the manifest at `config_path` count from: the
/// directory that holds the manifest, or `.` where the path has no parent.
pub open spec fn base_dir(config_path: Seq<char>) -> Seq<char> {
    match parent_dir(config_path) {
        Some(dir) => dir,
        None => "."@,
    }
}

/// A path segment that joins plainly: not empty, not absolute.
pub open spec fn is_plain_segment(segment: Seq<char>) -> bool {
    segment.len() > 0 && segment[0] != '/'
}

/// A directory that takes a separator before the next segment: not empty, no `/` at its
/// end.
pub open spec fn is_plain_dir(dir: Seq<char>) -> bool {
    dir.len() > 0 && dir.last() != '/'
}

/// The name of the repository behind `url`.
pub fn extract_repo_name(url: &str) -> (name: String)
    ensures
        name@ == repo_name(url@),
{
    let chars = chars_of(url);
    let slash = chars_of("/");
    let git = chars_of(".git");
    proof {
        reveal_strlit("/");
        reveal_strlit(".git");
    }
    let mut end: usize = chars.len();
    if ends_with_chars(&chars, end, &slash) {
        end -= 1;
    }
    assert(chars@.subrange(0, chars.len() as int) =~= url@);
    if ends_with_chars(&chars, end, &git) {
        end -= 4;
    }
    let ghost trimmed = chars@.subrange(0, end as int);
    assert(trimmed =~= trimmed_url(url@));
    let from: usize = last_segment_from(&chars, 0, end, '/');
    let ghost tail = chars@.subrange(from as int, end as int);
    assert(tail =~= last_segment(trimmed, '/'));
    let start: usize = last_segment_from(&chars, from, end, ':');
    if start == end {
        "unknown".to_owned()
    } else {
        url.substring_char(start, end).to_owned()
    }
}

/// `segment` below `base`.
pub fn join_path(base: &str, segment: &str) -> (joined: String)
    ensures
        joined@ == path_join(base@, segment@),
{
    let head = chars_of(base);
    let tail = chars_of(segment);
    if tail.len() > 0 && tail[0] == '/' {
        segment.to_owned()
    } else if head.len() == 0 || head[head.len() - 1] == '/' {
        chain(base, segment)
    } else {
        let mut joined = chain(base, "/");
        joined.append(segment);
        joined
    }
}

/// Where a repository named `name` lives on disk, given the directory of the manifest and
/// the directory that the manifest asks for, if any.
pub fn resolve_path(base_dir: &str, local_dir_override: Option<&str>, name: &str) -> (path: String)
    ensures
        path@ == local_path(
            base_dir@,
            match local_dir_override {
                Some(dir) => Some(dir@),
                None => None,
            },
            name@,
        ),
{
    match local_dir_override {
        Some(dir) => {
            let parent = join_path(base_dir, dir);
            join_path(parent.as_str(), name)
        },
        None => join_path(base_dir, name),
    }
}

/// Where what stands idle at the end of the first `end` characters of `path` begins.
fn idle_end(path: &Vec<char>, end: usize, lead: usize) -> (stop: usize)
    requires
        lead <= end <= path.len(),
    ensures
        lead <= stop <= end,
        path@.take(stop as int) == without_idle_end(path@.take(end as int), lead as int),
{
    let mut stop: usize = end;
    while stop > lead && (path[stop - 1] == '/' || (path[stop - 1] == '.' && stop >= 2 && path[stop
        - 2] == '/'))
        invariant
            lead <= stop <= end <= path.len(),
            without_idle_end(path@.take(stop as int), lead as int) == without_idle_end(
                path@.take(end as int),
                lead as int,
            ),
        decreases stop,
    {
        assert(path@.take(stop as int).drop_last() =~= path@.take(stop - 1));
        stop -= 1;
    }
    stop
}

/// The directory that holds `path`, if it has one.
pub fn parent_of(path: &str) -> (parent: Option<String>)
    ensures
        option_text(parent) == parent_dir(path@),
{
    let chars = chars_of(path);
    let n: usize = chars.len();
    proof {
        reveal_strlit(".");
        reveal_strlit("./");
        assert(chars@.take(n as int) =~= path@);
        if n == 1 && path@[0] == '.' {
            assert(path@ =~= "."@);
        }
        if n >= 2 {
            let begin = path@.subrange(0, 2);
            assert(begin[0] == path@[0] && begin[1] == path@[1]);
            if path@[0] == '.' && path@[1] == '/' {
                assert(begin =~= "./"@);
            }
            if begin == "./"@ {
                assert("./"@[0] == '.' && "./"@[1] == '/');
            }
        }
    }
    let rooted = n > 0 && chars[0] == '/';
    let lead: usize = if rooted || (n > 0 && chars[0] == '.' && (n == 1 || chars[1] == '/')) {
        1
    } else {
        0
    };
    assert(lead == path_lead(path@));
    let end = idle_end(&chars, n, lead);
    if end > lead {
        let start = last_segment_from(&chars, lead, end, '/');
        let cut: usize = if start > lead {
            start - 1
        } else {
            lead
        };
        let stop = idle_end(&chars, cut, lead);
        proof {
            let trimmed = chars@.take(end as int);
            assert(chars@.subrange(lead as int, end as int) =~= trimmed.skip(lead as int));
            assert(trimmed.take(cut as int) =~= chars@.take(cut as int));
            assert(path@.subrange(0, stop as int) =~= chars@.take(stop as int));
        }
        Some(path.substring_char(0, stop).to_owned())
    } else if lead == 1 && !rooted {
        Some(String::new())
    } else {
        None
    }
}

/// The directory that the entries of the manifest at `config_path` count from.
pub fn base_dir_of(config_path: &str) -> (dir: String)
    ensures
        dir@ == base_dir(config_path@),
{
    match parent_of(config_path) {
        Some(dir) => dir,
        None => ".".to_owned(),
    }
}

/// Where the repository at `local_path` keeps its Git data.
pub fn git_dir_of(local_path: &str) -> (path: String)
    ensures
        path@ == git_dir(local_path@),
{
    join_path(local_path, ".git")
}

/// A repository's name is never empty and holds neither `/` nor `:`, so it is one path
/// segment and never an absolute path.
pub proof fn lemma_repo_name_is_one_segment(url: Seq<char>)
    ensures
        repo_name(url).len() > 0,
        free_of(repo_name(url), '/'),
        free_of(repo_name(url), ':'),
        is_plain_segment(repo_name(url)),
{
    reveal_strlit("unknown");
    let outer = last_segment(trimmed_url(url), '/');
    let inner = last_segment(outer, ':');
    lemma_last_segment_free(trimmed_url(url), '/');
    lemma_last_segment_free(outer, ':');
    lemma_last_segment_start(outer, ':');
    assert forall|i: int| 0 <= i < inner.len() implies inner[i] != '/' by {
    }
}

/// A URL that ends in `.git` names the same repository with and without a `/` behind it,
/// and the name is that of the text before `.git`, taken as it stands.
pub proof fn lemma_git_suffix_with_or_without_slash(stem: Seq<char>)
    ensures
        trimmed_url(stem + ".git"@) == stem,
        trimmed_url(stem + ".git"@ + "/"@) == stem,
        repo_name(stem + ".git"@ + "/"@) == repo_name(stem + ".git"@),
{
    reveal_strlit(".git");
    reveal_strlit("/");
    let plain = stem + ".git"@;
    let slashed = plain + "/"@;
    assert(plain.subrange(plain.len() - 1, plain.len() as int)[0] == 't');
    assert(plain.subrange(plain.len() - 4, plain.len() as int) =~= ".git"@);
    assert(slashed.subrange(slashed.len() - 1, slashed.len() as int) =~= "/"@);
    assert(slashed.subrange(0, slashed.len() - 1) =~= plain);
}

/// A URL that ends in `.git`, with or without a `/` behind it, names the same repository
/// as its stripped form: the URL with both taken off. The stripped form is a text that
/// ends in neither.
pub proof fn lemma_name_of_stripped_form(stem: Seq<char>)
    requires
        !ends_with(stem, "/"@),
        !ends_with(stem, ".git"@),
    ensures
        repo_name(stem + ".git"@) == repo_name(stem),
        repo_name(stem + ".git"@ + "/"@) == repo_name(stem),
{
    lemma_git_suffix_with_or_without_slash(stem);
}

/// The URL `git@host:group/project.git` of a project whose name holds neither `/` nor `:`
/// names the repository `project`.
pub proof fn lemma_scp_style_name(host: Seq<char>, group: Seq<char>, project: Seq<char>)
    requires
        project.len() > 0,
        free_of(project, '/'),
        free_of(project, ':'),
    ensures
        repo_name("git@"@ + host + ":"@ + group + "/"@ + project + ".git"@) == project,
{
    reveal_strlit("/");
    let head = "git@"@ + host + ":"@ + group;
    let stem = head + "/"@ + project;
    lemma_git_suffix_with_or_without_slash(stem);
    assert(stem =~= head.push('/') + project);
    lemma_last_segment_of_joined(head, '/', project);
    lemma_last_segment_free(project, ':');
}

/// An absolute override decides the place alone: the base directory plays no part.
pub proof fn lemma_absolute_override_ignores_base(
    base_a: Seq<char>,
    base_b: Seq<char>,
    dir: Seq<char>,
    name: Seq<char>,
)
    requires
        is_absolute(dir),
    ensures
        local_path(base_a, Some(dir), name) == local_path(base_b, Some(dir), name),
        local_path(base_a, Some(dir), name) == path_join(dir, name),
{
}

/// With a relative override the place is the name below the override below the base
/// directory; written out, for directories and segments that join plainly, it is
/// `base/override/name`.
pub proof fn lemma_relative_override(base: Seq<char>, dir: Seq<char>, name: Seq<char>)
    requires
        !is_absolute(dir),
    ensures
        local_path(base, Some(dir), name) == path_join(path_join(base, dir), name),
        is_plain_dir(base) && is_plain_dir(dir) && is_plain_segment(name) ==> local_path(
            base,
            Some(dir),
            name,
        ) == base + "/"@ + dir + "/"@ + name,
{
    reveal_strlit("/");
}

/// Without an override the place is the name below the base directory; written out, for
/// a directory and a name that join plainly, it is `base/name`.
pub proof fn lemma_no_override(base: Seq<char>, name: Seq<char>)
    ensures
        local_path(base, None, name) == path_join(base, name),
        is_plain_dir(base) && is_plain_segment(name) ==> local_path(base, None, name) == base
            + "/"@ + name,
{
}

} // verus!
