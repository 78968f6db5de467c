//! Repository identity: the local workspace name of a repository URL.
use vstd::prelude::*;
use vstd::string::StrSliceExecFns;

verus! {

/// What `url` makes of a text: `None` when it is not an absolute URL or the
/// URL has no hierarchical path, otherwise the path's `/`-separated segments.
pub uninterp spec fn url_path_segments(s: Seq<char>) -> Option<Seq<Seq<char>>>;

/// Relies on `url::Url::parse` and `url::Url::path_segments`: the segments of
/// the path of the URL written in `s`, or `None` where `s` does not parse or
/// its URL cannot be a base.
#[verifier::external_body]
fn parse_path_segments(s: &str) -> (r: Option<Vec<String>>)
    ensures
        r.deep_view() == url_path_segments(s@),
{
    url::Url::parse(s).ok().and_then(
        |u| u.path_segments().map(|p| p.map(|x| x.to_string()).collect()),
    )
}

pub open spec fn git_suffix() -> Seq<char> {
    seq!['.', 'g', 'i', 't']
}

/// `s` with one trailing `.git` taken off, if it ends with one.
pub open spec fn git_stripped(s: Seq<char>) -> Seq<char> {
    if s.len() >= 4 && s.subrange(s.len() - 4, s.len() as int) == git_suffix() {
        s.subrange(0, s.len() - 4)
    } else {
        s
    }
}

/// The name that a list of path segments gives: its last segment without a
/// trailing `.git`, or the empty text where there is no segment.
pub open spec fn segments_name(segs: Seq<Seq<char>>) -> Seq<char> {
    if segs.len() == 0 {
        Seq::empty()
    } else {
        git_stripped(segs.last())
    }
}

/// The name resolved from a repository reference; it may be empty.
pub open spec fn repo_name_of(repo: Seq<char>) -> Option<Seq<char>> {
    match url_path_segments(repo) {
        None => None,
        Some(segs) => Some(segments_name(segs)),
    }
}

/// The workspace name of a repository reference: a resolved, non-empty name.
pub open spec fn workspace_name_of(repo: Seq<char>) -> Option<Seq<char>> {
    match repo_name_of(repo) {
        Some(n) if n.len() > 0 => Some(n),
        _ => None,
    }
}

/// Takes one trailing `.git` off `s`.
pub fn strip_git_suffix(s: &str) -> (r: String)
    ensures
        r@ == git_stripped(s@),
{
    let n = s.unicode_len();
    if n >= 4 && s.get_char(n - 4) == '.' && s.get_char(n - 3) == 'g' && s.get_char(n - 2) == 'i'
        && s.get_char(n - 1) == 't' {
        assert(s@.subrange(n - 4, n as int) =~= git_suffix());
        s.substring_char(0, n - 4).to_owned()
    } else {
        proof {
            if n >= 4 && s@.subrange(n - 4, n as int) == git_suffix() {
                assert(s@[n - 4] == s@.subrange(n - 4, n as int)[0]);
                assert(s@[n - 3] == s@.subrange(n - 4, n as int)[1]);
                assert(s@[n - 2] == s@.subrange(n - 4, n as int)[2]);
                assert(s@[n - 1] == s@.subrange(n - 4, n as int)[3]);
            }
        }
        s.to_owned()
    }
}

/// The name given by a URL's path segments: the last one, without `.git`.
pub fn name_from_segments(segs: &Vec<String>) -> (r: String)
    ensures
        r@ == segments_name(segs.deep_view()),
{
    if segs.len() == 0 {
        String::new()
    } else {
        strip_git_suffix(segs[segs.len() - 1].as_str())
    }
}

/// Resolves a repository reference to a name: `None` where it is no URL with
/// a path, otherwise the last path segment without a trailing `.git`.
pub fn repo_name(repo: &str) -> (r: Option<String>)
    ensures
        r.deep_view() == repo_name_of(repo@),
{
    match parse_path_segments(repo) {
        None => None,
        Some(segs) => Some(name_from_segments(&segs)),
    }
}

/// A URL whose last path segment is `name.git` resolves to `name`.
pub proof fn lemma_resolve_strips_git_suffix(repo: Seq<char>, name: Seq<char>)
    requires
        url_path_segments(repo) matches Some(segs) && segs.len() > 0 && segs.last() == name
            + git_suffix(),
    ensures
        repo_name_of(repo) == Some(name),
{
    let s = name + git_suffix();
    assert(s.subrange(s.len() - 4, s.len() as int) =~= git_suffix());
    assert(s.subrange(0, s.len() - 4) =~= name);
}

/// A URL whose last path segment does not end in `.git` resolves to that
/// segment unchanged.
pub proof fn lemma_resolve_keeps_plain_name(repo: Seq<char>, name: Seq<char>)
    requires
        url_path_segments(repo) matches Some(segs) && segs.len() > 0 && segs.last() == name,
        !(name.len() >= 4 && name.subrange(name.len() - 4, name.len() as int) == git_suffix()),
    ensures
        repo_name_of(repo) == Some(name),
{
}

} // verus!
