//! Discovery of the origin URLs of repositories that are already checked out.
//!
//! The caller walks the directory and reads each `.git/config` it finds; the
//! library reads the origin URL out of each text.
use vstd::prelude::*;

verus! {

/// What `rust-ini` reads in a text: `None` where the text is no valid INI
/// document, `Some(None)` where it has no entry `key` in section `section`,
/// and `Some(Some(v))` where that entry's value is `v`.
pub uninterp spec fn ini_entry(text: Seq<char>, section: Seq<char>, key: Seq<char>) -> Option<
    Option<Seq<char>>,
>;

/// Relies on `ini::Ini::load_from_str` to parse `text` and on
/// `ini::Ini::get_from` to look up `key` in `section`.
#[verifier::external_body]
fn ini_lookup(text: &str, section: &str, key: &str) -> (r: Option<Option<String>>)
    ensures
        r.deep_view() == ini_entry(text@, section@, key@),
{
    ini::Ini::load_from_str(text).ok().map(|c| c.get_from(Some(section), key).map(|v| v.to_string()))
}

/// The origin URL that a `.git/config` text gives: the entry `url` of the
/// section `remote "origin"`, or the empty text where there is none or the
/// text does not parse.
pub open spec fn origin_url_of(text: Seq<char>) -> Seq<char> {
    match ini_entry(text, "remote \"origin\""@, "url"@) {
        Some(Some(v)) => v,
        _ => Seq::empty(),
    }
}

/// The non-empty origin URLs of `configs`, in order.
pub open spec fn discovered_origins(configs: Seq<Seq<char>>) -> Seq<Seq<char>>
    decreases configs.len(),
{
    if configs.len() == 0 {
        Seq::empty()
    } else {
        let rest = discovered_origins(configs.drop_last());
        let u = origin_url_of(configs.last());
        if u.len() > 0 {
            rest.push(u)
        } else {
            rest
        }
    }
}

/// Reading of repository configurations.
#[derive(Debug)]
pub struct GitConfig {}

impl GitConfig {
    /// The origin URLs of the repositories whose `.git/config` texts are
    /// `configs`, in order, leaving out those that have none.
    pub fn try_load_git_config_by_paths(configs: &Vec<String>) -> (r: Vec<String>)
        ensures
            r.deep_view() == discovered_origins(configs.deep_view()),
    {
        let mut r: Vec<String> = Vec::new();
        let mut k: usize = 0;
        while k < configs.len()
            invariant
                k <= configs.len(),
                r.deep_view() == discovered_origins(configs.deep_view().take(k as int)),
            decreases configs.len() - k,
        {
            let ghost before = r.deep_view();
            assert(configs.deep_view().take(k + 1).drop_last() =~= configs.deep_view().take(
                k as int,
            ));
            assert(configs.deep_view().take(k + 1).last() == configs.deep_view()[k as int]);
            let u = GitConfig::remote_url_by_str(configs[k].as_str());
            if !u.as_str().is_empty() {
                r.push(u);
                assert(r.deep_view() =~= before.push(u@));
            }
            k += 1;
        }
        assert(configs.deep_view().take(k as int) =~= configs.deep_view());
        r
    }

    /// The origin URL in a `.git/config` text, or the empty text where it
    /// gives none.
    pub fn remote_url_by_str(text: &str) -> (r: String)
        ensures
            r@ == origin_url_of(text@),
    {
        match ini_lookup(text, "remote \"origin\"", "url") {
            Some(Some(v)) => v,
            _ => String::new(),
        }
    }
}

} // verus!
