use vstd::prelude::*;
use vstd::string::*;

use crate::error::ConfigError;
use crate::text::{starts_with_char, same_text, trim_of, trim_text};

verus! {

/// `base` joined with `seg` the way a path is extended: an absolute `seg`
/// replaces `base`, and a separator is put between the two unless `base` is
/// empty or already ends in one.
pub open spec fn joined(base: Seq<char>, seg: Seq<char>) -> Seq<char> {
    if seg.len() > 0 && seg[0] == '/' {
        seg
    } else if base.len() == 0 || base.last() == '/' {
        base + seg
    } else {
        base + seq!['/'] + seg
    }
}

/// Whether a home-directory variable holds a usable value: set, and not
/// blank once trimmed.
pub open spec fn usable_home(v: Option<String>) -> bool {
    match v {
        Some(h) => trim_of(h@).len() > 0,
        None => false,
    }
}

/// The home directory chosen from the primary and the fallback variable.
pub open spec fn chosen_home(primary: Option<String>, fallback: Option<String>) -> Option<Seq<char>> {
    if usable_home(primary) {
        Some(primary->0@)
    } else if usable_home(fallback) {
        Some(fallback->0@)
    } else {
        None
    }
}

/// Whether `r` succeeded with a text of exactly these characters.
pub open spec fn ok_text(r: Result<String, ConfigError>, s: Seq<char>) -> bool {
    match r {
        Ok(v) => v@ == s,
        Err(_) => false,
    }
}

/// Whether a path starts with a tilde and a separator (`~/` or `~\`).
pub open spec fn has_tilde_prefix(p: Seq<char>) -> bool {
    p.len() >= 2 && p[0] == '~' && (p[1] == '/' || p[1] == '\\')
}

/// Whether a path names the home directory alone (`~`, whitespace aside).
pub open spec fn is_bare_tilde(p: Seq<char>) -> bool {
    trim_of(p) == seq!['~']
}

/// Whether expanding the path needs the home directory.
pub open spec fn needs_home(p: Seq<char>) -> bool {
    has_tilde_prefix(p) || is_bare_tilde(p)
}

/// A path with a leading `~/` (or `~\`) replaced by the home directory, a
/// bare `~` replaced by the home directory, and left as it is otherwise.
pub open spec fn tilde_expanded(p: Seq<char>, home: Seq<char>) -> Seq<char> {
    if has_tilde_prefix(p) {
        joined(home, p.subrange(2, p.len() as int))
    } else if is_bare_tilde(p) {
        home
    } else {
        p
    }
}

/// The directory that holds the configuration file.
pub open spec fn config_dir_of(home: Seq<char>) -> Seq<char> {
    joined(home, ".neovate"@)
}

/// The configuration file under a home directory.
pub open spec fn config_path_of(home: Seq<char>) -> Seq<char> {
    joined(config_dir_of(home), "config.json"@)
}

/// Extends a path by one more segment.
pub fn join_path(base: &str, seg: &str) -> (r: String)
    ensures
        r@ == joined(base@, seg@),
{
    if starts_with_char(seg, '/') {
        return String::from_str(seg);
    }
    let n = base.unicode_len();
    if n == 0 || base.get_char(n - 1) == '/' {
        String::from_str(base).concat(seg)
    } else {
        proof {
            reveal_strlit("/");
        }
        let r = String::from_str(base).concat("/").concat(seg);
        assert(r@ =~= joined(base@, seg@));
        r
    }
}

fn is_usable_home(v: &Option<String>) -> (r: bool)
    ensures
        r == usable_home(*v),
{
    match v {
        Some(h) => trim_text(h.as_str()).unicode_len() > 0,
        None => false,
    }
}

/// Picks the home directory from the values of the primary and the fallback
/// home-directory variables (`None` for a variable that is not set): the
/// first that is not blank once trimmed, taken as it is.
pub fn home_dir(primary: Option<String>, fallback: Option<String>) -> (r: Result<String, ConfigError>)
    ensures
        match chosen_home(primary, fallback) {
            Some(h) => ok_text(r, h),
            None => r == Err::<String, ConfigError>(ConfigError::NoHomeDirectory),
        },
{
    if is_usable_home(&primary) {
        return Ok(primary.unwrap());
    }
    if is_usable_home(&fallback) {
        return Ok(fallback.unwrap());
    }
    Err(ConfigError::NoHomeDirectory)
}

/// Expands a leading `~` of a path against the home directory (`None` when
/// it could not be resolved). Only `~/`, `~\` and a bare `~` are expanded;
/// every other path comes back unchanged, and only an expansion that needs
/// the home directory fails without one.
pub fn expand_tilde(path: &str, home: &Option<String>) -> (r: Result<String, ConfigError>)
    ensures
        !needs_home(path@) ==> ok_text(r, path@),
        needs_home(path@) && home.is_none() ==> r == Err::<String, ConfigError>(
            ConfigError::NoHomeDirectory,
        ),
        needs_home(path@) && home.is_some() ==> ok_text(r, tilde_expanded(path@, home->0@)),
{
    let n = path.unicode_len();
    let prefixed = n >= 2 && path.get_char(0) == '~' && (path.get_char(1) == '/' || path.get_char(
        1,
    ) == '\\');
    if prefixed {
        match home {
            Some(h) => {
                let rest = path.substring_char(2, n);
                return Ok(join_path(h.as_str(), rest));
            },
            None => {
                return Err(ConfigError::NoHomeDirectory);
            },
        }
    }
    let trimmed = trim_text(path);
    proof {
        reveal_strlit("~");
        assert("~"@ =~= seq!['~']);
    }
    if same_text(trimmed.as_str(), "~") {
        match home {
            Some(h) => {
                return Ok(h.clone());
            },
            None => {
                return Err(ConfigError::NoHomeDirectory);
            },
        }
    }
    Ok(String::from_str(path))
}

/// The path of the configuration file, `<home>/.neovate/config.json`.
pub fn config_path(home: &Option<String>) -> (r: Result<String, ConfigError>)
    ensures
        home.is_none() ==> r == Err::<String, ConfigError>(ConfigError::NoHomeDirectory),
        home.is_some() ==> ok_text(r, config_path_of(home->0@)),
{
    match home {
        Some(h) => {
            let dir = join_path(h.as_str(), ".neovate");
            Ok(join_path(dir.as_str(), "config.json"))
        },
        None => Err(ConfigError::NoHomeDirectory),
    }
}

} // verus!
