use vstd::prelude::*;

use crate::text::{push_str, string_from};

verus! {

/// The user's cache directory, from the `dirs` crate (`dirs::cache_dir`). It depends on
/// the platform and the environment, so nothing is claimed of it.
#[verifier::external_body]
fn user_cache_dir() -> (r: Option<String>) {
    dirs::cache_dir().map(|p| p.to_string_lossy().into_owned())
}

/// `base` with `part` pushed onto it as a path: an absolute `part` replaces it,
/// otherwise the two are joined by one `/`.
pub open spec fn path_push(base: Seq<char>, part: Seq<char>) -> Seq<char> {
    if part.len() > 0 && part[0] == '/' {
        part
    } else if base.len() == 0 || base.last() == '/' {
        base + part
    } else {
        base + seq!['/'] + part
    }
}

/// `base` with `part` pushed onto it as a path (see `path_push`).
pub fn push_path(base: &str, part: &str) -> (r: String)
    ensures
        r@ == path_push(base@, part@),
{
    let b = crate::text::chars_of(base);
    let p = crate::text::chars_of(part);
    if p.len() > 0 && p[0] == '/' {
        return string_from(part);
    }
    let mut r = string_from(base);
    if !(b.len() == 0 || b[b.len() - 1] == '/') {
        push_str(&mut r, "/");
        assert("/"@ =~= seq!['/']) by {
            reveal_strlit("/");
        }
    }
    push_str(&mut r, part);
    r
}

/// Where the cache file for `key` lives under the cache directory `cache_root`:
/// `gitlink/<key>.json` pushed onto it.
pub open spec fn cache_file(cache_root: Seq<char>, key: Seq<char>) -> Seq<char> {
    path_push(path_push(cache_root, "gitlink"@), key + ".json"@)
}

/// The cache file for `key` under the cache directory `cache_root` (see `cache_file`).
pub fn cache_path_in(cache_root: &str, key: &str) -> (r: String)
    ensures
        r@ == cache_file(cache_root@, key@),
{
    let dir = push_path(cache_root, "gitlink");
    let mut name = string_from(key);
    push_str(&mut name, ".json");
    push_path(dir.as_str(), name.as_str())
}

/// The cache file for `key` in the user's cache directory, or `None` when the platform
/// has no cache directory. Creating the directory on disk is left to the caller.
pub fn cache_path(key: &str) -> (r: Option<String>)
    ensures
        r is Some ==> exists|root: Seq<char>| r.unwrap()@ == cache_file(root, key@),
{
    match user_cache_dir() {
        Some(root) => {
            let p = cache_path_in(root.as_str(), key);
            assert(p@ == cache_file(root@, key@));
            Some(p)
        },
        None => None,
    }
}

} // verus!
