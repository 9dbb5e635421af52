use vstd::prelude::*;

use crate::text::{split_chars, split_seq, str_eq, string_of};

verus! {

/// Directories that hold build or tool output; nothing under them is scanned.
pub open spec fn ignored_dirs() -> Seq<&'static str> {
    seq![
        ".git",
        ".svn",
        ".hg",
        "target",
        ".cargo",
        "node_modules",
        ".next",
        ".nuxt",
        ".turbo",
        ".parcel-cache",
        "__pycache__",
        ".venv",
        "venv",
        "env",
        ".env",
        ".mypy_cache",
        ".pytest_cache",
        ".ruff_cache",
        ".tox",
        ".gradle",
        ".idea",
        "build",
        "out",
        ".android",
        "vendor",
        ".bundle",
        ".vscode",
        ".vs",
        "dist",
        ".output",
        ".svelte-kit",
        ".terraform",
        ".serverless",
        ".pulumi",
        ".cache",
        "coverage",
        ".nyc_output",
    ]
}

/// Extensions of binary, media, archive and compiler-generated files, which are not
/// scanned.
pub open spec fn ignored_extensions() -> Seq<&'static str> {
    seq![
        "exe",
        "dll",
        "so",
        "dylib",
        "lib",
        "bin",
        "o",
        "a",
        "obj",
        "class",
        "jar",
        "war",
        "ear",
        "wasm",
        "pdb",
        "ilk",
        "exp",
        "rlib",
        "rmeta",
        "d",
        "pyc",
        "pyo",
        "pyd",
        "png",
        "jpg",
        "jpeg",
        "gif",
        "bmp",
        "ico",
        "svg",
        "webp",
        "tiff",
        "avif",
        "mp3",
        "mp4",
        "wav",
        "ogg",
        "flac",
        "avi",
        "mov",
        "mkv",
        "webm",
        "zip",
        "tar",
        "gz",
        "bz2",
        "xz",
        "zst",
        "7z",
        "rar",
        "pdf",
        "doc",
        "docx",
        "xls",
        "xlsx",
        "ppt",
        "pptx",
        "ttf",
        "otf",
        "woff",
        "woff2",
        "eot",
        "db",
        "sqlite",
        "sqlite3",
        "dat",
        "pak",
        "map",
    ]
}

/// File names (in any directory) that are full of hashes, not secrets.
pub open spec fn ignored_files() -> Seq<&'static str> {
    seq![
        "Cargo.lock",
        "package-lock.json",
        "yarn.lock",
        "pnpm-lock.yaml",
        "composer.lock",
        "Gemfile.lock",
        "poetry.lock",
        "go.sum",
        "mix.lock",
        "pubspec.lock",
        "Cargo.toml.orig",
        ".cargo-lock",
    ]
}

/// Path components that mark generated artifacts wherever they occur.
pub open spec fn ignored_path_segments() -> Seq<&'static str> {
    seq![
        ".fingerprint",
        "incremental",
        "deps",
        ".cache",
    ]
}

/// The directories that are never scanned (see `ignored_dirs`).
pub fn ignored_dir_names() -> (r: Vec<&'static str>)
    ensures
        r@ == ignored_dirs(),
{
    let r = vec![
        ".git",
        ".svn",
        ".hg",
        "target",
        ".cargo",
        "node_modules",
        ".next",
        ".nuxt",
        ".turbo",
        ".parcel-cache",
        "__pycache__",
        ".venv",
        "venv",
        "env",
        ".env",
        ".mypy_cache",
        ".pytest_cache",
        ".ruff_cache",
        ".tox",
        ".gradle",
        ".idea",
        "build",
        "out",
        ".android",
        "vendor",
        ".bundle",
        ".vscode",
        ".vs",
        "dist",
        ".output",
        ".svelte-kit",
        ".terraform",
        ".serverless",
        ".pulumi",
        ".cache",
        "coverage",
        ".nyc_output",
    ];
    assert(r@ =~= ignored_dirs());
    r
}

/// The extensions of files that are never scanned (see `ignored_extensions`).
pub fn ignored_extension_names() -> (r: Vec<&'static str>)
    ensures
        r@ == ignored_extensions(),
{
    let r = vec![
        "exe",
        "dll",
        "so",
        "dylib",
        "lib",
        "bin",
        "o",
        "a",
        "obj",
        "class",
        "jar",
        "war",
        "ear",
        "wasm",
        "pdb",
        "ilk",
        "exp",
        "rlib",
        "rmeta",
        "d",
        "pyc",
        "pyo",
        "pyd",
        "png",
        "jpg",
        "jpeg",
        "gif",
        "bmp",
        "ico",
        "svg",
        "webp",
        "tiff",
        "avif",
        "mp3",
        "mp4",
        "wav",
        "ogg",
        "flac",
        "avi",
        "mov",
        "mkv",
        "webm",
        "zip",
        "tar",
        "gz",
        "bz2",
        "xz",
        "zst",
        "7z",
        "rar",
        "pdf",
        "doc",
        "docx",
        "xls",
        "xlsx",
        "ppt",
        "pptx",
        "ttf",
        "otf",
        "woff",
        "woff2",
        "eot",
        "db",
        "sqlite",
        "sqlite3",
        "dat",
        "pak",
        "map",
    ];
    assert(r@ =~= ignored_extensions());
    r
}

/// The names of files that are never scanned (see `ignored_files`).
pub fn ignored_file_names() -> (r: Vec<&'static str>)
    ensures
        r@ == ignored_files(),
{
    let r = vec![
        "Cargo.lock",
        "package-lock.json",
        "yarn.lock",
        "pnpm-lock.yaml",
        "composer.lock",
        "Gemfile.lock",
        "poetry.lock",
        "go.sum",
        "mix.lock",
        "pubspec.lock",
        "Cargo.toml.orig",
        ".cargo-lock",
    ];
    assert(r@ =~= ignored_files());
    r
}

/// The path components that are never scanned under (see `ignored_path_segments`).
pub fn ignored_segment_names() -> (r: Vec<&'static str>)
    ensures
        r@ == ignored_path_segments(),
{
    let r = vec![
        ".fingerprint",
        "incremental",
        "deps",
        ".cache",
    ];
    assert(r@ =~= ignored_path_segments());
    r
}

/// `x` is one of the names in `l`.
pub open spec fn listed(x: Seq<char>, l: Seq<&'static str>) -> bool {
    exists|i: int| 0 <= i < l.len() && (#[trigger] l[i])@ == x
}

/// Whether `x` is one of the names in `l` (see `listed`).
pub fn is_listed(x: &Vec<char>, l: &Vec<&'static str>) -> (b: bool)
    ensures
        b == listed(x@, l@),
{
    let s = string_of(x);
    let mut i: usize = 0;
    while i < l.len()
        invariant
            i <= l.len(),
            s@ == x@,
            forall|j: int| 0 <= j < i ==> (#[trigger] l@[j])@ != x@,
        decreases l.len() - i,
    {
        if str_eq(l[i], s.as_str()) {
            assert(l@[i as int]@ == x@);
            return true;
        }
        i += 1;
    }
    false
}

/// The extension of a file name as `Path::extension` gives it: what follows the last
/// dot, unless the name has no dot or its only dot is its first character.
pub open spec fn extension_of(name: Seq<char>) -> Option<Seq<char>> {
    let k = last_dot(name);
    if k <= 0 {
        None
    } else {
        Some(name.skip(k + 1))
    }
}

/// Position of the last `.` in `s`, or -1.
pub open spec fn last_dot(s: Seq<char>) -> int
    decreases s.len(),
{
    if s.len() == 0 {
        -1
    } else if s.last() == '.' {
        s.len() - 1
    } else {
        last_dot(s.drop_last())
    }
}

fn last_dot_of(s: &Vec<char>) -> (r: Option<usize>)
    ensures
        match r {
            Some(i) => i < s.len() && last_dot(s@) == i,
            None => last_dot(s@) == -1,
        },
{
    let mut k: usize = s.len();
    assert(s@.take(k as int) =~= s@);
    while k > 0
        invariant
            k <= s.len(),
            last_dot(s@) == last_dot(s@.take(k as int)),
        decreases k,
    {
        assert(s@.take(k as int).drop_last() =~= s@.take(k - 1));
        if s[k - 1] == '.' {
            return Some(k - 1);
        }
        k -= 1;
    }
    None
}

/// Whether the scanner leaves the file at `path` alone: a directory on its path is a
/// build or tool directory, a component of its path marks generated artifacts, its
/// name is that of a lock file, or its extension is that of a binary, media, archive
/// or compiler-generated file.
pub open spec fn skipped_path(path: Seq<char>) -> bool {
    let cs = split_seq(path, '/');
    let name = cs.last();
    ||| exists|i: int| 0 <= i < cs.len() - 1 && listed(#[trigger] cs[i], ignored_dirs())
    ||| exists|i: int| 0 <= i < cs.len() && listed(#[trigger] cs[i], ignored_path_segments())
    ||| listed(name, ignored_files())
    ||| (extension_of(name) matches Some(e) && listed(e, ignored_extensions()))
}

/// Whether the scanner leaves the file at `path` alone (see `skipped_path`).
pub fn skip_path(path: &str) -> (b: bool)
    ensures
        b == skipped_path(path@),
{
    let pc = crate::text::chars_of(path);
    let cs = split_chars(&pc, '/');
    let ghost cv = cs@.map_values(|c: Vec<char>| c@);
    assert(cv.len() == cs.len());
    assert(cs.len() >= 1);
    let dirs = ignored_dir_names();
    let segs = ignored_segment_names();
    let mut i: usize = 0;
    while i < cs.len()
        invariant
            i <= cs.len(),
            cs.len() >= 1,
            cv == cs@.map_values(|c: Vec<char>| c@),
            cv == split_seq(path@, '/'),
            dirs@ == ignored_dirs(),
            segs@ == ignored_path_segments(),
            forall|j: int| 0 <= j < i && j < cv.len() - 1 ==> !listed(#[trigger] cv[j], ignored_dirs()),
            forall|j: int| 0 <= j < i ==> !listed(#[trigger] cv[j], ignored_path_segments()),
        decreases cs.len() - i,
    {
        assert(cv[i as int] == cs@[i as int]@);
        if i + 1 < cs.len() && is_listed(&cs[i], &dirs) {
            return true;
        }
        if is_listed(&cs[i], &segs) {
            return true;
        }
        i += 1;
    }
    let last = cs.len() - 1;
    assert(cv[last as int] == cs@[last as int]@);
    assert(cv.last() == cs@[last as int]@);
    let name = &cs[last];
    if is_listed(name, &ignored_file_names()) {
        return true;
    }
    match last_dot_of(name) {
        Some(k) => {
            if k == 0 {
                false
            } else {
                let mut e: Vec<char> = Vec::new();
                let mut j: usize = k + 1;
                while j < name.len()
                    invariant
                        k + 1 <= j <= name.len(),
                        e@ == name@.subrange(k + 1, j as int),
                    decreases name.len() - j,
                {
                    e.push(name[j]);
                    assert(e@ =~= name@.subrange(k + 1, j + 1));
                    j += 1;
                }
                assert(e@ =~= name@.skip(k + 1));
                is_listed(&e, &ignored_extension_names())
            }
        },
        None => false,
    }
}

/// Files larger than this many bytes are not scanned.
pub const MAX_FILE_SIZE: u64 = 2000000;

/// Whether a file of `size` bytes is too large to scan.
pub fn too_large(size: u64) -> (b: bool)
    ensures
        b == (size > MAX_FILE_SIZE),
{
    size > MAX_FILE_SIZE
}

/// Whether text read from a file holds a NUL character, the mark of a binary file,
/// which is not scanned.
pub fn looks_binary(content: &str) -> (b: bool)
    ensures
        b == content@.contains('\0'),
{
    let cs = crate::text::chars_of(content);
    let mut i: usize = 0;
    while i < cs.len()
        invariant
            i <= cs.len(),
            cs@ == content@,
            forall|j: int| 0 <= j < i ==> cs@[j] != '\0',
        decreases cs.len() - i,
    {
        if cs[i] == '\0' {
            assert(cs@[i as int] == '\0');
            return true;
        }
        i += 1;
    }
    false
}

} // verus!
