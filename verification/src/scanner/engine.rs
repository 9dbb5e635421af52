use vstd::prelude::*;
use vstd::utf8::encode_utf8;

use crate::scanner::report::{Finding, FindingView};
use crate::text::{
    chars_of, decimal, lines_chars, lines_seq, string_from, string_of, trim_end_chars,
    trim_end_seq, usize_text,
};

verus! {

// ─── Outside pieces: regular expressions and SHA-256 ─────────────────────────

#[verifier::external_type_specification]
#[verifier::external_body]
pub struct ExRegex(regex::Regex);

/// Whether `regex::Regex::new` accepts a pattern.
pub uninterp spec fn regex_compiles(source: Seq<char>) -> bool;

/// The byte offsets at which `find_iter` reports the successive matches of the regex
/// compiled from `source` in `text`.
pub uninterp spec fn regex_match_starts(source: Seq<char>, text: Seq<char>) -> Seq<usize>;

/// The SHA-256 digest of a byte string.
pub uninterp spec fn sha256_of(data: Seq<u8>) -> Seq<u8>;

/// `regex::Regex::new`: compiles a pattern, or fails on an invalid one. What it accepts
/// is named, not described.
#[verifier::external_body]
fn compile_regex(source: &str) -> (r: Option<regex::Regex>)
    ensures
        r is Some <==> regex_compiles(source@),
{
    regex::Regex::new(source).ok()
}

/// `Regex::find_iter` on a line, each match taken by `Match::start`. The regex is the one
/// compiled from the pattern's `source` (the only way a `SecretPattern` is made), and the
/// result is named after that source and the line. The crate documents a start as a byte
/// offset into the haystack, so each is at most the line's length in bytes.
#[verifier::external_body]
fn match_starts(p: &SecretPattern, line: &str) -> (r: Vec<usize>)
    ensures
        r@ == regex_match_starts(p.pattern(), line@),
        forall|i: int| 0 <= i < r.len() ==> #[trigger] r@[i] <= encode_utf8(line@).len(),
{
    p.regex.find_iter(line).map(|m| m.start()).collect()
}

/// `sha2::Sha256::digest`: the SHA-256 digest of `data`, which is 32 bytes long. The
/// digest itself is named, not described.
#[verifier::external_body]
fn sha256(data: &[u8]) -> (r: Vec<u8>)
    ensures
        r@ == sha256_of(data@),
        r.len() == 32,
{
    <sha2::Sha256 as sha2::Digest>::digest(data).to_vec()
}

// ─── Patterns ────────────────────────────────────────────────────────────────

/// A kind of secret and the regular expression that finds it.
pub struct SecretPattern {
    name: &'static str,
    /// The pattern the regex was compiled from.
    source: &'static str,
    regex: regex::Regex,
}

impl SecretPattern {
    /// The kind of secret.
    pub closed spec fn kind(&self) -> Seq<char> {
        self.name@
    }

    /// The pattern the regex was compiled from.
    pub closed spec fn pattern(&self) -> Seq<char> {
        self.source@
    }

    /// The kind of secret.
    pub fn name(&self) -> (r: &'static str)
        ensures
            r@ == self.kind(),
    {
        self.name
    }

    /// Compiles `source`; `None` if it is not a valid pattern.
    pub fn new(name: &'static str, source: &'static str) -> (r: Option<SecretPattern>)
        ensures
            r is Some <==> regex_compiles(source@),
            r is Some ==> r.unwrap().kind() == name@ && r.unwrap().pattern() == source@,
    {
        match compile_regex(source) {
            Some(regex) => Some(SecretPattern { name, source, regex }),
            None => None,
        }
    }
}

/// The names and patterns of the secrets the scanner looks for.
pub open spec fn pattern_table() -> Seq<(Seq<char>, Seq<char>)> {
    seq![
        ("AWS Access Key"@, "\\bAKIA[0-9A-Z]{16}\\b"@),
        (
            "AWS Secret Key"@,
            "(?i)(aws_secret_access_key|secret_access_key)\\s*[:=]\\s*['\"]?[A-Za-z0-9/+]{40}['\"]?"@,
        ),
        (
            "Generic API Key / Token"@,
            "(?i)\\b(api[_-]?key|token|secret|auth[_-]?key)\\b\\s*[:=]\\s*['\"]?[A-Za-z0-9_\\-]{16,}['\"]?"@,
        ),
        ("JWT Token"@, "\\beyJ[A-Za-z0-9_-]{10,}\\.[A-Za-z0-9_-]{10,}\\.[A-Za-z0-9_-]{10,}\\b"@),
        ("Private Key"@, "-----BEGIN (RSA|EC|OPENSSH|DSA) PRIVATE KEY-----"@),
        ("GitHub Token"@, "\\bghp_[A-Za-z0-9]{36}\\b"@),
        ("Stripe Secret Key"@, "\\bsk_live_[A-Za-z0-9]{24,}\\b"@),
    ]
}

/// The abstract value of a list of patterns: names and sources.
pub open spec fn patterns_view(ps: Seq<SecretPattern>) -> Seq<(Seq<char>, Seq<char>)> {
    ps.map_values(|p: SecretPattern| (p.kind(), p.pattern()))
}

/// The patterns that compile, in table order.
pub open spec fn compiled_table(t: Seq<(Seq<char>, Seq<char>)>) -> Seq<(Seq<char>, Seq<char>)>
    decreases t.len(),
{
    if t.len() == 0 {
        Seq::empty()
    } else {
        let r = compiled_table(t.drop_last());
        if regex_compiles(t.last().1) {
            r.push(t.last())
        } else {
            r
        }
    }
}

/// The secret patterns, compiled; a pattern that does not compile is left out.
pub fn patterns() -> (r: Vec<SecretPattern>)
    ensures
        patterns_view(r@) == compiled_table(pattern_table()),
{
    let mut table: Vec<(&'static str, &'static str)> = Vec::new();
    table.push(("AWS Access Key", "\\bAKIA[0-9A-Z]{16}\\b"));
    table.push(
        (
            "AWS Secret Key",
            "(?i)(aws_secret_access_key|secret_access_key)\\s*[:=]\\s*['\"]?[A-Za-z0-9/+]{40}['\"]?",
        ),
    );
    table.push(
        (
            "Generic API Key / Token",
            "(?i)\\b(api[_-]?key|token|secret|auth[_-]?key)\\b\\s*[:=]\\s*['\"]?[A-Za-z0-9_\\-]{16,}['\"]?",
        ),
    );
    table.push(("JWT Token", "\\beyJ[A-Za-z0-9_-]{10,}\\.[A-Za-z0-9_-]{10,}\\.[A-Za-z0-9_-]{10,}\\b"));
    table.push(("Private Key", "-----BEGIN (RSA|EC|OPENSSH|DSA) PRIVATE KEY-----"));
    table.push(("GitHub Token", "\\bghp_[A-Za-z0-9]{36}\\b"));
    table.push(("Stripe Secret Key", "\\bsk_live_[A-Za-z0-9]{24,}\\b"));
    let ghost tv = table@.map_values(|e: (&'static str, &'static str)| (e.0@, e.1@));
    assert(tv =~= pattern_table());
    let mut r: Vec<SecretPattern> = Vec::new();
    let mut i: usize = 0;
    while i < table.len()
        invariant
            i <= table.len(),
            tv == table@.map_values(|e: (&'static str, &'static str)| (e.0@, e.1@)),
            patterns_view(r@) == compiled_table(tv.take(i as int)),
        decreases table.len() - i,
    {
        assert(tv.take(i + 1).drop_last() =~= tv.take(i as int));
        let (name, source) = table[i];
        let ghost before = r@;
        match SecretPattern::new(name, source) {
            Some(p) => {
                r.push(p);
                assert(patterns_view(r@) =~= patterns_view(before).push((name@, source@)));
            },
            None => {},
        }
        i += 1;
    }
    assert(tv.take(table.len() as int) =~= tv);
    r
}

// ─── Fingerprints ────────────────────────────────────────────────────────────

/// The lowercase hex digit for a value below 16.
pub open spec fn hex_digit(d: u8) -> char {
    if d < 10 {
        (('0' as u8) + d) as char
    } else {
        (('a' as u8) + d - 10) as char
    }
}

/// Bytes in lowercase hex, two digits each.
pub open spec fn hex_text(bytes: Seq<u8>) -> Seq<char>
    decreases bytes.len(),
{
    if bytes.len() == 0 {
        Seq::empty()
    } else {
        hex_text(bytes.drop_last()) + seq![hex_digit(bytes.last() / 16), hex_digit(bytes.last() % 16)]
    }
}

fn hex_char(d: u8) -> (c: char)
    requires
        d < 16,
    ensures
        c == hex_digit(d),
{
    if d < 10 {
        (('0' as u8) + d) as char
    } else {
        (('a' as u8) + d - 10) as char
    }
}

/// Bytes in lowercase hex (see `hex_text`).
pub fn hex_lower(bytes: &Vec<u8>) -> (r: String)
    ensures
        r@ == hex_text(bytes@),
{
    let mut cs: Vec<char> = Vec::new();
    let mut i: usize = 0;
    while i < bytes.len()
        invariant
            i <= bytes.len(),
            cs@ == hex_text(bytes@.take(i as int)),
        decreases bytes.len() - i,
    {
        assert(bytes@.take(i + 1).drop_last() =~= bytes@.take(i as int));
        let b = bytes[i];
        cs.push(hex_char(b / 16));
        cs.push(hex_char(b % 16));
        assert(cs@ =~= hex_text(bytes@.take(i + 1)));
        i += 1;
    }
    assert(bytes@.take(bytes.len() as int) =~= bytes@);
    string_of(&cs)
}

/// The bytes that a finding's fingerprint hashes: the file, the line number, the line and
/// the kind of secret, one after another.
pub open spec fn fingerprint_input(file: Seq<char>, line: nat, content: Seq<char>, kind: Seq<char>) -> Seq<u8> {
    encode_utf8(file) + encode_utf8(decimal(line)) + encode_utf8(content) + encode_utf8(kind)
}

/// The fingerprint of a finding: the SHA-256 of its identifying text, in lowercase hex.
pub open spec fn fingerprint_of(file: Seq<char>, line: nat, content: Seq<char>, kind: Seq<char>) -> Seq<char> {
    hex_text(sha256_of(fingerprint_input(file, line, content, kind)))
}

/// Appends the UTF-8 bytes of `s`.
fn push_bytes(v: &mut Vec<u8>, s: &str)
    ensures
        final(v)@ == old(v)@ + encode_utf8(s@),
{
    let b = s.as_bytes();
    let mut i: usize = 0;
    while i < b.len()
        invariant
            i <= b.len(),
            b@ == encode_utf8(s@),
            v@ == old(v)@ + b@.take(i as int),
        decreases b.len() - i,
    {
        v.push(b[i]);
        assert(old(v)@ + b@.take(i + 1) =~= (old(v)@ + b@.take(i as int)).push(b@[i as int]));
        i += 1;
    }
    assert(b@.take(b.len() as int) =~= b@);
}

/// The fingerprint of a finding (see `fingerprint_of`).
pub fn generate_fingerprint(file: &str, line: usize, content: &str, secret_type: &str) -> (r: String)
    ensures
        r@ == fingerprint_of(file@, line as nat, content@, secret_type@),
{
    let mut data: Vec<u8> = Vec::new();
    push_bytes(&mut data, file);
    push_bytes(&mut data, usize_text(line).as_str());
    push_bytes(&mut data, content);
    push_bytes(&mut data, secret_type);
    assert(data@ =~= fingerprint_input(file@, line as nat, content@, secret_type@));
    let digest = sha256(data.as_slice());
    hex_lower(&digest)
}


// ─── Scanning a file's text ──────────────────────────────────────────────────

/// The finding for a match of a pattern of kind `kind` starting at byte `start` of line
/// `idx` (counted from 0).
pub open spec fn match_finding(file: Seq<char>, idx: nat, line: Seq<char>, kind: Seq<char>, start: usize) -> FindingView {
    FindingView {
        secret_type: kind,
        file,
        line: (idx + 1) as usize,
        column: (start + 1) as usize,
        content: trim_end_seq(line),
        fingerprint: fingerprint_of(file, idx + 1, line, kind),
        commit: None,
    }
}

/// The findings of one pattern on a line, in match order.
pub open spec fn pattern_findings(file: Seq<char>, idx: nat, line: Seq<char>, p: SecretPattern) -> Seq<FindingView> {
    regex_match_starts(p.pattern(), line).map_values(|s: usize| match_finding(file, idx, line, p.kind(), s))
}

/// The findings of all patterns on a line, pattern by pattern.
pub open spec fn line_findings(file: Seq<char>, idx: nat, line: Seq<char>, ps: Seq<SecretPattern>) -> Seq<FindingView>
    decreases ps.len(),
{
    if ps.len() == 0 {
        Seq::empty()
    } else {
        line_findings(file, idx, line, ps.drop_last()) + pattern_findings(file, idx, line, ps.last())
    }
}

/// A line that fits the column arithmetic: shorter than `usize::MAX` bytes (every line
/// held in memory is).
pub open spec fn scannable(line: Seq<char>) -> bool {
    encode_utf8(line).len() < usize::MAX
}

/// The findings of the lines, line by line.
pub open spec fn lines_findings(file: Seq<char>, lines: Seq<Seq<char>>, ps: Seq<SecretPattern>) -> Seq<FindingView>
    decreases lines.len(),
{
    if lines.len() == 0 {
        Seq::empty()
    } else {
        let idx = (lines.len() - 1) as nat;
        lines_findings(file, lines.drop_last(), ps) + if scannable(lines.last()) {
            line_findings(file, idx, lines.last(), ps)
        } else {
            Seq::empty()
        }
    }
}

/// The findings in a file's text: none for binary-looking text (it holds a NUL),
/// otherwise every match of every pattern on every line.
pub open spec fn text_findings(file: Seq<char>, content: Seq<char>, ps: Seq<SecretPattern>) -> Seq<FindingView> {
    if content.contains('\0') {
        Seq::empty()
    } else {
        lines_findings(file, lines_seq(content), ps)
    }
}

/// The findings of all patterns on one line.
fn scan_line(file: &str, idx: usize, line: &str, ps: &Vec<SecretPattern>) -> (r: Vec<Finding>)
    requires
        idx < usize::MAX,
        scannable(line@),
    ensures
        r@.map_values(|f: Finding| f@) == line_findings(file@, idx as nat, line@, ps@),
{
    let mut r: Vec<Finding> = Vec::new();
    let mut k: usize = 0;
    let trimmed = string_of(&trim_end_chars(&chars_of(line)));
    while k < ps.len()
        invariant
            k <= ps.len(),
            idx < usize::MAX,
            scannable(line@),
            trimmed@ == trim_end_seq(line@),
            r@.map_values(|f: Finding| f@) == line_findings(file@, idx as nat, line@, ps@.take(k as int)),
        decreases ps.len() - k,
    {
        assert(ps@.take(k + 1).drop_last() =~= ps@.take(k as int));
        let p = &ps[k];
        let starts = match_starts(p, line);
        let ghost base = r@.map_values(|f: Finding| f@);
        let mut j: usize = 0;
        while j < starts.len()
            invariant
                j <= starts.len(),
                idx < usize::MAX,
                scannable(line@),
                trimmed@ == trim_end_seq(line@),
                starts@ == regex_match_starts(p.pattern(), line@),
                forall|i: int| 0 <= i < starts.len() ==> #[trigger] starts@[i] <= encode_utf8(line@).len(),
                r@.map_values(|f: Finding| f@) == base + starts@.take(j as int).map_values(
                    |s: usize| match_finding(file@, idx as nat, line@, p.kind(), s),
                ),
            decreases starts.len() - j,
        {
            let s = starts[j];
            assert(s <= encode_utf8(line@).len());
            let f = Finding {
                secret_type: string_from(p.name()),
                file: string_from(file),
                line: idx + 1,
                column: s + 1,
                content: trimmed.clone(),
                fingerprint: generate_fingerprint(file, idx + 1, line, p.name()),
                commit: None,
            };
            let ghost before = r@.map_values(|f: Finding| f@);
            r.push(f);
            assert(r@.map_values(|f: Finding| f@) =~= before.push(f@));
            assert(starts@.take(j + 1).map_values(
                |s: usize| match_finding(file@, idx as nat, line@, p.kind(), s),
            ) =~= starts@.take(j as int).map_values(
                |s: usize| match_finding(file@, idx as nat, line@, p.kind(), s),
            ).push(match_finding(file@, idx as nat, line@, p.kind(), s)));
            j += 1;
        }
        assert(starts@.take(starts.len() as int) =~= starts@);
        k += 1;
    }
    assert(ps@.take(ps.len() as int) =~= ps@);
    r
}

/// Appends `more` to `v`.
fn append_findings(v: &mut Vec<Finding>, more: Vec<Finding>)
    ensures
        final(v)@.map_values(|f: Finding| f@) == old(v)@.map_values(|f: Finding| f@) + more@.map_values(
            |f: Finding| f@,
        ),
{
    let mut more = more;
    let ghost m = more@;
    v.append(&mut more);
    assert(v@.map_values(|f: Finding| f@) =~= old(v)@.map_values(|f: Finding| f@) + m.map_values(
        |f: Finding| f@,
    ));
}

/// The findings in a file's text (see `text_findings`).
pub fn scan_content(file: &str, content: &str, ps: &Vec<SecretPattern>) -> (r: Vec<Finding>)
    ensures
        r@.map_values(|f: Finding| f@) == text_findings(file@, content@, ps@),
{
    let cs = chars_of(content);
    let mut i: usize = 0;
    while i < cs.len()
        invariant
            i <= cs.len(),
            cs@ == content@,
            forall|j: int| 0 <= j < i ==> cs@[j] != '\0',
        decreases cs.len() - i,
    {
        if cs[i] == '\0' {
            assert(content@.contains('\0')) by {
                assert(content@[i as int] == '\0');
            }
            return Vec::new();
        }
        i += 1;
    }
    let lines = lines_chars(&cs);
    let ghost lv = lines@.map_values(|l: Vec<char>| l@);
    let mut r: Vec<Finding> = Vec::new();
    let mut idx: usize = 0;
    assert(r@.map_values(|f: Finding| f@) =~= Seq::<FindingView>::empty());
    while idx < lines.len()
        invariant
            idx <= lines.len(),
            lv == lines@.map_values(|l: Vec<char>| l@),
            lv == lines_seq(content@),
            r@.map_values(|f: Finding| f@) == lines_findings(file@, lv.take(idx as int), ps@),
        decreases lines.len() - idx,
    {
        assert(lv.take(idx + 1).drop_last() =~= lv.take(idx as int));
        assert(lv[idx as int] == lines@[idx as int]@);
        let line = string_of(&lines[idx]);
        let n = line.as_str().as_bytes().len();
        let ghost before = r@.map_values(|f: Finding| f@);
        if n < usize::MAX {
            let found = scan_line(file, idx, line.as_str(), ps);
            append_findings(&mut r, found);
        } else {
            assert(before + Seq::<FindingView>::empty() =~= before);
        }
        idx += 1;
    }
    assert(lv.take(lines.len() as int) =~= lv);
    r
}

} // verus!
