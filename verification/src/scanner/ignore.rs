use vstd::prelude::*;

use crate::text::{
    byte_prefix, chars_of, cut_ok, lines_chars, lines_seq, prefix_bytes, push_str, str_eq, string_from,
    string_of, trim_chars, trim_seq,
};

verus! {

/// A finding that the user chose to ignore permanently.
#[derive(Debug, Clone)]
pub struct IgnoredItem {
    pub fingerprint: String,
    pub short_id: String,
    pub variable: String,
    /// "working" or "history".
    pub source: String,
    /// The commit, for history findings.
    pub commit: Option<String>,
}

/// The abstract value of an ignored item.
pub struct IgnoredItemView {
    pub fingerprint: Seq<char>,
    pub short_id: Seq<char>,
    pub variable: Seq<char>,
    pub source: Seq<char>,
    pub commit: Option<Seq<char>>,
}

impl View for IgnoredItem {
    type V = IgnoredItemView;

    open spec fn view(&self) -> IgnoredItemView {
        IgnoredItemView {
            fingerprint: self.fingerprint@,
            short_id: self.short_id@,
            variable: self.variable@,
            source: self.source@,
            commit: self.commit.deep_view(),
        }
    }
}

/// The persistent list of ignored findings.
#[derive(Debug, Default)]
pub struct IgnoreDatabase {
    pub ignored: Vec<IgnoredItem>,
}

impl IgnoreDatabase {
    /// The ignored items, in stored order.
    pub open spec fn items(&self) -> Seq<IgnoredItemView> {
        self.ignored@.map_values(|i: IgnoredItem| i@)
    }
}

/// Some item has the given fingerprint.
pub open spec fn has_fingerprint(s: Seq<IgnoredItemView>, fp: Seq<char>) -> bool {
    exists|i: int| 0 <= i < s.len() && #[trigger] s[i].fingerprint == fp
}

/// The items whose short id differs from `id`, in the original order.
pub open spec fn without_short_id(s: Seq<IgnoredItemView>, id: Seq<char>) -> Seq<IgnoredItemView>
    decreases s.len(),
{
    if s.len() == 0 {
        s
    } else {
        let r = without_short_id(s.drop_last(), id);
        if s.last().short_id == id {
            r
        } else {
            r.push(s.last())
        }
    }
}

/// An empty database.
pub fn empty_database() -> (db: IgnoreDatabase)
    ensures
        db.items() == Seq::<IgnoredItemView>::empty(),
{
    let db = IgnoreDatabase { ignored: Vec::new() };
    assert(db.items() =~= Seq::<IgnoredItemView>::empty());
    db
}

/// Adds an item unless one with the same fingerprint is already there.
/// Returns whether it was added (and the database must be saved).
pub fn add_ignored(db: &mut IgnoreDatabase, item: IgnoredItem) -> (added: bool)
    ensures
        added == !has_fingerprint(old(db).items(), item@.fingerprint),
        added ==> final(db).items() == old(db).items().push(item@),
        !added ==> final(db).items() == old(db).items(),
{
    let mut i: usize = 0;
    while i < db.ignored.len()
        invariant
            i <= db.ignored.len(),
            db.items() == old(db).items(),
            forall|j: int| 0 <= j < i ==> db.items()[j].fingerprint != item@.fingerprint,
        decreases db.ignored.len() - i,
    {
        if db.ignored[i].fingerprint == item.fingerprint {
            assert(db.items()[i as int].fingerprint == item@.fingerprint);
            return false;
        }
        i += 1;
    }
    let ghost v = item@;
    db.ignored.push(item);
    assert(db.items() =~= old(db).items().push(v));
    true
}

/// Removes every item with the given short id.
pub fn remove_by_short_id(db: &mut IgnoreDatabase, short_id: &str)
    ensures
        final(db).items() == without_short_id(old(db).items(), short_id@),
{
    let ghost orig = db.items();
    let mut kept: Vec<IgnoredItem> = Vec::new();
    let mut i: usize = 0;
    while i < db.ignored.len()
        invariant
            i <= db.ignored.len(),
            orig == db.items(),
            kept@.map_values(|x: IgnoredItem| x@) == without_short_id(orig.take(i as int), short_id@),
        decreases db.ignored.len() - i,
    {
        assert(orig.take(i + 1).drop_last() =~= orig.take(i as int));
        if !str_eq(db.ignored[i].short_id.as_str(), short_id) {
            let it = db.ignored[i].clone_item();
            let ghost before = kept@;
            kept.push(it);
            assert(kept@.map_values(|x: IgnoredItem| x@) =~= before.map_values(
                |x: IgnoredItem| x@,
            ).push(orig[i as int]));
        }
        i += 1;
    }
    assert(orig.take(db.ignored.len() as int) =~= orig);
    db.ignored = kept;
}

/// Empties the database.
pub fn clear_all_silent(db: &mut IgnoreDatabase)
    ensures
        final(db).items() == Seq::<IgnoredItemView>::empty(),
{
    db.ignored.clear();
    assert(db.items() =~= Seq::<IgnoredItemView>::empty());
}

impl IgnoredItem {
    /// A copy with the same abstract value.
    pub fn clone_item(&self) -> (r: IgnoredItem)
        ensures
            r@ == self@,
    {
        IgnoredItem {
            fingerprint: self.fingerprint.clone(),
            short_id: self.short_id.clone(),
            variable: self.variable.clone(),
            source: self.source.clone(),
            commit: crate::text::clone_opt_string(&self.commit),
        }
    }
}

/// Shortening a history commit to 8 bytes does not split a character.
pub open spec fn listable(i: IgnoredItemView) -> bool {
    i.source == "history"@ && i.commit is Some ==> cut_ok(i.commit->0, 8)
}

/// Where an ignored finding came from, as the list shows it.
pub open spec fn source_info(i: IgnoredItemView) -> Seq<char> {
    if i.source == "history"@ {
        match i.commit {
            Some(c) => "(commit "@ + byte_prefix(c, 8) + ")"@,
            None => "(history)"@,
        }
    } else {
        "(working)"@
    }
}

/// One line of the list of ignored findings.
pub open spec fn ignored_line(i: IgnoredItemView) -> Seq<char> {
    "  ["@ + i.short_id + "] "@ + i.variable + " "@ + source_info(i) + "\n"@
}

/// The lines of the list, in order.
pub open spec fn ignored_lines(s: Seq<IgnoredItemView>) -> Seq<char>
    decreases s.len(),
{
    if s.len() == 0 {
        Seq::empty()
    } else {
        ignored_lines(s.drop_last()) + ignored_line(s.last())
    }
}

/// The text that lists the ignored findings.
pub open spec fn ignored_list_text(s: Seq<IgnoredItemView>) -> Seq<char> {
    if s.len() == 0 {
        "No ignored findings."@
    } else {
        "Ignored findings:\n\n"@ + ignored_lines(s)
    }
}

fn push_source_info(out: &mut String, item: &IgnoredItem)
    requires
        listable(item@),
    ensures
        final(out)@ == old(out)@ + source_info(item@),
{
    if str_eq(item.source.as_str(), "history") {
        match &item.commit {
            Some(c) => {
                push_str(out, "(commit ");
                let p = prefix_bytes(c.as_str(), 8);
                push_str(out, p.as_str());
                push_str(out, ")");
            },
            None => {
                push_str(out, "(history)");
            },
        }
    } else {
        push_str(out, "(working)");
    }
}

/// Formats the ignored findings for display.
pub fn get_ignored_list_string(db: &IgnoreDatabase) -> (r: String)
    requires
        forall|i: int| 0 <= i < db.items().len() ==> listable(#[trigger] db.items()[i]),
    ensures
        r@ == ignored_list_text(db.items()),
{
    if db.ignored.len() == 0 {
        return string_from("No ignored findings.");
    }
    let mut out = string_from("Ignored findings:\n\n");
    let mut i: usize = 0;
    let ghost items = db.items();
    while i < db.ignored.len()
        invariant
            i <= db.ignored.len(),
            items == db.items(),
            forall|j: int| 0 <= j < items.len() ==> listable(#[trigger] items[j]),
            out@ == "Ignored findings:\n\n"@ + ignored_lines(items.take(i as int)),
        decreases db.ignored.len() - i,
    {
        let item = &db.ignored[i];
        assert(items[i as int] == item@);
        assert(items.take(i + 1).drop_last() =~= items.take(i as int));
        push_str(&mut out, "  [");
        push_str(&mut out, item.short_id.as_str());
        push_str(&mut out, "] ");
        push_str(&mut out, item.variable.as_str());
        push_str(&mut out, " ");
        push_source_info(&mut out, item);
        push_str(&mut out, "\n");
        assert(out@ =~= "Ignored findings:\n\n"@ + ignored_lines(items.take(i + 1)));
        i += 1;
    }
    assert(items.take(db.ignored.len() as int) =~= items);
    out
}

// ─── Laws ────────────────────────────────────────────────────────────────────

/// Adding an item whose fingerprint is already ignored changes nothing; adding one whose
/// fingerprint is new makes it ignored.
pub proof fn law_add_ignored_dedup(s: Seq<IgnoredItemView>, item: IgnoredItemView)
    ensures
        has_fingerprint(s, item.fingerprint) || has_fingerprint(s.push(item), item.fingerprint),
        has_fingerprint(s.push(item), item.fingerprint),
{
    assert(s.push(item)[s.len() as int].fingerprint == item.fingerprint);
}

/// No two items share a fingerprint.
pub open spec fn unique_fingerprints(s: Seq<IgnoredItemView>) -> bool {
    forall|i: int, j: int| 0 <= i < j < s.len() ==> s[i].fingerprint != s[j].fingerprint
}

/// Adding through `add_ignored` keeps fingerprints unique.
pub proof fn law_add_keeps_unique(s: Seq<IgnoredItemView>, item: IgnoredItemView)
    requires
        unique_fingerprints(s),
    ensures
        unique_fingerprints(
            if has_fingerprint(s, item.fingerprint) {
                s
            } else {
                s.push(item)
            },
        ),
{
    if !has_fingerprint(s, item.fingerprint) {
        assert forall|i: int, j: int| 0 <= i < j < s.push(item).len() implies s.push(item)[i].fingerprint
            != s.push(item)[j].fingerprint by {
            if j == s.len() {
                assert(s[i].fingerprint != item.fingerprint);
            }
        }
    }
}

proof fn lemma_without_short_id(s: Seq<IgnoredItemView>, id: Seq<char>)
    ensures
        forall|k: int| 0 <= k < without_short_id(s, id).len() ==> #[trigger] without_short_id(
            s,
            id,
        )[k].short_id != id,
        without_short_id(s, id).len() <= s.len(),
    decreases s.len(),
{
    if s.len() > 0 {
        lemma_without_short_id(s.drop_last(), id);
    }
}

/// After removal by short id, no item with that short id is left.
pub proof fn law_removed_short_id_gone(s: Seq<IgnoredItemView>, id: Seq<char>)
    ensures
        forall|k: int| 0 <= k < without_short_id(s, id).len() ==> #[trigger] without_short_id(
            s,
            id,
        )[k].short_id != id,
{
    lemma_without_short_id(s, id);
}


// ─── The project's .gitignore ────────────────────────────────────────────────

/// What the project's `.gitignore` should hold so that neither the ignore database
/// nor build output, lock files and binaries get committed: the database file, the
/// ignored directories, the ignored files, then a pattern for each ignored extension.
pub open spec fn gitignore_entries() -> Seq<&'static str> {
    seq![
        ".gitlinkignore.json",
        ".git",
        "target",
        "node_modules",
        ".idea",
        ".vscode",
        "dist",
        "build",
        "out",
        ".next",
        ".nuxt",
        ".cache",
        "__pycache__",
        ".venv",
        "venv",
        "env",
        ".mypy_cache",
        ".pytest_cache",
        "coverage",
        ".gradle",
        ".terraform",
        ".serverless",
        "Cargo.lock",
        "package-lock.json",
        "yarn.lock",
        "pnpm-lock.yaml",
        "*.exe",
        "*.dll",
        "*.so",
        "*.dylib",
        "*.bin",
        "*.o",
        "*.a",
        "*.class",
        "*.jar",
        "*.png",
        "*.jpg",
        "*.jpeg",
        "*.gif",
        "*.pdf",
        "*.zip",
        "*.tar",
        "*.gz",
    ]
}

fn gitignore_entry_list() -> (r: Vec<&'static str>)
    ensures
        r@ == gitignore_entries(),
{
    let r = vec![
        ".gitlinkignore.json",
        ".git",
        "target",
        "node_modules",
        ".idea",
        ".vscode",
        "dist",
        "build",
        "out",
        ".next",
        ".nuxt",
        ".cache",
        "__pycache__",
        ".venv",
        "venv",
        "env",
        ".mypy_cache",
        ".pytest_cache",
        "coverage",
        ".gradle",
        ".terraform",
        ".serverless",
        "Cargo.lock",
        "package-lock.json",
        "yarn.lock",
        "pnpm-lock.yaml",
        "*.exe",
        "*.dll",
        "*.so",
        "*.dylib",
        "*.bin",
        "*.o",
        "*.a",
        "*.class",
        "*.jar",
        "*.png",
        "*.jpg",
        "*.jpeg",
        "*.gif",
        "*.pdf",
        "*.zip",
        "*.tar",
        "*.gz",
    ];
    assert(r@ =~= gitignore_entries());
    r
}

/// The lines of a text, each without surrounding white space.
pub open spec fn trimmed_lines(content: Seq<char>) -> Seq<Seq<char>> {
    lines_seq(content).map_values(|l: Seq<char>| trim_seq(l))
}

/// The entries of `es` that are not among the lines `have`, in order.
pub open spec fn missing_entries(es: Seq<&'static str>, have: Seq<Seq<char>>) -> Seq<Seq<char>>
    decreases es.len(),
{
    if es.len() == 0 {
        Seq::empty()
    } else {
        let r = missing_entries(es.drop_last(), have);
        if have.contains(es.last()@) {
            r
        } else {
            r.push(es.last()@)
        }
    }
}

/// Each of the lines, followed by a line break.
pub open spec fn line_block(ms: Seq<Seq<char>>) -> Seq<char>
    decreases ms.len(),
{
    if ms.len() == 0 {
        Seq::empty()
    } else {
        line_block(ms.drop_last()) + ms.last() + "\n"@
    }
}

/// What to append to a `.gitignore` that holds `content`: a heading, then each entry it
/// lacks on a line of its own; nothing where it lacks none.
pub open spec fn gitignore_addition(content: Seq<char>) -> Option<Seq<char>> {
    let ms = missing_entries(gitignore_entries(), trimmed_lines(content));
    if ms.len() == 0 {
        None
    } else {
        Some("\n# GitLink Auto-Ignored Items\n"@ + line_block(ms))
    }
}

/// What to append to the project's `.gitignore`, given what it holds (empty where it
/// cannot be read); see `gitignore_addition`.
pub fn gitignore_entries_to_add(content: &str) -> (r: Option<String>)
    ensures
        match r {
            Some(t) => gitignore_addition(content@) == Some(t@),
            None => gitignore_addition(content@) is None,
        },
{
    let ls = lines_chars(&chars_of(content));
    let mut have: Vec<String> = Vec::new();
    let mut i: usize = 0;
    let ghost lv = ls@.map_values(|l: Vec<char>| l@);
    while i < ls.len()
        invariant
            i <= ls.len(),
            lv == ls@.map_values(|l: Vec<char>| l@),
            lv == lines_seq(content@),
            have@.map_values(|h: String| h@) =~= trimmed_lines(content@).take(i as int),
        decreases ls.len() - i,
    {
        assert(lv[i as int] == ls@[i as int]@);
        let t = string_of(&trim_chars(&ls[i]));
        let ghost before = have@;
        let ghost tv = t@;
        have.push(t);
        assert(have@.map_values(|h: String| h@) =~= before.map_values(|h: String| h@).push(tv));
        i += 1;
    }
    assert(trimmed_lines(content@).take(ls.len() as int) =~= trimmed_lines(content@));
    let ghost hv = have@.map_values(|h: String| h@);
    let es = gitignore_entry_list();
    let mut text = string_from("\n# GitLink Auto-Ignored Items\n");
    let ghost head = text@;
    let mut added: usize = 0;
    let mut k: usize = 0;
    assert(es@.take(0) =~= Seq::<&'static str>::empty());
    while k < es.len()
        invariant
            k <= es.len(),
            es@ == gitignore_entries(),
            hv == have@.map_values(|h: String| h@),
            hv == trimmed_lines(content@),
            added == missing_entries(es@.take(k as int), hv).len(),
            text@ == head + line_block(missing_entries(es@.take(k as int), hv)),
            added <= k,
        decreases es.len() - k,
    {
        assert(es@.take(k + 1).drop_last() =~= es@.take(k as int));
        let e = es[k];
        let mut present = false;
        let mut j: usize = 0;
        while j < have.len()
            invariant
                j <= have.len(),
                hv == have@.map_values(|h: String| h@),
                present == (exists|m: int| 0 <= m < j && hv[m] == e@),
            decreases have.len() - j,
        {
            if !present && str_eq(have[j].as_str(), e) {
                present = true;
            }
            assert(hv[j as int] == have@[j as int]@);
            j += 1;
        }
        assert(present == hv.contains(e@));
        let ghost old = missing_entries(es@.take(k as int), hv);
        assert(es@.take(k + 1).last() == e);
        if !present {
            push_str(&mut text, e);
            push_str(&mut text, "\n");
            added += 1;
            assert(missing_entries(es@.take(k + 1), hv) == old.push(e@));
            assert(old.push(e@).drop_last() =~= old);
            assert(text@ =~= head + line_block(old.push(e@)));
        }
        k += 1;
    }
    assert(es@.take(es.len() as int) =~= es@);
    if added == 0 {
        None
    } else {
        Some(text)
    }
}

} // verus!
