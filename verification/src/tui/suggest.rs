use vstd::prelude::*;

use crate::text::{chars_eq, chars_of, contains_chars, contains_seq, is_whitespace, is_ws, lowercase_of, to_lowercase};
use crate::tui::commands::{command_list, commands, commands_view, Command};

verus! {

// ─── Edit distance ───────────────────────────────────────────────────────────

/// The smaller of two integers.
pub open spec fn min2(x: int, y: int) -> int {
    if x <= y {
        x
    } else {
        y
    }
}

/// Levenshtein distance: the fewest single-character insertions, deletions and
/// substitutions that turn `a` into `b`.
pub open spec fn lev(a: Seq<char>, b: Seq<char>) -> nat
    decreases a.len() + b.len(),
{
    if a.len() == 0 {
        b.len()
    } else if b.len() == 0 {
        a.len()
    } else if a.last() == b.last() {
        lev(a.drop_last(), b.drop_last())
    } else {
        (1 + min2(
            min2(lev(a.drop_last(), b) as int, lev(a, b.drop_last()) as int),
            lev(a.drop_last(), b.drop_last()) as int,
        )) as nat
    }
}

/// The distance is at most the length of the longer text.
pub proof fn lemma_lev_bound(a: Seq<char>, b: Seq<char>)
    ensures
        lev(a, b) <= a.len() || lev(a, b) <= b.len(),
        lev(a, b) <= a.len() + b.len(),
        a.len() <= b.len() ==> lev(a, b) <= b.len(),
        b.len() <= a.len() ==> lev(a, b) <= a.len(),
    decreases a.len() + b.len(),
{
    if a.len() > 0 && b.len() > 0 {
        lemma_lev_bound(a.drop_last(), b.drop_last());
        if a.last() != b.last() {
            lemma_lev_bound(a.drop_last(), b);
            lemma_lev_bound(a, b.drop_last());
        }
    }
}

/// A text is at distance 0 from itself, and only from itself.
pub proof fn law_lev_zero(a: Seq<char>, b: Seq<char>)
    ensures
        lev(a, a) == 0,
        lev(a, b) == 0 <==> a == b,
    decreases a.len() + b.len(),
{
    lemma_lev_self(a);
    if a.len() > 0 && b.len() > 0 {
        law_lev_zero(a.drop_last(), b.drop_last());
        if a.last() == b.last() && a.drop_last() == b.drop_last() {
            assert(a =~= a.drop_last().push(a.last()));
            assert(b =~= b.drop_last().push(b.last()));
        }
    } else if a.len() == 0 && b.len() == 0 {
        assert(a =~= b);
    }
}

proof fn lemma_lev_self(a: Seq<char>)
    ensures
        lev(a, a) == 0,
    decreases a.len(),
{
    if a.len() > 0 {
        lemma_lev_self(a.drop_last());
    }
}

/// The distance from `a` to `b` is the distance from `b` to `a`.
pub proof fn law_lev_symmetric(a: Seq<char>, b: Seq<char>)
    ensures
        lev(a, b) == lev(b, a),
    decreases a.len() + b.len(),
{
    if a.len() > 0 && b.len() > 0 {
        law_lev_symmetric(a.drop_last(), b.drop_last());
        if a.last() != b.last() {
            law_lev_symmetric(a.drop_last(), b);
            law_lev_symmetric(a, b.drop_last());
        }
    }
}

/// The Levenshtein distance between two texts, counted in characters.
pub fn levenshtein(a: &str, b: &str) -> (d: usize)
    ensures
        d == lev(a@, b@),
{
    let a = chars_of(a);
    let b = chars_of(b);
    let m = a.len();
    let n = b.len();
    // prev[k] is the distance between the first i characters of a and the first k of b.
    let mut prev: Vec<usize> = Vec::new();
    prev.push(0);
    let mut j: usize = 0;
    while j < n
        invariant
            j <= n,
            n == b.len(),
            prev.len() == j + 1,
            forall|k: int| 0 <= k <= j ==> prev@[k] == lev(a@.take(0), b@.take(k)),
        decreases n - j,
    {
        j += 1;
        prev.push(j);
    }
    let mut i: usize = 0;
    while i < m
        invariant
            i <= m,
            m == a.len(),
            n == b.len(),
            prev.len() == n + 1,
            forall|k: int| 0 <= k <= n ==> prev@[k] == lev(a@.take(i as int), b@.take(k)),
        decreases m - i,
    {
        let mut cur: Vec<usize> = Vec::new();
        cur.push(i + 1);
        let mut j: usize = 0;
        while j < n
            invariant
                i < m,
                j <= n,
                m == a.len(),
                n == b.len(),
                prev.len() == n + 1,
                cur.len() == j + 1,
                forall|k: int| 0 <= k <= n ==> prev@[k] == lev(a@.take(i as int), b@.take(k)),
                forall|k: int| 0 <= k <= j ==> cur@[k] == lev(a@.take(i + 1), b@.take(k)),
            decreases n - j,
        {
            let ghost ai = a@.take(i + 1);
            let ghost bj = b@.take(j + 1);
            assert(ai.drop_last() =~= a@.take(i as int));
            assert(bj.drop_last() =~= b@.take(j as int));
            let v = if a[i] == b[j] {
                prev[j]
            } else {
                proof {
                    lemma_lev_bound(a@.take(i as int), b@.take(j as int));
                }
                let x = prev[j + 1];
                let y = cur[j];
                let z = prev[j];
                let mut best = if x <= y {
                    x
                } else {
                    y
                };
                if z < best {
                    best = z;
                }
                1 + best
            };
            cur.push(v);
            j += 1;
        }
        prev = cur;
        i += 1;
    }
    assert(a@.take(m as int) =~= a@);
    assert(b@.take(n as int) =~= b@);
    prev[n]
}

// ─── Words ───────────────────────────────────────────────────────────────────

/// The text up to the first white space.
pub open spec fn take_word(s: Seq<char>) -> Seq<char>
    decreases s.len(),
{
    if s.len() == 0 || is_ws(s[0]) {
        Seq::empty()
    } else {
        seq![s[0]] + take_word(s.drop_first())
    }
}

/// The first white-space separated word, or nothing: what `split_whitespace().next()`
/// gives, with "" for none.
pub open spec fn first_word(s: Seq<char>) -> Seq<char>
    decreases s.len(),
{
    if s.len() == 0 {
        Seq::empty()
    } else if is_ws(s[0]) {
        first_word(s.drop_first())
    } else {
        take_word(s)
    }
}

/// The first white-space separated word of `s` (see `first_word`).
pub fn first_word_of(s: &Vec<char>) -> (r: Vec<char>)
    ensures
        r@ == first_word(s@),
{
    let mut i: usize = 0;
    assert(s@.skip(0) =~= s@);
    while i < s.len() && is_whitespace(s[i])
        invariant
            i <= s.len(),
            first_word(s@) == first_word(s@.skip(i as int)),
        decreases s.len() - i,
    {
        assert(s@.skip(i as int).drop_first() =~= s@.skip(i + 1));
        i += 1;
    }
    let ghost start = i as int;
    assert(first_word(s@) == take_word(s@.skip(start)));
    let mut r: Vec<char> = Vec::new();
    assert(r@ + take_word(s@.skip(i as int)) =~= take_word(s@.skip(i as int)));
    while i < s.len() && !is_whitespace(s[i])
        invariant
            start <= i <= s.len(),
            take_word(s@.skip(start)) == r@ + take_word(s@.skip(i as int)),
        decreases s.len() - i,
    {
        assert(s@.skip(i as int).drop_first() =~= s@.skip(i + 1));
        assert(s@.skip(i as int)[0] == s@[i as int]);
        r.push(s[i]);
        assert(r@ + take_word(s@.skip(i + 1)) =~= (r@.drop_last()) + (seq![s@[i as int]]
            + take_word(s@.skip(i + 1))));
        i += 1;
    }
    assert(take_word(s@.skip(i as int)) =~= Seq::<char>::empty());
    assert(r@ + Seq::<char>::empty() =~= r@);
    r
}


// ─── Command suggestions ─────────────────────────────────────────────────────

/// A command is suggested for the query typed after "/": the query is empty, or the
/// command's name contains it, or the lowercase description does.
pub open spec fn command_matches(c: (Seq<char>, Seq<char>), q: Seq<char>) -> bool {
    q.len() == 0 || contains_seq(c.0, q) || contains_seq(lowercase_of(c.1), q)
}

/// The commands suggested for a query, in the order of the list.
pub open spec fn matching_commands(cs: Seq<(Seq<char>, Seq<char>)>, q: Seq<char>) -> Seq<
    (Seq<char>, Seq<char>),
>
    decreases cs.len(),
{
    if cs.len() == 0 {
        Seq::empty()
    } else {
        let r = matching_commands(cs.drop_last(), q);
        if command_matches(cs.last(), q) {
            r.push(cs.last())
        } else {
            r
        }
    }
}

/// The commands suggested for a query (see `command_matches`).
pub fn matching(query: &str) -> (r: Vec<Command>)
    ensures
        commands_view(r@) == matching_commands(command_list(), query@),
{
    let all = commands();
    let q = chars_of(query);
    let mut r: Vec<Command> = Vec::new();
    let mut i: usize = 0;
    while i < all.len()
        invariant
            i <= all.len(),
            q@ == query@,
            commands_view(all@) == command_list(),
            commands_view(r@) == matching_commands(commands_view(all@).take(i as int), query@),
        decreases all.len() - i,
    {
        let ghost cv = commands_view(all@);
        assert(cv.take(i + 1).drop_last() =~= cv.take(i as int));
        assert(cv[i as int] == (all@[i as int].name@, all@[i as int].description@));
        let c = all[i];
        let name = chars_of(c.name);
        let desc = chars_of(to_lowercase(c.description).as_str());
        let hit = q.len() == 0 || contains_chars(&name, &q) || contains_chars(&desc, &q);
        if hit {
            let ghost before = r@;
            r.push(c);
            assert(commands_view(r@) =~= commands_view(before).push(cv[i as int]));
        }
        i += 1;
    }
    assert(commands_view(all@).take(all.len() as int) =~= commands_view(all@));
    r
}

/// Position `i` holds the first command whose name is closest to `w`.
pub open spec fn is_first_closest(cs: Seq<(Seq<char>, Seq<char>)>, w: Seq<char>, i: int) -> bool {
    &&& 0 <= i < cs.len()
    &&& forall|j: int| 0 <= j < cs.len() ==> lev(cs[i].0, w) <= lev(#[trigger] cs[j].0, w)
    &&& forall|j: int| 0 <= j < i ==> lev(cs[i].0, w) < lev(#[trigger] cs[j].0, w)
}

/// The name of the first command closest to `w`.
pub open spec fn closest_name(w: Seq<char>) -> Seq<char> {
    command_list()[choose|i: int| is_first_closest(command_list(), w, i)].0
}

/// At most one position holds the first closest command.
proof fn lemma_first_closest_unique(cs: Seq<(Seq<char>, Seq<char>)>, w: Seq<char>, i: int, j: int)
    requires
        is_first_closest(cs, w, i),
        is_first_closest(cs, w, j),
    ensures
        i == j,
{
    if i < j {
        assert(lev(cs[j].0, w) < lev(cs[i].0, w));
        assert(lev(cs[i].0, w) <= lev(cs[j].0, w));
    } else if j < i {
        assert(lev(cs[i].0, w) < lev(cs[j].0, w));
        assert(lev(cs[j].0, w) <= lev(cs[i].0, w));
    }
}

/// The first command whose name is closest to `w` in edit distance.
pub fn closest_command(w: &str) -> (r: Command)
    ensures
        r.name@ == closest_name(w@),
{
    let all = commands();
    let ghost cv = commands_view(all@);
    assert(cv.len() == 20);
    assert(cv[0] == (all@[0].name@, all@[0].description@));
    let mut best: usize = 0;
    let mut best_d = levenshtein(all[0].name, w);
    let mut i: usize = 1;
    while i < all.len()
        invariant
            1 <= i <= all.len(),
            cv == commands_view(all@),
            cv == command_list(),
            best < i,
            best_d == lev(cv[best as int].0, w@),
            forall|j: int| 0 <= j < i ==> lev(cv[best as int].0, w@) <= lev(#[trigger] cv[j].0, w@),
            forall|j: int| 0 <= j < best ==> lev(cv[best as int].0, w@) < lev(#[trigger] cv[j].0, w@),
        decreases all.len() - i,
    {
        assert(cv[i as int] == (all@[i as int].name@, all@[i as int].description@));
        let d = levenshtein(all[i].name, w);
        if d < best_d {
            best = i;
            best_d = d;
        }
        i += 1;
    }
    assert(cv[best as int] == (all@[best as int].name@, all@[best as int].description@));
    assert(is_first_closest(cv, w@, best as int));
    proof {
        let c = choose|i: int| is_first_closest(command_list(), w@, i);
        lemma_first_closest_unique(command_list(), w@, c, best as int);
    }
    all[best]
}

/// Some command's name begins with the word `w`.
pub open spec fn is_known_command(w: Seq<char>) -> bool {
    exists|i: int| 0 <= i < command_list().len() && first_word(#[trigger] command_list()[i].0) == w
}

/// Whether some command's name begins with the word `w`.
pub fn known_command(w: &Vec<char>) -> (b: bool)
    ensures
        b == is_known_command(w@),
{
    let all = commands();
    let ghost cv = commands_view(all@);
    let mut i: usize = 0;
    while i < all.len()
        invariant
            i <= all.len(),
            cv == commands_view(all@),
            cv == command_list(),
            forall|j: int| 0 <= j < i ==> first_word(#[trigger] cv[j].0) != w@,
        decreases all.len() - i,
    {
        assert(cv[i as int] == (all@[i as int].name@, all@[i as int].description@));
        let root = first_word_of(&chars_of(all[i].name));
        if chars_eq(&root, w) {
            assert(first_word(cv[i as int].0) == w@);
            return true;
        }
        i += 1;
    }
    false
}

} // verus!
