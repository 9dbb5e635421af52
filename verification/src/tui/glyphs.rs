use vstd::prelude::*;

use crate::text::{chars_of, push_str, to_uppercase, uppercase_of};

verus! {

// ─── Block letters ───────────────────────────────────────────────────────────

/// The five rows, each five cells wide, that draw a character in block letters.
/// Digits, capital letters, `-` and space have their own glyph; anything else is drawn
/// as a colon.
pub open spec fn glyph(c: char) -> Seq<Seq<char>> {
    match c {
        '0' => seq!["█████"@, "█   █"@, "█   █"@, "█   █"@, "█████"@],
        '1' => seq!["  ██ "@, "   █ "@, "   █ "@, "   █ "@, "█████"@],
        '2' => seq!["█████"@, "    █"@, "█████"@, "█    "@, "█████"@],
        '3' => seq!["█████"@, "    █"@, " ████"@, "    █"@, "█████"@],
        '4' => seq!["█   █"@, "█   █"@, "█████"@, "    █"@, "    █"@],
        '5' => seq!["█████"@, "█    "@, "█████"@, "    █"@, "█████"@],
        '6' => seq!["█████"@, "█    "@, "█████"@, "█   █"@, "█████"@],
        '7' => seq!["█████"@, "    █"@, "   █ "@, "  █  "@, "  █  "@],
        '8' => seq!["█████"@, "█   █"@, "█████"@, "█   █"@, "█████"@],
        '9' => seq!["█████"@, "█   █"@, "█████"@, "    █"@, "█████"@],
        'A' => seq![" ███ "@, "█   █"@, "█████"@, "█   █"@, "█   █"@],
        'B' => seq!["████ "@, "█   █"@, "████ "@, "█   █"@, "████ "@],
        'C' => seq!["█████"@, "█    "@, "█    "@, "█    "@, "█████"@],
        'D' => seq!["████ "@, "█   █"@, "█   █"@, "█   █"@, "████ "@],
        'E' => seq!["█████"@, "█    "@, "████ "@, "█    "@, "█████"@],
        'F' => seq!["█████"@, "█    "@, "████ "@, "█    "@, "█    "@],
        'G' => seq!["█████"@, "█    "@, "█  ██"@, "█   █"@, "█████"@],
        'H' => seq!["█   █"@, "█   █"@, "█████"@, "█   █"@, "█   █"@],
        'I' => seq!["█████"@, "  █  "@, "  █  "@, "  █  "@, "█████"@],
        'J' => seq!["█████"@, "    █"@, "    █"@, "█   █"@, " ████"@],
        'K' => seq!["█   █"@, "█  █ "@, "███  "@, "█  █ "@, "█   █"@],
        'L' => seq!["█    "@, "█    "@, "█    "@, "█    "@, "█████"@],
        'M' => seq!["█   █"@, "██ ██"@, "█ █ █"@, "█   █"@, "█   █"@],
        'N' => seq!["█   █"@, "██  █"@, "█ █ █"@, "█  ██"@, "█   █"@],
        'O' => seq![" ███ "@, "█   █"@, "█   █"@, "█   █"@, " ███ "@],
        'P' => seq!["████ "@, "█   █"@, "████ "@, "█    "@, "█    "@],
        'Q' => seq![" ███ "@, "█   █"@, "█ █ █"@, "█  ██"@, " ████"@],
        'R' => seq!["████ "@, "█   █"@, "████ "@, "█  █ "@, "█   █"@],
        'S' => seq!["█████"@, "█    "@, "█████"@, "    █"@, "█████"@],
        'T' => seq!["█████"@, "  █  "@, "  █  "@, "  █  "@, "  █  "@],
        'U' => seq!["█   █"@, "█   █"@, "█   █"@, "█   █"@, "█████"@],
        'V' => seq!["█   █"@, "█   █"@, "█   █"@, " █ █ "@, "  █  "@],
        'W' => seq!["█   █"@, "█   █"@, "█ █ █"@, "██ ██"@, "█   █"@],
        'X' => seq!["█   █"@, " █ █ "@, "  █  "@, " █ █ "@, "█   █"@],
        'Y' => seq!["█   █"@, " █ █ "@, "  █  "@, "  █  "@, "  █  "@],
        'Z' => seq!["█████"@, "   █ "@, "  █  "@, " █   "@, "█████"@],
        '-' => seq!["     "@, "     "@, "█████"@, "     "@, "     "@],
        ' ' => seq!["     "@, "     "@, "     "@, "     "@, "     "@],
        _ => seq!["     "@, "  █  "@, "     "@, "  █  "@, "     "@],
    }
}

/// The block-letter glyph of a character (see `glyph`).
pub fn big_char(c: char) -> (g: [&'static str; 5])
    ensures
        forall|i: int| 0 <= i < 5 ==> #[trigger] g@[i]@ == glyph(c)[i],
{
    let g: [&'static str; 5] = match c {
        '0' => ["█████", "█   █", "█   █", "█   █", "█████"],
        '1' => ["  ██ ", "   █ ", "   █ ", "   █ ", "█████"],
        '2' => ["█████", "    █", "█████", "█    ", "█████"],
        '3' => ["█████", "    █", " ████", "    █", "█████"],
        '4' => ["█   █", "█   █", "█████", "    █", "    █"],
        '5' => ["█████", "█    ", "█████", "    █", "█████"],
        '6' => ["█████", "█    ", "█████", "█   █", "█████"],
        '7' => ["█████", "    █", "   █ ", "  █  ", "  █  "],
        '8' => ["█████", "█   █", "█████", "█   █", "█████"],
        '9' => ["█████", "█   █", "█████", "    █", "█████"],
        'A' => [" ███ ", "█   █", "█████", "█   █", "█   █"],
        'B' => ["████ ", "█   █", "████ ", "█   █", "████ "],
        'C' => ["█████", "█    ", "█    ", "█    ", "█████"],
        'D' => ["████ ", "█   █", "█   █", "█   █", "████ "],
        'E' => ["█████", "█    ", "████ ", "█    ", "█████"],
        'F' => ["█████", "█    ", "████ ", "█    ", "█    "],
        'G' => ["█████", "█    ", "█  ██", "█   █", "█████"],
        'H' => ["█   █", "█   █", "█████", "█   █", "█   █"],
        'I' => ["█████", "  █  ", "  █  ", "  █  ", "█████"],
        'J' => ["█████", "    █", "    █", "█   █", " ████"],
        'K' => ["█   █", "█  █ ", "███  ", "█  █ ", "█   █"],
        'L' => ["█    ", "█    ", "█    ", "█    ", "█████"],
        'M' => ["█   █", "██ ██", "█ █ █", "█   █", "█   █"],
        'N' => ["█   █", "██  █", "█ █ █", "█  ██", "█   █"],
        'O' => [" ███ ", "█   █", "█   █", "█   █", " ███ "],
        'P' => ["████ ", "█   █", "████ ", "█    ", "█    "],
        'Q' => [" ███ ", "█   █", "█ █ █", "█  ██", " ████"],
        'R' => ["████ ", "█   █", "████ ", "█  █ ", "█   █"],
        'S' => ["█████", "█    ", "█████", "    █", "█████"],
        'T' => ["█████", "  █  ", "  █  ", "  █  ", "  █  "],
        'U' => ["█   █", "█   █", "█   █", "█   █", "█████"],
        'V' => ["█   █", "█   █", "█   █", " █ █ ", "  █  "],
        'W' => ["█   █", "█   █", "█ █ █", "██ ██", "█   █"],
        'X' => ["█   █", " █ █ ", "  █  ", " █ █ ", "█   █"],
        'Y' => ["█   █", " █ █ ", "  █  ", "  █  ", "  █  "],
        'Z' => ["█████", "   █ ", "  █  ", " █   ", "█████"],
        '-' => ["     ", "     ", "█████", "     ", "     "],
        ' ' => ["     ", "     ", "     ", "     ", "     "],
        _ => ["     ", "  █  ", "     ", "  █  ", "     "],
    };
    g
}

/// Row `row` of a text drawn in block letters: the glyph rows of its characters,
/// separated by one space.
pub open spec fn big_row(cs: Seq<char>, row: int) -> Seq<char>
    decreases cs.len(),
{
    if cs.len() == 0 {
        Seq::empty()
    } else if cs.len() == 1 {
        glyph(cs[0])[row]
    } else {
        big_row(cs.drop_last(), row) + seq![' '] + glyph(cs.last())[row]
    }
}

/// A text in block letters, in capitals: five rows.
pub fn render_big_text(text: &str) -> (rows: Vec<String>)
    ensures
        rows.len() == 5,
        forall|r: int| 0 <= r < 5 ==> #[trigger] rows@[r]@ == big_row(uppercase_of(text@), r),
{
    let up = to_uppercase(text);
    let chars = chars_of(up.as_str());
    let mut rows: Vec<String> = Vec::new();
    let mut k: usize = 0;
    while k < 5
        invariant
            k <= 5,
            rows.len() == k,
            forall|r: int| 0 <= r < k ==> #[trigger] rows@[r]@ == Seq::<char>::empty(),
        decreases 5 - k,
    {
        rows.push(String::new());
        k += 1;
    }
    let mut i: usize = 0;
    while i < chars.len()
        invariant
            i <= chars.len(),
            chars@ == uppercase_of(text@),
            rows.len() == 5,
            forall|r: int| 0 <= r < 5 ==> #[trigger] rows@[r]@ == big_row(chars@.take(i as int), r),
        decreases chars.len() - i,
    {
        let glyph_rows = big_char(chars[i]);
        let mut row: usize = 0;
        while row < 5
            invariant
                i < chars.len(),
                row <= 5,
                rows.len() == 5,
                forall|r: int| 0 <= r < row ==> #[trigger] rows@[r]@ == big_row(chars@.take(i + 1), r),
                forall|r: int| row <= r < 5 ==> #[trigger] rows@[r]@ == big_row(chars@.take(i as int), r),
                forall|r: int| 0 <= r < 5 ==> #[trigger] glyph_rows@[r]@ == glyph(chars@[i as int])[r],
            decreases 5 - row,
        {
            let ghost before = rows@[row as int]@;
            let mut s = String::new();
            std::mem::swap(&mut s, &mut rows[row]);
            if i > 0 {
                push_str(&mut s, " ");
            }
            push_str(&mut s, glyph_rows[row]);
            rows.set(row, s);
            proof {
                let t = chars@.take(i + 1);
                assert(t.drop_last() =~= chars@.take(i as int));
                assert(t.last() == chars@[i as int]);
                assert(" "@ =~= seq![' ']) by {
                    reveal_strlit(" ");
                }
                if i == 0 {
                    assert(t =~= seq![chars@[0]]);
                    assert(Seq::<char>::empty() + glyph_rows@[row as int]@ =~= glyph_rows@[row as int]@);
                }
            }
            row += 1;
        }
        i += 1;
    }
    assert(chars@.take(chars.len() as int) =~= chars@);
    rows
}

// ─── Logo ────────────────────────────────────────────────────────────────────

/// The rows of the GitLink logo.
pub fn logo_rows() -> (rows: Vec<&'static str>)
    ensures
        rows.len() == 10,
{
    let mut rows: Vec<&'static str> = Vec::new();
    rows.push("       .    ▒▒▒▒▒▒▒▒▒▒▒   ▒▒▒▒▒  ▒▒▒▒▒▒▒▒▒▒▒ ▒▒▒▒▒     . ▒▒▒▒▒ ▒▒▒▒▒▒   ▒▒▒▒ ▒▒▒▒▒  ▒▒▒▒▒ + ▒▒▒▒▒▒▒▒▒▒. ");
    rows.push("  .        ▒▒█████████▒▒  ████▒  ██████████▒ ████▒       ████▒ █████▒   ███▒ ████▒  ████▒  .█████████▒ *");
    rows.push("      +    ▒███▒▒▒▒▒▒▒▒   ████▒  ▒▒▒████▒▒▒▒ ████▒ *     ████▒ ██████▒  ███▒ ████▒ ████▒▒          ▒███▒");
    rows.push("  .        ▒███▒          ████▒     ████▒    ████▒       ████▒ ████▒██▒ ███▒ █████████▒▒       *   ▒███▒");
    rows.push("        *  ▒███▒   █████▒ ████▒     ████▒    ████▒  +    ████▒ ████▒▒██▒███▒ ████▒▒████▒  .     ▒██████▒");
    rows.push("   .       ▒███▒   ▒▒███▒ ████▒     ████▒    ████▒       ████▒ ████▒ ▒█████▒ ████▒ ▒████▒          ▒███▒");
    rows.push("        .  ▒███▒    ███▒▒ ████▒     ████▒    ████▒       ████▒ ████▒  ▒████▒ ████▒  ▒████▒  ▒███▒  ▒███▒");
    rows.push("    +      ▒██████████▒▒  ████▒     ████▒    ██████████▒ ████▒ ████▒   ▒███▒ ████▒   ▒████▒ ▒██████████▒ ");
    rows.push("  .        ▒▒▒▒▒▒▒▒▒▒▒▒▒  ▒▒▒▒▒     ▒▒▒▒▒    ▒▒▒▒▒▒▒▒▒▒▒ ▒▒▒▒▒ ▒▒▒▒▒   ▒▒▒▒▒ ▒▒▒▒▒   ▒▒▒▒▒▒ ▒▒▒▒▒▒▒▒▒▒▒▒");
    rows.push("        .           * .                      .           +         .         ");
    rows
}

/// Height of the logo, in rows.
pub fn logo_height() -> (h: u16)
    ensures
        h == 10,
{
    let rows = logo_rows();
    rows.len() as u16
}

} // verus!
