//! What the main screen shows, as styled lines: the output history in framed boxes,
//! the command line, the suggestion list and the spinner bar.

use vstd::prelude::*;

use crate::text::{
    chars_of, decimal, lines_chars, lines_seq, pad_chars, pad_to, push_str, string_from, string_of,
    trim, trim_seq, usize_text,
};
use crate::tui::app::{outputs_view, OutputBlock, OutputKind};
use crate::tui::commands::{commands_view, Command};
use crate::tui::pages::{empty_v, plain_v, LineV, SpanV};
use crate::tui::planner_panels::{
    after_cursor, blank, bold_span, bold_span_of, bold_v, fg_span, fg_span_of, fg_v, four, one,
    raw_span, rgb, split_at_cursor, three, two, under_cursor, white_c,
};
use crate::tui::styled::{lines_view, Rgb, StyledLine, StyledSpan};

verus! {

/// What the output history holds: kind and text of each block.
pub type BlockV = (OutputKind, Seq<char>);

// ── Colours ─────────────────────────────────────────────────────────────────
/// The frame of a command's box.
pub open spec fn session_border_c() -> Rgb {
    Rgb { r: 55, g: 50, b: 80 }
}

/// The frame of a box that holds no command.
pub open spec fn solo_border_c() -> Rgb {
    Rgb { r: 45, g: 45, b: 65 }
}

/// The prompt mark.
pub open spec fn prompt_c() -> Rgb {
    Rgb { r: 160, g: 120, b: 220 }
}

pub open spec fn command_text_c() -> Rgb {
    Rgb { r: 220, g: 215, b: 255 }
}

pub open spec fn no_output_c() -> Rgb {
    Rgb { r: 60, g: 60, b: 80 }
}

// ── One block's lines ───────────────────────────────────────────────────────
/// The mark before the first line of a block.
pub open spec fn kind_mark(k: OutputKind) -> Seq<char> {
    match k {
        OutputKind::Command => "> "@,
        OutputKind::Success => "✔ "@,
        OutputKind::Error => "✖ "@,
        OutputKind::Info => "◆ "@,
    }
}

/// The colour of that mark.
pub open spec fn kind_mark_c(k: OutputKind) -> Rgb {
    match k {
        OutputKind::Command => Rgb { r: 160, g: 120, b: 220 },
        OutputKind::Success => Rgb { r: 100, g: 220, b: 120 },
        OutputKind::Error => Rgb { r: 220, g: 80, b: 80 },
        OutputKind::Info => Rgb { r: 120, g: 170, b: 255 },
    }
}

/// A line of a block's text in the block's style.
pub open spec fn kind_text_v(k: OutputKind, text: Seq<char>) -> SpanV {
    match k {
        OutputKind::Command => bold_v(text, Rgb { r: 200, g: 200, b: 210 }),
        OutputKind::Success => fg_v(text, Rgb { r: 160, g: 230, b: 170 }),
        OutputKind::Error => fg_v(text, Rgb { r: 230, g: 100, b: 100 }),
        OutputKind::Info => fg_v(text, Rgb { r: 150, g: 190, b: 240 }),
    }
}

/// A line of a block inside a frame of colour `border`: the frame's side, the mark on
/// the first line (two blanks on the others) and the text.
pub open spec fn content_line_v(k: OutputKind, line: Seq<char>, first: bool, border: Rgb) -> LineV {
    seq![
        fg_v("│ "@, border),
        if first {
            bold_v(kind_mark(k), kind_mark_c(k))
        } else {
            plain_v("  "@)
        },
        kind_text_v(k, line),
    ]
}

/// The lines of a block's text inside a frame of colour `border`.
pub open spec fn block_body_v(b: BlockV, border: Rgb) -> Seq<LineV> {
    Seq::new(
        lines_seq(b.1).len(),
        |i: int| content_line_v(b.0, lines_seq(b.1)[i], i == 0, border),
    )
}

// ── Boxes ───────────────────────────────────────────────────────────────────
/// `n` horizontal rule characters.
pub open spec fn rule_v(n: nat) -> Seq<char> {
    Seq::new(n, |i: int| '─')
}

/// The lines of the answers to a command, one block after the other.
pub open spec fn bodies_v(rs: Seq<BlockV>) -> Seq<LineV>
    decreases rs.len(),
{
    if rs.len() == 0 {
        Seq::empty()
    } else {
        bodies_v(rs.drop_last()) + block_body_v(rs.last(), session_border_c())
    }
}

/// The box of a command and the blocks that answer it: the command in the top edge, the
/// answers inside (or a note that there are none) and a bottom edge.
pub open spec fn session_v(cmd: BlockV, rs: Seq<BlockV>) -> Seq<LineV> {
    let b = session_border_c();
    seq![
        seq![
            fg_v("╭"@, b),
            fg_v("─ "@, b),
            bold_v("> "@, prompt_c()),
            bold_v(trim_seq(cmd.1), command_text_c()),
            fg_v(" ──"@, b),
            fg_v("╮"@, b),
        ],
    ] + (if rs.len() == 0 {
        seq![seq![fg_v("│"@, b), fg_v("  no output"@, no_output_c())]]
    } else {
        bodies_v(rs)
    }) + seq![seq![fg_v("╰"@, b), fg_v(rule_v(30), b), fg_v("╯"@, b)]]
}

/// The box of a block that follows no command.
pub open spec fn standalone_v(blk: BlockV) -> Seq<LineV> {
    let b = solo_border_c();
    seq![seq![fg_v("╭"@, b), fg_v("──"@, b), fg_v("╮"@, b)]] + block_body_v(blk, b) + seq![
        seq![fg_v("╰"@, b), fg_v("──"@, b), fg_v("╯"@, b)],
    ]
}

/// The index of the first command block at or after `k`, or the number of blocks.
pub open spec fn next_command(bs: Seq<BlockV>, k: nat) -> nat
    decreases bs.len() - k,
{
    if k >= bs.len() {
        bs.len()
    } else if bs[k as int].0 == OutputKind::Command {
        k
    } else {
        next_command(bs, k + 1)
    }
}

/// The lines of the output history from block `i` on: each command with the blocks up to
/// the next command in one box, each other block in a box of its own, and a blank line
/// after each box.
pub open spec fn output_lines_from(bs: Seq<BlockV>, i: nat) -> Seq<LineV>
    decreases bs.len() - i,
{
    if i >= bs.len() {
        Seq::empty()
    } else if bs[i as int].0 == OutputKind::Command {
        let j = next_command(bs, i + 1);
        if j <= i || j > bs.len() {
            Seq::empty()
        } else {
            session_v(bs[i as int], bs.subrange(i + 1int, j as int)) + seq![empty_v()]
                + output_lines_from(bs, j)
        }
    } else {
        standalone_v(bs[i as int]) + seq![empty_v()] + output_lines_from(bs, i + 1)
    }
}

/// The lines of the whole output history (see `output_lines_from`).
pub open spec fn output_lines_v(bs: Seq<BlockV>) -> Seq<LineV> {
    output_lines_from(bs, 0)
}

proof fn lemma_next_command_after(bs: Seq<BlockV>, k: nat)
    ensures
        k <= next_command(bs, k) || k > bs.len(),
        next_command(bs, k) <= bs.len(),
    decreases bs.len() - k,
{
    if k < bs.len() && bs[k as int].0 != OutputKind::Command {
        lemma_next_command_after(bs, k + 1);
    }
}

proof fn lemma_next_command_is(bs: Seq<BlockV>, k: nat, j: nat)
    requires
        k <= j <= bs.len(),
        forall|m: int| k <= m < j ==> bs[m].0 != OutputKind::Command,
        j == bs.len() || bs[j as int].0 == OutputKind::Command,
    ensures
        next_command(bs, k) == j,
    decreases j - k,
{
    if k < j {
        lemma_next_command_is(bs, k + 1, j);
    }
}

fn kind_mark_span(k: OutputKind) -> (s: StyledSpan)
    ensures
        s@ == bold_v(kind_mark(k), kind_mark_c(k)),
{
    match k {
        OutputKind::Command => bold_span("> ", rgb(160, 120, 220)),
        OutputKind::Success => bold_span("✔ ", rgb(100, 220, 120)),
        OutputKind::Error => bold_span("✖ ", rgb(220, 80, 80)),
        OutputKind::Info => bold_span("◆ ", rgb(120, 170, 255)),
    }
}

fn kind_text_span(k: OutputKind, text: String) -> (s: StyledSpan)
    ensures
        s@ == kind_text_v(k, text@),
{
    match k {
        OutputKind::Command => bold_span_of(text, rgb(200, 200, 210)),
        OutputKind::Success => fg_span_of(text, rgb(160, 230, 170)),
        OutputKind::Error => fg_span_of(text, rgb(230, 100, 100)),
        OutputKind::Info => fg_span_of(text, rgb(150, 190, 240)),
    }
}

/// Appends the lines of a block's text inside a frame of colour `border`.
fn push_block_body(r: &mut Vec<StyledLine>, b: &OutputBlock, border: Rgb)
    ensures
        lines_view(final(r)@) == lines_view(old(r)@) + block_body_v((b.kind, b.content@), border),
{
    let ls = lines_chars(&chars_of(b.content.as_str()));
    let ghost lsv = ls@.map_values(|l: Vec<char>| l@);
    let ghost start = lines_view(r@);
    let ghost body = block_body_v((b.kind, b.content@), border);
    let mut i: usize = 0;
    while i < ls.len()
        invariant
            i <= ls.len(),
            lsv == ls@.map_values(|l: Vec<char>| l@),
            lsv == lines_seq(b.content@),
            body == block_body_v((b.kind, b.content@), border),
            lines_view(r@) =~= start + body.take(i as int),
        decreases ls.len() - i,
    {
        let mark = if i == 0 {
            kind_mark_span(b.kind)
        } else {
            raw_span("  ")
        };
        let side = fg_span("│ ", border);
        let text = kind_text_span(b.kind, string_of(&ls[i]));
        let line = three(side, mark, text);
        assert(lsv[i as int] == ls@[i as int]@);
        assert(line@ == body[i as int]);
        let ghost prev = r@;
        r.push(line);
        assert(lines_view(r@) =~= lines_view(prev).push(line@));
        assert(body.take(i + 1) =~= body.take(i as int).push(body[i as int]));
        i += 1;
    }
    assert(body.take(ls.len() as int) =~= body);
}

/// A run of `n` rule characters.
fn rule(n: usize) -> (r: String)
    ensures
        r@ == rule_v(n as nat),
{
    let mut cs: Vec<char> = Vec::new();
    let mut i: usize = 0;
    while i < n
        invariant
            i <= n,
            cs@ =~= rule_v(i as nat),
        decreases n - i,
    {
        cs.push('─');
        i += 1;
    }
    string_of(&cs)
}

/// The lines of the output history (see `output_lines_v`).
pub fn render_output_lines(blocks: &Vec<OutputBlock>) -> (r: Vec<StyledLine>)
    ensures
        lines_view(r@) == output_lines_v(outputs_view(blocks@)),
{
    let ghost bs = outputs_view(blocks@);
    let mut r: Vec<StyledLine> = Vec::new();
    let mut i: usize = 0;
    while i < blocks.len()
        invariant
            i <= blocks.len(),
            bs == outputs_view(blocks@),
            bs.len() == blocks.len(),
            lines_view(r@) + output_lines_from(bs, i as nat) =~= output_lines_v(bs),
        decreases blocks.len() - i,
    {
        let ghost before = lines_view(r@);
        assert(bs[i as int] == (blocks@[i as int].kind, blocks@[i as int].content@));
        if blocks[i].kind == OutputKind::Command {
            let b = rgb(55, 50, 80);
            let cmd_text = trim(blocks[i].content.as_str());
            let top = StyledLine {
                spans: vec![
                    fg_span("╭", b),
                    fg_span("─ ", b),
                    bold_span("> ", rgb(160, 120, 220)),
                    bold_span_of(cmd_text, rgb(220, 215, 255)),
                    fg_span(" ──", b),
                    fg_span("╮", b),
                ],
            };
            assert(top@ =~= seq![
                fg_v("╭"@, session_border_c()),
                fg_v("─ "@, session_border_c()),
                bold_v("> "@, prompt_c()),
                bold_v(trim_seq(bs[i as int].1), command_text_c()),
                fg_v(" ──"@, session_border_c()),
                fg_v("╮"@, session_border_c()),
            ]);
            let ghost top_v = top@;
            let ghost p0 = r@;
            r.push(top);
            assert(lines_view(r@) =~= lines_view(p0).push(top_v));
            let ghost after_top = lines_view(r@);
            let mut j: usize = i + 1;
            while j < blocks.len() && blocks[j].kind != OutputKind::Command
                invariant
                    i < j <= blocks.len(),
                    bs == outputs_view(blocks@),
                    bs.len() == blocks.len(),
                    b == session_border_c(),
                    forall|m: int| i + 1 <= m < j ==> bs[m].0 != OutputKind::Command,
                    lines_view(r@) =~= after_top + bodies_v(bs.subrange(i + 1, j as int)),
                decreases blocks.len() - j,
            {
                push_block_body(&mut r, &blocks[j], b);
                assert(bs[j as int] == (blocks@[j as int].kind, blocks@[j as int].content@));
                assert(bs.subrange(i + 1, j + 1).drop_last() =~= bs.subrange(i + 1, j as int));
                assert(bs.subrange(i + 1, j + 1).last() == bs[j as int]);
                j += 1;
            }
            proof {
                lemma_next_command_is(bs, (i + 1) as nat, j as nat);
            }
            let ghost rs = bs.subrange(i + 1, j as int);
            if j == i + 1 {
                let nl = two(fg_span("│", b), fg_span("  no output", rgb(60, 60, 80)));
                let ghost p1 = r@;
                r.push(nl);
                assert(lines_view(r@) =~= lines_view(p1).push(nl@));
                assert(rs.len() == 0);
                assert(bodies_v(rs) =~= Seq::<LineV>::empty());
                assert(lines_view(r@) =~= after_top + seq![seq![fg_v("│"@, session_border_c()), fg_v("  no output"@, no_output_c())]]);
            }
            let bottom = three(fg_span("╰", b), fg_span_of(rule(30), b), fg_span("╯", b));
            let bl = blank();
            let ghost p2 = r@;
            r.push(bottom);
            r.push(bl);
            assert(lines_view(r@) =~= lines_view(p2).push(bottom@).push(bl@));
            assert(lines_view(r@) =~= before + session_v(bs[i as int], rs) + seq![empty_v()]);
            assert(output_lines_from(bs, i as nat) =~= session_v(bs[i as int], rs)
                + seq![empty_v()] + output_lines_from(bs, j as nat));
            i = j;
        } else {
            let b = rgb(45, 45, 65);
            assert(b == solo_border_c());
            let top = three(fg_span("╭", b), fg_span("──", b), fg_span("╮", b));
            let ghost p0 = r@;
            r.push(top);
            assert(lines_view(r@) =~= lines_view(p0).push(top@));
            push_block_body(&mut r, &blocks[i], b);
            let bottom = three(fg_span("╰", b), fg_span("──", b), fg_span("╯", b));
            let bl = blank();
            let ghost p2 = r@;
            r.push(bottom);
            r.push(bl);
            assert(lines_view(r@) =~= lines_view(p2).push(bottom@).push(bl@));
            assert(lines_view(r@) =~= before + standalone_v(bs[i as int]) + seq![empty_v()]);
            i += 1;
        }
    }
    r
}

// ── The command line ────────────────────────────────────────────────────────
/// The command line: the prompt, then the input split at the cursor, or a hint when the
/// input is empty.
pub open spec fn input_line_v(input: Seq<char>, cursor: nat) -> LineV {
    if input.len() == 0 {
        seq![bold_v("> "@, prompt_c()), fg_v("Type your message or /command"@, Rgb { r: 80, g: 80, b: 90 })]
    } else {
        seq![
            bold_v("> "@, prompt_c()),
            fg_v(input.take(cursor as int), white_c()),
            fg_v(under_cursor(input, cursor), white_c()),
            fg_v(after_cursor(input, cursor), white_c()),
        ]
    }
}

/// The command line for an input and a cursor position in characters (see
/// `input_line_v`).
pub fn input_line(input: &str, cursor: usize) -> (l: StyledLine)
    requires
        cursor <= input@.len(),
    ensures
        l@ == input_line_v(input@, cursor as nat),
{
    let prompt = bold_span("> ", rgb(160, 120, 220));
    let cs = chars_of(input);
    if cs.len() == 0 {
        two(prompt, fg_span("Type your message or /command", rgb(80, 80, 90)))
    } else {
        let (before, under, after) = split_at_cursor(&cs, cursor);
        four(
            prompt,
            fg_span_of(string_of(&before), rgb(255, 255, 255)),
            fg_span_of(string_of(&under), rgb(255, 255, 255)),
            fg_span_of(string_of(&after), rgb(255, 255, 255)),
        )
    }
}

// ── The suggestion list ─────────────────────────────────────────────────────
/// The smaller of two numbers.
pub open spec fn min_nat(a: nat, b: nat) -> nat {
    if a < b {
        a
    } else {
        b
    }
}

/// The first suggestion shown: the list scrolls so that the selected one is the last of
/// the `shown` rows.
pub open spec fn suggestion_start(len: nat, selected: nat, shown: nat) -> nat {
    let vc = min_nat(shown, len);
    if selected >= vc {
        (selected - vc + 1) as nat
    } else {
        0
    }
}

/// The row of a suggestion: its name padded to 20 characters, bright when selected, then
/// its description.
pub open spec fn suggestion_row_v(c: (Seq<char>, Seq<char>), selected: bool) -> LineV {
    seq![
        if selected {
            bold_v("  "@ + pad_to(c.0, 20), Rgb { r: 180, g: 130, b: 255 })
        } else {
            fg_v("  "@ + pad_to(c.0, 20), Rgb { r: 160, g: 160, b: 175 })
        },
        fg_v(c.1, Rgb { r: 90, g: 90, b: 105 }),
    ]
}

/// One past the last suggestion shown.
pub open spec fn suggestion_end(len: nat, selected: nat, shown: nat) -> nat {
    min_nat(suggestion_start(len, selected, shown) + min_nat(shown, len), len)
}

/// The lines of the suggestion list: at most `shown` rows, and a line telling how far
/// the list goes when it holds more than that.
pub open spec fn suggestion_lines_v(cs: Seq<(Seq<char>, Seq<char>)>, selected: nat, shown: nat) -> Seq<LineV> {
    let start = suggestion_start(cs.len(), selected, shown);
    let end = suggestion_end(cs.len(), selected, shown);
    let rows = if start <= end {
        Seq::new((end - start) as nat, |k: int| suggestion_row_v(cs[start + k], start + k == selected))
    } else {
        Seq::empty()
    };
    if cs.len() > min_nat(shown, cs.len()) {
        rows.push(
            seq![
                fg_v(
                    "  ▼  ("@ + decimal(end) + "/"@ + decimal(cs.len()) + ")"@,
                    Rgb { r: 80, g: 80, b: 90 },
                ),
            ],
        )
    } else {
        rows
    }
}

/// The lines of the suggestion list (see `suggestion_lines_v`).
pub fn suggestion_lines(commands: &Vec<Command>, selected: usize, shown: usize) -> (r: Vec<StyledLine>)
    requires
        selected < usize::MAX,
    ensures
        lines_view(r@) == suggestion_lines_v(commands_view(commands@), selected as nat, shown as nat),
{
    let ghost cs = commands_view(commands@);
    let len = commands.len();
    let vc = if shown < len {
        shown
    } else {
        len
    };
    let start = if selected >= vc {
        selected - vc + 1
    } else {
        0
    };
    let end = if start + vc < len {
        start + vc
    } else {
        len
    };
    assert(start == suggestion_start(cs.len(), selected as nat, shown as nat));
    assert(end == suggestion_end(cs.len(), selected as nat, shown as nat));
    let mut r: Vec<StyledLine> = Vec::new();
    if start <= end {
        let mut i: usize = start;
        while i < end
            invariant
                start <= i <= end <= len,
                len == commands.len(),
                cs == commands_view(commands@),
                r@.len() == i - start,
                forall|k: int|
                    0 <= k < i - start ==> #[trigger] r@[k]@ == suggestion_row_v(
                        cs[start + k],
                        start + k == selected,
                    ),
            decreases end - i,
        {
            let c = &commands[i];
            let mut name = chars_of("  ");
            crate::text::append_chars(&mut name, &pad_chars(&chars_of(c.name), 20));
            let name_span = if i == selected {
                bold_span_of(string_of(&name), rgb(180, 130, 255))
            } else {
                fg_span_of(string_of(&name), rgb(160, 160, 175))
            };
            let row = two(name_span, fg_span(c.description, rgb(90, 90, 105)));
            assert(cs[i as int] == (commands@[i as int].name@, commands@[i as int].description@));
            assert(row@ == suggestion_row_v(cs[i as int], i == selected));
            r.push(row);
            i += 1;
        }
    }
    if len > vc {
        let mut t = string_from("  ▼  (");
        push_str(&mut t, usize_text(end).as_str());
        push_str(&mut t, "/");
        push_str(&mut t, usize_text(len).as_str());
        push_str(&mut t, ")");
        let ghost prev = r@;
        let hint = one(fg_span_of(t, rgb(80, 80, 90)));
        r.push(hint);
        assert(lines_view(r@) =~= lines_view(prev).push(hint@));
    }
    assert(lines_view(r@) =~= suggestion_lines_v(cs, selected as nat, shown as nat));
    r
}

// ── The spinner bar ─────────────────────────────────────────────────────────
/// The frames of the spinner.
pub open spec fn spinner_frames() -> Seq<Seq<char>> {
    seq!["⠋"@, "⠙"@, "⠹"@, "⠸"@, "⠼"@, "⠴"@, "⠦"@, "⠧"@, "⠇"@, "⠏"@]
}

/// The spinner bar at a frame count: the frame (counted round the ten frames), then
/// "Executing...".
pub open spec fn spinner_line_v(frame: nat) -> LineV {
    seq![
        bold_v(" "@ + spinner_frames()[(frame % 10) as int] + " "@, Rgb { r: 0, g: 220, b: 120 }),
        bold_v("Executing"@, white_c()),
        fg_v("..."@, Rgb { r: 200, g: 200, b: 200 }),
    ]
}

/// The spinner bar at a frame count (see `spinner_line_v`).
pub fn spinner_line(frame: usize) -> (l: StyledLine)
    ensures
        l@ == spinner_line_v(frame as nat),
{
    let f = match frame % 10 {
        0 => "⠋",
        1 => "⠙",
        2 => "⠹",
        3 => "⠸",
        4 => "⠼",
        5 => "⠴",
        6 => "⠦",
        7 => "⠧",
        8 => "⠇",
        _ => "⠏",
    };
    let mut t = string_from(" ");
    push_str(&mut t, f);
    push_str(&mut t, " ");
    three(
        bold_span_of(t, rgb(0, 220, 120)),
        bold_span("Executing", rgb(255, 255, 255)),
        fg_span("...", rgb(200, 200, 200)),
    )
}

} // verus!
