use vstd::prelude::*;

use crate::text::{
    char_count, chars_of, clear_string, cut_is_ok, insert_char, lowercase_of, push_str, remove_char,
    string_from, string_of, to_lowercase, trim, trim_seq,
};
use crate::tui::commands::{command_list, commands_view, Command};
use crate::planner::storage::TaskList;
use crate::planner::task::tasks_view;
use crate::scanner::ignore::IgnoredItem;
use crate::planner::history::HistoryView;
use crate::planner::task::Task;
use crate::scanner::report::Finding;
use crate::tui::styled::{Rgb, StyledLine};
use crate::tui::overlays::{
    auth_code_received, auth_show_result, ignore_items_reloaded, prp_commit_done, AuthStep,
    PrpStep, auth_overlay_tick, auth_tick_step, auth_step, ScanChoice, handle_auth_key, handle_ignore_key, handle_info_key, handle_prp_key,
    handle_scanner_key, ignore_key_ok, ignore_step, info_key_ok, info_step, prp_step,
    scanner_key_ok, scanner_step, AuthKeyOutcome, AuthOverlay, AuthRequest, IgnoreOverlay,
    IgnoreRequest, InfoOverlay, PrpCommitRequest, PrpKeyOutcome, PrpOverlay, ScannerOverlay,
};
use crate::tui::planner_overlay::{
    InputField, PlannerFocus, PlannerView, PlannerMode, handle_planner_key, planner_key_ok, planner_next, planner_wf, PlannerKeyOutcome,
    PlannerOverlay,
};
use crate::tui::keys::{KeyCode, KeyEvent};
use crate::tui::suggest::{
    closest_command, closest_name, first_word, first_word_of, is_known_command, known_command,
    matching, matching_commands,
};

verus! {

// ─── Output ──────────────────────────────────────────────────────────────────

/// The kind of an output block, which decides its colour.
#[derive(Debug, Clone, Copy, PartialEq, Eq, Structural)]
pub enum OutputKind {
    Success,
    Error,
    Info,
    Command,
}

/// One block of the output history.
#[derive(Debug, Clone)]
pub struct OutputBlock {
    pub kind: OutputKind,
    pub content: String,
}

/// The abstract value of an output history.
pub open spec fn outputs_view(s: Seq<OutputBlock>) -> Seq<(OutputKind, Seq<char>)> {
    s.map_values(|b: OutputBlock| (b.kind, b.content@))
}

// ─── The command line ────────────────────────────────────────────────────────

/// The abstract state of the command line and the output history.
pub struct LineView {
    pub input: Seq<char>,
    /// Cursor position in the input, in characters.
    pub cursor: usize,
    pub filtered: Seq<(Seq<char>, Seq<char>)>,
    pub selected: usize,
    pub show_suggestions: bool,
    pub outputs: Seq<(OutputKind, Seq<char>)>,
    /// Lines scrolled up from the bottom of the output.
    pub scroll: usize,
    pub executing: bool,
    pub spinning: bool,
    pub history: Seq<Seq<char>>,
    pub history_index: Option<usize>,
    pub pending: Option<Seq<char>>,
}

/// The suggestions after the input changed: the commands matching the lowercase text
/// after a leading "/", none otherwise.
pub open spec fn with_suggestions(v: LineView) -> LineView {
    if v.input.len() > 0 && v.input[0] == '/' {
        let f = matching_commands(command_list(), lowercase_of(v.input.drop_first()));
        LineView {
            filtered: f,
            show_suggestions: f.len() > 0,
            selected: if v.selected >= f.len() {
                0
            } else {
                v.selected
            },
            ..v
        }
    } else {
        LineView { filtered: Seq::empty(), show_suggestions: false, selected: 0, ..v }
    }
}

/// The selected suggestion taken into the input as "/name".
pub open spec fn with_suggestion_accepted(v: LineView) -> LineView {
    let name = v.filtered[v.selected as int].0;
    LineView {
        input: seq!['/'] + name,
        cursor: (name.len() + 1) as usize,
        show_suggestions: false,
        filtered: Seq::empty(),
        selected: 0,
        ..v
    }
}

/// The error shown for a line that is not a slash command.
pub open spec fn not_slash_text() -> Seq<char> {
    "Only slash commands are supported. Type / to see available commands."@
}

/// The error shown for an unknown command, with the closest command suggested.
pub open spec fn unknown_command_text(raw: Seq<char>, word: Seq<char>) -> Seq<char> {
    "Unknown command: "@ + raw + "."@ + " Did you mean /"@ + closest_name(word) + " ?"@
}

/// The line after Enter: a non-blank line is echoed and recorded in the history; a
/// known slash command then waits to be run, anything else gets an error.
pub open spec fn with_submitted(v: LineView) -> LineView {
    let raw = trim_seq(v.input);
    if raw.len() == 0 {
        v
    } else {
        let base = LineView {
            outputs: v.outputs.push((OutputKind::Command, raw)),
            history: v.history.push(raw),
            history_index: None,
            input: Seq::empty(),
            cursor: 0,
            show_suggestions: false,
            filtered: Seq::empty(),
            selected: 0,
            scroll: 0,
            ..v
        };
        if raw[0] != '/' {
            LineView { outputs: base.outputs.push((OutputKind::Error, not_slash_text())), ..base }
        } else {
            let word = first_word(raw.drop_first());
            if !is_known_command(word) {
                LineView {
                    outputs: base.outputs.push((OutputKind::Error, unknown_command_text(raw, word))),
                    ..base
                }
            } else {
                LineView { executing: true, spinning: true, pending: Some(raw), ..base }
            }
        }
    }
}

/// `x` kept within `lo..=hi`.
pub open spec fn clamp_int(x: int, lo: int, hi: int) -> int {
    if x < lo {
        lo
    } else if x > hi {
        hi
    } else {
        x
    }
}

/// The line after moving through the command history by `dir` (-1 older, 1 newer).
pub open spec fn with_history_step(v: LineView, dir: int) -> LineView {
    let len = v.history.len() as int;
    if len == 0 {
        v
    } else {
        let idx = match v.history_index {
            None => if dir < 0 {
                len - 1
            } else {
                0
            },
            Some(i) => clamp_int(i + dir, 0, len - 1),
        };
        with_suggestions(
            LineView {
                history_index: Some(idx as usize),
                input: v.history[idx],
                cursor: v.history[idx].len() as usize,
                ..v
            },
        )
    }
}

/// Suggestions are shown and there is at least one.
pub open spec fn suggesting(v: LineView) -> bool {
    v.show_suggestions && v.filtered.len() > 0
}

/// The command line after a key, and whether the key asks to quit.
pub open spec fn line_next(v: LineView, key: KeyEvent) -> (LineView, bool) {
    let k = key.code;
    if key.ctrl && (k == KeyCode::Char('c') || k == KeyCode::Char('q')) {
        (v, true)
    } else {
        (
            match k {
                KeyCode::Enter => if suggesting(v) {
                    with_suggestion_accepted(v)
                } else {
                    with_submitted(v)
                },
                KeyCode::Backspace => if v.cursor > 0 {
                    with_suggestions(
                        LineView {
                            input: v.input.remove(v.cursor - 1),
                            cursor: (v.cursor - 1) as usize,
                            ..v
                        },
                    )
                } else {
                    v
                },
                KeyCode::Left => if v.cursor > 0 {
                    LineView { cursor: (v.cursor - 1) as usize, ..v }
                } else {
                    v
                },
                KeyCode::Right => if v.cursor < v.input.len() {
                    LineView { cursor: (v.cursor + 1) as usize, ..v }
                } else {
                    v
                },
                KeyCode::Up => if suggesting(v) {
                    LineView {
                        selected: if v.selected > 0 {
                            (v.selected - 1) as usize
                        } else {
                            (v.filtered.len() - 1) as usize
                        },
                        ..v
                    }
                } else if v.input.len() == 0 {
                    LineView {
                        scroll: if v.scroll < usize::MAX {
                            (v.scroll + 1) as usize
                        } else {
                            v.scroll
                        },
                        ..v
                    }
                } else {
                    with_history_step(v, -1)
                },
                KeyCode::Down => if suggesting(v) {
                    LineView { selected: ((v.selected + 1) % (v.filtered.len() as int)) as usize, ..v }
                } else if v.input.len() == 0 {
                    LineView {
                        scroll: if v.scroll > 0 {
                            (v.scroll - 1) as usize
                        } else {
                            0
                        },
                        ..v
                    }
                } else {
                    with_history_step(v, 1)
                },
                KeyCode::PageUp => LineView {
                    scroll: if v.scroll <= usize::MAX - 5 {
                        (v.scroll + 5) as usize
                    } else {
                        usize::MAX
                    },
                    ..v
                },
                KeyCode::PageDown => LineView {
                    scroll: if v.scroll >= 5 {
                        (v.scroll - 5) as usize
                    } else {
                        0
                    },
                    ..v
                },
                KeyCode::Tab => if suggesting(v) {
                    with_suggestion_accepted(v)
                } else {
                    v
                },
                KeyCode::Char(c) => LineView {
                    history_index: None,
                    scroll: 0,
                    ..with_suggestions(
                        LineView {
                            input: v.input.insert(v.cursor as int, c),
                            cursor: (v.cursor + 1) as usize,
                            ..v
                        },
                    )
                },
                _ => v,
            },
            false,
        )
    }
}

/// The command line is consistent: the cursor lies within the input, a shown suggestion
/// is selected, and the history position is within the history.
pub open spec fn line_wf(v: LineView) -> bool {
    &&& v.cursor <= v.input.len()
    &&& v.filtered.len() > 0 ==> v.selected < v.filtered.len()
}

} // verus!

verus! {

// ─── The application ─────────────────────────────────────────────────────────

/// The overlay shown over the command line.
pub enum Overlay {
    Scanner(ScannerOverlay),
    Planner(PlannerOverlay),
    Ignore(IgnoreOverlay),
    Info(InfoOverlay),
    Auth(AuthOverlay),
    Prp(PrpOverlay),
}

/// The overlay is consistent.
pub open spec fn overlay_wf(o: Option<Overlay>) -> bool {
    match o {
        Some(Overlay::Planner(ov)) => planner_wf(ov@),
        Some(Overlay::Prp(ov)) => ov.wf(),
        _ => true,
    }
}

/// The state of the terminal application: the command line, the output history and an
/// optional overlay.
pub struct App {
    pub input: String,
    /// Cursor position in the input, in characters.
    pub cursor_pos: usize,
    pub filtered_commands: Vec<Command>,
    pub selected_index: usize,
    pub outputs: Vec<OutputBlock>,
    /// Lines scrolled up from the bottom of the output.
    pub output_scroll: usize,
    pub is_executing: bool,
    pub show_suggestions: bool,
    pub cmd_history: Vec<String>,
    pub history_index: Option<usize>,
    pub overlay: Option<Overlay>,
    pub needs_full_redraw: bool,
    /// A command is running and the spinner turns.
    pub spinning: bool,
    /// The command waiting to be run; `take_pending_command` hands it out.
    pub pending_command: Option<String>,
}

impl App {
    /// The command waiting to be run.
    pub open spec fn pending(&self) -> Option<Seq<char>> {
        match self.pending_command {
            Some(c) => Some(c@),
            None => None,
        }
    }

    /// The abstract state of the command line and the output history.
    pub open spec fn line(&self) -> LineView {
        LineView {
            input: self.input@,
            cursor: self.cursor_pos,
            filtered: commands_view(self.filtered_commands@),
            selected: self.selected_index,
            show_suggestions: self.show_suggestions,
            outputs: outputs_view(self.outputs@),
            scroll: self.output_scroll,
            executing: self.is_executing,
            spinning: self.spinning,
            history: self.cmd_history.deep_view(),
            history_index: self.history_index,
            pending: self.pending(),
        }
    }

    /// The application is consistent.
    pub open spec fn wf(&self) -> bool {
        line_wf(self.line()) && overlay_wf(self.overlay)
    }
}

/// The output block pushed, the spinner stopped and the output scrolled to the bottom.
pub open spec fn with_output(v: LineView, kind: OutputKind, text: Seq<char>) -> LineView {
    LineView {
        executing: false,
        spinning: false,
        outputs: v.outputs.push((kind, text)),
        scroll: 0,
        ..v
    }
}

/// The welcome message shown at start.
pub open spec fn welcome_text() -> Seq<char> {
    "Welcome to GitLink TUI. Type / to see available commands."@
}

/// The rest of a character vector after its first character.
fn tail_chars(cs: &Vec<char>) -> (r: Vec<char>)
    requires
        cs.len() > 0,
    ensures
        r@ == cs@.drop_first(),
{
    let mut r: Vec<char> = Vec::new();
    let mut i: usize = 1;
    while i < cs.len()
        invariant
            1 <= i <= cs.len(),
            r@ == cs@.subrange(1, i as int),
        decreases cs.len() - i,
    {
        r.push(cs[i]);
        assert(r@ =~= cs@.subrange(1, i + 1));
        i += 1;
    }
    assert(cs@.subrange(1, cs.len() as int) =~= cs@.drop_first());
    r
}

impl App {
    /// A fresh application with the welcome message shown.
    pub fn new() -> (app: App)
        ensures
            app.wf(),
            app.line() == (LineView {
                input: Seq::empty(),
                cursor: 0,
                filtered: Seq::empty(),
                selected: 0,
                show_suggestions: false,
                outputs: seq![(OutputKind::Info, welcome_text())],
                scroll: 0,
                executing: false,
                spinning: false,
                history: Seq::empty(),
                history_index: None,
                pending: None,
            }),
            app.overlay is None,
            !app.needs_full_redraw,
    {
        let mut app = App {
            input: String::new(),
            cursor_pos: 0,
            filtered_commands: Vec::new(),
            selected_index: 0,
            outputs: Vec::new(),
            output_scroll: 0,
            is_executing: false,
            show_suggestions: false,
            cmd_history: Vec::new(),
            history_index: None,
            overlay: None,
            needs_full_redraw: false,
            spinning: false,
            pending_command: None,
        };
        app.outputs.push(
            OutputBlock {
                kind: OutputKind::Info,
                content: string_from("Welcome to GitLink TUI. Type / to see available commands."),
            },
        );
        assert(app.line().outputs =~= seq![(OutputKind::Info, welcome_text())]);
        assert(app.line().filtered =~= Seq::<(Seq<char>, Seq<char>)>::empty());
        assert(app.line().history =~= Seq::<Seq<char>>::empty());
        app
    }

    /// Recomputes the suggestions from the input.
    fn update_suggestions(&mut self)
        ensures
            final(self).line() == with_suggestions(old(self).line()),
            final(self).overlay == old(self).overlay,
            final(self).needs_full_redraw == old(self).needs_full_redraw,
    {
        let cs = chars_of(self.input.as_str());
        if cs.len() > 0 && cs[0] == '/' {
            let rest = tail_chars(&cs);
            let query = to_lowercase(string_of(&rest).as_str());
            self.filtered_commands = matching(query.as_str());
            self.show_suggestions = self.filtered_commands.len() > 0;
            if self.selected_index >= self.filtered_commands.len() {
                self.selected_index = 0;
            }
        } else {
            self.show_suggestions = false;
            self.filtered_commands = Vec::new();
            self.selected_index = 0;
            assert(commands_view(self.filtered_commands@) =~= Seq::<(Seq<char>, Seq<char>)>::empty());
        }
    }

    /// Takes the selected suggestion into the input.
    fn accept_suggestion(&mut self)
        requires
            old(self).selected_index < old(self).filtered_commands.len(),
        ensures
            final(self).line() == with_suggestion_accepted(old(self).line()),
            final(self).overlay == old(self).overlay,
            final(self).needs_full_redraw == old(self).needs_full_redraw,
    {
        let ghost v = self.line();
        assert(commands_view(self.filtered_commands@)[self.selected_index as int] == (
            self.filtered_commands@[self.selected_index as int].name@,
            self.filtered_commands@[self.selected_index as int].description@,
        ));
        let name = self.filtered_commands[self.selected_index].name;
        let mut input = string_from("/");
        push_str(&mut input, name);
        assert("/"@ =~= seq!['/']) by {
            reveal_strlit("/");
        }
        self.cursor_pos = char_count(input.as_str());
        self.input = input;
        self.show_suggestions = false;
        self.filtered_commands = Vec::new();
        self.selected_index = 0;
        assert(commands_view(self.filtered_commands@) =~= Seq::<(Seq<char>, Seq<char>)>::empty());
        assert(self.line() =~= with_suggestion_accepted(v));
    }

    /// Pushes an output block, stops the spinner and scrolls to the bottom.
    pub fn push_output(&mut self, block: OutputBlock)
        ensures
            final(self).line() == with_output(old(self).line(), block.kind, block.content@),
            final(self).overlay == old(self).overlay,
            final(self).needs_full_redraw == old(self).needs_full_redraw,
    {
        let ghost v = self.line();
        let ghost b = (block.kind, block.content@);
        self.is_executing = false;
        self.spinning = false;
        self.outputs.push(block);
        self.output_scroll = 0;
        assert(outputs_view(self.outputs@) =~= v.outputs.push(b));
    }

    /// Takes the command waiting to be run, if any.
    pub fn take_pending_command(&mut self) -> (c: Option<String>)
        ensures
            match c {
                Some(s) => old(self).pending() == Some(s@),
                None => old(self).pending() is None,
            },
            final(self).line() == (LineView { pending: None, ..old(self).line() }),
            final(self).overlay == old(self).overlay,
            final(self).needs_full_redraw == old(self).needs_full_redraw,
    {
        let c = self.pending_command.take();
        c
    }
}


impl App {
    /// Runs the typed line (see `with_submitted`).
    fn submit(&mut self)
        ensures
            final(self).line() == with_submitted(old(self).line()),
            final(self).overlay == old(self).overlay,
            final(self).needs_full_redraw == old(self).needs_full_redraw,
    {
        let ghost v = self.line();
        let raw = trim(self.input.as_str());
        let rc = chars_of(raw.as_str());
        if rc.len() == 0 {
            return;
        }
        let ghost outs = outputs_view(self.outputs@);
        let ghost hist = self.cmd_history.deep_view();
        self.outputs.push(OutputBlock { kind: OutputKind::Command, content: raw.clone() });
        assert(outputs_view(self.outputs@) =~= outs.push((OutputKind::Command, raw@)));
        self.cmd_history.push(raw.clone());
        assert(self.cmd_history.deep_view() =~= hist.push(raw@));
        self.history_index = None;
        clear_string(&mut self.input);
        self.cursor_pos = 0;
        self.show_suggestions = false;
        self.filtered_commands = Vec::new();
        self.selected_index = 0;
        self.output_scroll = 0;
        assert(commands_view(self.filtered_commands@) =~= Seq::<(Seq<char>, Seq<char>)>::empty());
        let ghost base = self.line();
        if rc[0] != '/' {
            self.outputs.push(
                OutputBlock {
                    kind: OutputKind::Error,
                    content: string_from(
                        "Only slash commands are supported. Type / to see available commands.",
                    ),
                },
            );
            assert(outputs_view(self.outputs@) =~= base.outputs.push(
                (OutputKind::Error, not_slash_text()),
            ));
            return;
        }
        let after = tail_chars(&rc);
        let word = first_word_of(&after);
        if !known_command(&word) {
            let best = closest_command(string_of(&word).as_str());
            let mut msg = string_from("Unknown command: ");
            push_str(&mut msg, raw.as_str());
            push_str(&mut msg, ".");
            push_str(&mut msg, " Did you mean /");
            push_str(&mut msg, best.name);
            push_str(&mut msg, " ?");
            let ghost m = msg@;
            self.outputs.push(OutputBlock { kind: OutputKind::Error, content: msg });
            assert(outputs_view(self.outputs@) =~= base.outputs.push((OutputKind::Error, m)));
            return;
        }
        self.is_executing = true;
        self.spinning = true;
        self.pending_command = Some(raw);
    }

    /// Moves through the command history: -1 to older lines, 1 to newer ones.
    fn navigate_history(&mut self, direction: i32)
        requires
            direction == -1 || direction == 1,
        ensures
            final(self).line() == with_history_step(old(self).line(), direction as int),
            final(self).overlay == old(self).overlay,
            final(self).needs_full_redraw == old(self).needs_full_redraw,
    {
        let len = self.cmd_history.len();
        if len == 0 {
            return;
        }
        let idx: usize = match self.history_index {
            None => if direction < 0 {
                len - 1
            } else {
                0
            },
            Some(i) => if direction < 0 {
                if i == 0 {
                    0
                } else if i - 1 > len - 1 {
                    len - 1
                } else {
                    i - 1
                }
            } else {
                if i >= len - 1 {
                    len - 1
                } else {
                    i + 1
                }
            },
        };
        self.history_index = Some(idx);
        self.input = self.cmd_history[idx].clone();
        self.cursor_pos = char_count(self.input.as_str());
        self.update_suggestions();
    }

    /// A key on the command line (see `line_next`).
    fn handle_line_key(&mut self, key: KeyEvent) -> (quit: bool)
        requires
            line_wf(old(self).line()),
            old(self).input@.len() < usize::MAX,
        ensures
            line_wf(final(self).line()),
            (final(self).line(), quit) == line_next(old(self).line(), key),
            final(self).overlay == old(self).overlay,
            final(self).needs_full_redraw == old(self).needs_full_redraw,
    {
        if key.ctrl {
            match key.code {
                KeyCode::Char('c') | KeyCode::Char('q') => {
                    return true;
                },
                _ => {},
            }
        }
        let suggesting = self.show_suggestions && self.filtered_commands.len() > 0;
        match key.code {
            KeyCode::Enter => {
                if suggesting {
                    self.accept_suggestion();
                } else {
                    self.submit();
                }
            },
            KeyCode::Backspace => {
                if self.cursor_pos > 0 {
                    self.cursor_pos = self.cursor_pos - 1;
                    remove_char(&mut self.input, self.cursor_pos);
                    self.update_suggestions();
                }
            },
            KeyCode::Left => {
                if self.cursor_pos > 0 {
                    self.cursor_pos = self.cursor_pos - 1;
                }
            },
            KeyCode::Right => {
                if self.cursor_pos < char_count(self.input.as_str()) {
                    self.cursor_pos = self.cursor_pos + 1;
                }
            },
            KeyCode::Up => {
                if suggesting {
                    if self.selected_index > 0 {
                        self.selected_index = self.selected_index - 1;
                    } else {
                        self.selected_index = self.filtered_commands.len() - 1;
                    }
                } else if char_count(self.input.as_str()) == 0 {
                    self.output_scroll = self.output_scroll.saturating_add(1);
                } else {
                    self.navigate_history(-1);
                }
            },
            KeyCode::Down => {
                if suggesting {
                    self.selected_index = (self.selected_index + 1) % self.filtered_commands.len();
                } else if char_count(self.input.as_str()) == 0 {
                    if self.output_scroll > 0 {
                        self.output_scroll = self.output_scroll - 1;
                    }
                } else {
                    self.navigate_history(1);
                }
            },
            KeyCode::PageUp => {
                self.output_scroll = self.output_scroll.saturating_add(5);
            },
            KeyCode::PageDown => {
                self.output_scroll = self.output_scroll.saturating_sub(5);
            },
            KeyCode::Tab => {
                if suggesting {
                    self.accept_suggestion();
                }
            },
            KeyCode::Char(c) => {
                insert_char(&mut self.input, self.cursor_pos, c);
                self.cursor_pos = self.cursor_pos + 1;
                self.update_suggestions();
                self.history_index = None;
                self.output_scroll = 0;
            },
            _ => {},
        }
        false
    }
}


// ─── Keys on overlays ────────────────────────────────────────────────────────

/// Outside work that a key asks for; the caller does it and hands back the result.
pub enum AppEffect {
    Nothing,
    /// Add this finding to the ignore database.
    IgnoreFinding(IgnoredItem),
    /// Remove from, or clear, the ignore database.
    Ignore(IgnoreRequest),
    /// Save the planner's tasks.
    SaveTasks(TaskList),
    /// Log in, log out or report the login status.
    Auth(AuthRequest),
    /// Commit in several repositories.
    Commit(PrpCommitRequest),
}

/// Ctrl+C pressed: it quits the program whatever state it is in.
pub open spec fn is_interrupt(key: KeyEvent) -> bool {
    key.is_press && key.ctrl && key.code == KeyCode::Char('c')
}

/// What a key asks of the caller.
pub struct KeyOutcome {
    /// Quit the application.
    pub quit: bool,
    pub effect: AppEffect,
}

/// The application `n` after a key handled by an overlay that stays open (`closed` is
/// false) or closes, with `msg` pushed to the output when it closes.
pub open spec fn after_overlay(o: App, n: App, next: Overlay, closed: bool, msg: Option<(OutputKind, Seq<char>)>) -> bool {
    if closed {
        &&& n.overlay is None
        &&& n.needs_full_redraw
        &&& n.line() == match msg {
            Some((kind, text)) => with_output(o.line(), kind, text),
            None => o.line(),
        }
    } else {
        &&& n.overlay == Some(next)
        &&& n.needs_full_redraw == o.needs_full_redraw
        &&& n.line() == o.line()
    }
}

/// The application `n` and the outcome `out` after key `k` on application `o`, which shows
/// an overlay.
pub open spec fn overlay_key_step(o: App, n: App, k: KeyCode, out: KeyOutcome) -> bool {
    &&& !out.quit
    &&& match o.overlay {
        Some(Overlay::Scanner(ov)) => exists|ov2: ScannerOverlay, r: Option<IgnoredItem>| {
            &&& #[trigger] scanner_step(ov, ov2, k, r)
            &&& after_overlay(o, n, Overlay::Scanner(ov2), ov2.done, Some((OutputKind::Success, "Scan review complete."@)))
            &&& out.effect == match r {
                Some(item) => AppEffect::IgnoreFinding(item),
                None => AppEffect::Nothing,
            }
        },
        Some(Overlay::Planner(ov)) => exists|ov2: PlannerOverlay, po: PlannerKeyOutcome| {
            &&& planner_wf(ov2@)
            &&& (ov2@, po) == planner_next(ov@, k, ov2@.tasks.last().id, ov2@.tasks.last().created_at)
            &&& after_overlay(o, n, Overlay::Planner(ov2), po.close, Some((OutputKind::Success, "Planner closed."@)))
            &&& if po.save {
                out.effect matches AppEffect::SaveTasks(l) && tasks_view(l.tasks@) == ov2@.tasks
            } else {
                out.effect is Nothing
            }
        },
        Some(Overlay::Ignore(ov)) => exists|ov2: IgnoreOverlay, req: IgnoreRequest| {
            &&& ignore_step(ov, ov2, k, req)
            &&& after_overlay(o, n, Overlay::Ignore(ov2), ov2.done, None)
            &&& out.effect == match req {
                IgnoreRequest::Nothing => AppEffect::Nothing,
                other => AppEffect::Ignore(other),
            }
        },
        Some(Overlay::Info(ov)) => exists|ov2: InfoOverlay| {
            &&& info_step(ov, ov2, k)
            &&& after_overlay(o, n, Overlay::Info(ov2), ov2.done, None)
            &&& out.effect is Nothing
        },
        Some(Overlay::Auth(ov)) => exists|ov2: AuthOverlay, ao: AuthKeyOutcome| {
            &&& auth_step(ov, ov2, k, ao)
            &&& after_overlay(o, n, Overlay::Auth(ov2), ao.close, None)
            &&& out.effect == match ao.request {
                AuthRequest::Nothing => AppEffect::Nothing,
                other => AppEffect::Auth(other),
            }
        },
        Some(Overlay::Prp(ov)) => exists|ov2: PrpOverlay, po: PrpKeyOutcome| {
            &&& prp_step(ov, ov2, k, po)
            &&& after_overlay(
                o,
                n,
                Overlay::Prp(ov2),
                po.close,
                Some((OutputKind::Success, if ov2.result_lines.len() > 0 {
                    "PRP session complete."@
                } else {
                    "PRP session cancelled."@
                })),
            )
            &&& out.effect == match po.commit {
                Some(c) => AppEffect::Commit(c),
                None => AppEffect::Nothing,
            }
        },
        None => false,
    }
}

/// What a key needs, for the application to handle it.
pub open spec fn key_ok(app: App, key: KeyEvent) -> bool {
    key.is_press ==> match app.overlay {
        Some(Overlay::Scanner(ov)) => scanner_key_ok(&ov, key.code),
        Some(Overlay::Ignore(ov)) => ignore_key_ok(&ov),
        Some(Overlay::Info(ov)) => info_key_ok(&ov, key.code),
        Some(Overlay::Planner(ov)) => planner_key_ok(ov@, key.code),
        Some(Overlay::Prp(ov)) => ov.input_buf@.len() < usize::MAX,
        Some(Overlay::Auth(_)) => true,
        None => app.input@.len() < usize::MAX,
    }
}

impl App {
    /// Hands a key to the overlay, and closes it when it is done.
    fn handle_overlay_key(&mut self, key: KeyEvent) -> (out: KeyOutcome)
        requires
            old(self).overlay is Some,
            old(self).wf(),
            key_ok(*old(self), key),
            key.is_press,
        ensures
            final(self).wf(),
            overlay_key_step(*old(self), *final(self), key.code, out),
    {
        let ghost o = *self;
        let mut taken: Option<Overlay> = None;
        std::mem::swap(&mut taken, &mut self.overlay);
        match taken {
            Some(Overlay::Scanner(mut ov)) => {
                let ghost ov0 = ov;
                let r = handle_scanner_key(&mut ov, key);
                let ghost rv = r;
                let ghost ov1 = ov;
                let effect = match r {
                    Some(item) => AppEffect::IgnoreFinding(item),
                    None => AppEffect::Nothing,
                };
                if ov.done {
                    self.needs_full_redraw = true;
                    self.push_output(
                        OutputBlock {
                            kind: OutputKind::Success,
                            content: string_from("Scan review complete."),
                        },
                    );
                } else {
                    self.overlay = Some(Overlay::Scanner(ov));
                }
                assert(scanner_step(ov0, ov1, key.code, rv));
                assert(after_overlay(
                    o,
                    *self,
                    Overlay::Scanner(ov1),
                    ov1.done,
                    Some((OutputKind::Success, "Scan review complete."@)),
                ));
                assert(effect == match rv {
                    Some(item) => AppEffect::IgnoreFinding(item),
                    None => AppEffect::Nothing,
                });
                let out = KeyOutcome { quit: false, effect };
                out
            },
            Some(Overlay::Planner(mut ov)) => {
                let po = handle_planner_key(&mut ov, key);
                let effect = if po.save {
                    AppEffect::SaveTasks(ov.save())
                } else {
                    AppEffect::Nothing
                };
                let ghost ov2 = ov;
                let ghost pov = po;
                if po.close {
                    self.needs_full_redraw = true;
                    self.push_output(
                        OutputBlock {
                            kind: OutputKind::Success,
                            content: string_from("Planner closed."),
                        },
                    );
                } else {
                    self.overlay = Some(Overlay::Planner(ov));
                }
                assert(planner_wf(ov2@));
                assert(after_overlay(
                    o,
                    *self,
                    Overlay::Planner(ov2),
                    pov.close,
                    Some((OutputKind::Success, "Planner closed."@)),
                ));
                let out = KeyOutcome { quit: false, effect };
                assert(if pov.save {
                    out.effect matches AppEffect::SaveTasks(l) && tasks_view(l.tasks@) == ov2@.tasks
                } else {
                    out.effect is Nothing
                });
                out
            },
            Some(Overlay::Ignore(mut ov)) => {
                let ghost ov0 = ov;
                let req = handle_ignore_key(&mut ov, key);
                let ghost rq = req;
                let effect = match req {
                    IgnoreRequest::Nothing => AppEffect::Nothing,
                    other => AppEffect::Ignore(other),
                };
                if ov.done {
                    self.needs_full_redraw = true;
                } else {
                    self.overlay = Some(Overlay::Ignore(ov));
                }
                assert(ignore_step(ov0, ov, key.code, rq));
                KeyOutcome { quit: false, effect }
            },
            Some(Overlay::Info(mut ov)) => {
                let ghost ov0 = ov;
                handle_info_key(&mut ov, key);
                if ov.done {
                    self.needs_full_redraw = true;
                } else {
                    self.overlay = Some(Overlay::Info(ov));
                }
                assert(info_step(ov0, ov, key.code));
                KeyOutcome { quit: false, effect: AppEffect::Nothing }
            },
            Some(Overlay::Auth(mut ov)) => {
                let ghost ov0 = ov;
                let ao = handle_auth_key(&mut ov, key);
                let ghost aov = ao;
                let close = ao.close;
                let effect = match ao.request {
                    AuthRequest::Nothing => AppEffect::Nothing,
                    other => AppEffect::Auth(other),
                };
                if close {
                    self.needs_full_redraw = true;
                } else {
                    self.overlay = Some(Overlay::Auth(ov));
                }
                assert(auth_step(ov0, ov, key.code, aov));
                KeyOutcome { quit: false, effect }
            },
            Some(Overlay::Prp(mut ov)) => {
                let ghost ov0 = ov;
                let po = handle_prp_key(&mut ov, key);
                let ghost pov = po;
                let close = po.close;
                let effect = match po.commit {
                    Some(c) => AppEffect::Commit(c),
                    None => AppEffect::Nothing,
                };
                if close {
                    let msg = if ov.result_lines.len() > 0 {
                        string_from("PRP session complete.")
                    } else {
                        string_from("PRP session cancelled.")
                    };
                    self.needs_full_redraw = true;
                    self.push_output(OutputBlock { kind: OutputKind::Success, content: msg });
                } else {
                    self.overlay = Some(Overlay::Prp(ov));
                }
                assert(prp_step(ov0, ov, key.code, pov));
                KeyOutcome { quit: false, effect }
            },
            None => {
                assert(false);
                KeyOutcome { quit: false, effect: AppEffect::Nothing }
            },
        }
    }
}


impl App {
    /// Whether the application can handle `key` (see `key_ok`): the cases that would
    /// otherwise make it panic, tested before the key is handed over.
    pub fn accepts_key(&self, key: KeyEvent) -> (b: bool)
        requires
            self.wf(),
        ensures
            b == key_ok(*self, key),
    {
        if !key.is_press {
            return true;
        }
        match &self.overlay {
            Some(Overlay::Scanner(ov)) => {
                match key.code {
                    KeyCode::Enter => {
                        if ov.current_index == usize::MAX {
                            return false;
                        }
                        if ov.choice == ScanChoice::Ignore && ov.current_index < ov.findings.len() {
                            cut_is_ok(ov.findings[ov.current_index].fingerprint.as_str(), 8)
                        } else {
                            true
                        }
                    },
                    _ => true,
                }
            },
            Some(Overlay::Ignore(ov)) => ov.items.len() <= usize::MAX - 2 && ov.selected < usize::MAX,
            Some(Overlay::Info(ov)) => match key.code {
                KeyCode::Down | KeyCode::Char('j') => ov.scroll < usize::MAX,
                KeyCode::PageDown => ov.scroll <= usize::MAX - 10,
                _ => true,
            },
            Some(Overlay::Planner(ov)) => {
                if char_count(ov.input_buf.as_str()) == usize::MAX {
                    return false;
                }
                match (ov.mode, key.code) {
                    (PlannerMode::Normal, KeyCode::Char('u')) => ov.history.undo_is_applicable(&ov.tasks),
                    _ => true,
                }
            },
            Some(Overlay::Prp(ov)) => char_count(ov.input_buf.as_str()) < usize::MAX,
            Some(Overlay::Auth(_)) => true,
            None => char_count(self.input.as_str()) < usize::MAX,
        }
    }

    /// Handles a key press. Ctrl+C quits in every state; otherwise the overlay takes the
    /// key if there is one, and if not, unless a command is running, the command line does
    /// (see `line_next`). Releases and repeats are ignored. Returns whether to quit and
    /// what outside work the key asks for.
    pub fn on_key(&mut self, key: KeyEvent) -> (out: KeyOutcome)
        requires
            old(self).wf(),
            key_ok(*old(self), key),
        ensures
            final(self).wf(),
            !key.is_press ==> *final(self) == *old(self) && !out.quit && out.effect is Nothing,
            is_interrupt(key) ==> *final(self) == *old(self) && out.quit && out.effect is Nothing,
            key.is_press && !is_interrupt(key) && old(self).overlay is Some ==> overlay_key_step(
                *old(self),
                *final(self),
                key.code,
                out,
            ),
            key.is_press && !is_interrupt(key) && old(self).overlay is None && old(self).is_executing
                ==> *final(self) == *old(self) && !out.quit && out.effect is Nothing,
            key.is_press && old(self).overlay is None && !old(self).is_executing ==> {
                &&& (final(self).line(), out.quit) == line_next(old(self).line(), key)
                &&& final(self).overlay is None
                &&& final(self).needs_full_redraw == old(self).needs_full_redraw
                &&& out.effect is Nothing
            },
    {
        if !key.is_press {
            return KeyOutcome { quit: false, effect: AppEffect::Nothing };
        }
        if key.ctrl && key.code == KeyCode::Char('c') {
            return KeyOutcome { quit: true, effect: AppEffect::Nothing };
        }
        if self.overlay.is_some() {
            return self.handle_overlay_key(key);
        }
        if self.is_executing {
            return KeyOutcome { quit: false, effect: AppEffect::Nothing };
        }
        let quit = self.handle_line_key(key);
        KeyOutcome { quit, effect: AppEffect::Nothing }
    }

    /// A clock tick: the login overlay advances its spinner and takes the background
    /// login's message, if one came; it closes once the login succeeded.
    pub fn on_tick(&mut self, msg: Option<String>)
        requires
            old(self).wf(),
        ensures
            final(self).wf(),
            final(self).line() == old(self).line(),
            match old(self).overlay {
                Some(Overlay::Auth(ov)) => exists|ov2: AuthOverlay| {
                    &&& auth_tick_step(ov, ov2, msg)
                    &&& if ov2.done {
                        final(self).overlay is None && final(self).needs_full_redraw
                    } else {
                        final(self).overlay == Some(Overlay::Auth(ov2)) && final(self).needs_full_redraw
                            == old(self).needs_full_redraw
                    }
                },
                _ => *final(self) == *old(self),
            },
    {
        let mut taken: Option<Overlay> = None;
        std::mem::swap(&mut taken, &mut self.overlay);
        match taken {
            Some(Overlay::Auth(mut ov)) => {
                let ghost ov0 = ov;
                auth_overlay_tick(&mut ov, msg);
                let ghost ov1 = ov;
                assert(auth_tick_step(ov0, ov1, msg));
                if ov.done {
                    self.needs_full_redraw = true;
                } else {
                    self.overlay = Some(Overlay::Auth(ov));
                }
            },
            other => {
                self.overlay = other;
            },
        }
    }
}


impl App {
    /// Shows the scanner's findings for review, or reports a clean directory.
    pub fn open_scanner_overlay(&mut self, findings: Vec<Finding>)
        requires
            old(self).wf(),
        ensures
            final(self).wf(),
            final(self).needs_full_redraw == old(self).needs_full_redraw,
            findings.len() == 0 ==> final(self).overlay == old(self).overlay && final(self).line()
                == with_output(
                old(self).line(),
                OutputKind::Success,
                "No secrets found. Working directory is clean."@,
            ),
            findings.len() > 0 ==> final(self).line() == (LineView {
                executing: false,
                ..old(self).line()
            }) && (final(self).overlay matches Some(Overlay::Scanner(ov)) && ov.findings@
                == findings@ && ov.current_index == 0 && ov.choice == ScanChoice::Keep && !ov.done),
    {
        self.is_executing = false;
        if findings.len() == 0 {
            self.push_output(
                OutputBlock {
                    kind: OutputKind::Success,
                    content: string_from("No secrets found. Working directory is clean."),
                },
            );
        } else {
            self.overlay = Some(Overlay::Scanner(ScannerOverlay::new(findings)));
        }
    }

    /// Opens the planner on the given tasks.
    pub fn open_planner_overlay(&mut self, tasks: Vec<Task>)
        requires
            old(self).wf(),
        ensures
            final(self).wf(),
            final(self).needs_full_redraw == old(self).needs_full_redraw,
            final(self).line() == (LineView { executing: false, ..old(self).line() }),
            final(self).overlay matches Some(Overlay::Planner(ov)) && ov@ == (PlannerView {
                tasks: tasks_view(tasks@),
                history: HistoryView { undo: Seq::empty(), redo: Seq::empty() },
                selected: 0,
                focus: PlannerFocus::List,
                mode: PlannerMode::Normal,
                input: Seq::empty(),
                cursor: 0,
                field: InputField::Title,
                scroll: 0,
                scratch_title: Seq::empty(),
                scratch_tags: Seq::empty(),
                scratch_desc: Seq::empty(),
            }),
    {
        self.is_executing = false;
        self.overlay = Some(Overlay::Planner(PlannerOverlay::new(tasks)));
    }

    /// Shows the ignored findings, or reports that there are none.
    pub fn open_ignore_overlay(&mut self, items: Vec<IgnoredItem>)
        requires
            old(self).wf(),
        ensures
            final(self).wf(),
            final(self).needs_full_redraw == old(self).needs_full_redraw,
            items.len() == 0 ==> final(self).overlay == old(self).overlay && final(self).line()
                == with_output(
                old(self).line(),
                OutputKind::Info,
                "No ignored findings to manage."@,
            ),
            items.len() > 0 ==> final(self).line() == (LineView {
                executing: false,
                ..old(self).line()
            }) && (final(self).overlay matches Some(Overlay::Ignore(ov)) && ov.items@ == items@
                && ov.selected == 0 && !ov.done),
    {
        self.is_executing = false;
        if items.len() == 0 {
            self.push_output(
                OutputBlock {
                    kind: OutputKind::Info,
                    content: string_from("No ignored findings to manage."),
                },
            );
        } else {
            self.overlay = Some(Overlay::Ignore(IgnoreOverlay::new(items)));
        }
    }

    /// Shows a page of styled text.
    pub fn open_info_overlay(&mut self, title: String, lines: Vec<StyledLine>, accent: Rgb)
        requires
            old(self).wf(),
        ensures
            final(self).wf(),
            final(self).needs_full_redraw == old(self).needs_full_redraw,
            final(self).line() == (LineView { executing: false, ..old(self).line() }),
            final(self).overlay matches Some(Overlay::Info(ov)) && ov.title@ == title@
                && ov.lines@ == lines@ && ov.accent == accent && ov.scroll == 0 && !ov.done,
    {
        self.is_executing = false;
        self.overlay = Some(Overlay::Info(InfoOverlay::new(title, lines, accent)));
    }

    /// Opens the login menu.
    pub fn open_auth_overlay(&mut self)
        requires
            old(self).wf(),
        ensures
            final(self).wf(),
            final(self).needs_full_redraw == old(self).needs_full_redraw,
            final(self).line() == (LineView { executing: false, ..old(self).line() }),
            final(self).overlay matches Some(Overlay::Auth(ov)) && ov.step is Menu && ov.selected
                == 0 && !ov.done && !ov.polling,
    {
        self.is_executing = false;
        self.overlay = Some(Overlay::Auth(AuthOverlay::new()));
    }

    /// Opens the commit session on the repositories found, or reports that there are none.
    pub fn open_prp_overlay(&mut self, repos: Vec<String>)
        requires
            old(self).wf(),
        ensures
            final(self).wf(),
            final(self).needs_full_redraw == old(self).needs_full_redraw,
            repos.len() == 0 ==> final(self).overlay == old(self).overlay && final(self).line()
                == with_output(
                old(self).line(),
                OutputKind::Error,
                "No git repositories found in the current directory."@,
            ),
            repos.len() > 0 ==> final(self).line() == (LineView {
                executing: false,
                ..old(self).line()
            }) && (final(self).overlay matches Some(Overlay::Prp(ov)) && ov.repos@ == repos@
                && (forall|i: int| 0 <= i < ov.included.len() ==> ov.included@[i]) && ov.selected
                == 0 && ov.step == PrpStep::SelectRepos && ov.input_buf@.len() == 0
                && ov.result_lines.len() == 0 && !ov.done),
    {
        self.is_executing = false;
        if repos.len() == 0 {
            self.push_output(
                OutputBlock {
                    kind: OutputKind::Error,
                    content: string_from("No git repositories found in the current directory."),
                },
            );
        } else {
            self.overlay = Some(Overlay::Prp(PrpOverlay::new(repos)));
        }
    }

    /// The ignore list was reloaded after a removal.
    pub fn ignore_reloaded(&mut self, items: Vec<IgnoredItem>)
        requires
            old(self).wf(),
        ensures
            final(self).wf(),
            final(self).line() == old(self).line(),
            final(self).needs_full_redraw == old(self).needs_full_redraw,
            match old(self).overlay {
                Some(Overlay::Ignore(ov)) => final(self).overlay matches Some(Overlay::Ignore(ov2))
                    && ov2.items@ == items@ && ov2.done == ov.done && ov2.selected == (if items.len()
                    == 0 {
                    0
                } else if ov.selected >= items.len() {
                    (items.len() - 1) as usize
                } else {
                    ov.selected
                }),
                _ => final(self).overlay == old(self).overlay,
            },
    {
        match &mut self.overlay {
            Some(Overlay::Ignore(ov)) => {
                ignore_items_reloaded(ov, items);
            },
            _ => {},
        }
    }

    /// A device code was issued for the login overlay.
    pub fn auth_code_received(&mut self, user_code: String, url: String)
        requires
            old(self).wf(),
        ensures
            final(self).wf(),
            final(self).line() == old(self).line(),
            final(self).needs_full_redraw == old(self).needs_full_redraw,
            match old(self).overlay {
                Some(Overlay::Auth(ov)) => final(self).overlay == Some(
                    Overlay::Auth(
                        AuthOverlay {
                            step: AuthStep::ShowCode { user_code, url },
                            polling: true,
                            ..ov
                        },
                    ),
                ),
                _ => final(self).overlay == old(self).overlay,
            },
    {
        match &mut self.overlay {
            Some(Overlay::Auth(ov)) => {
                auth_code_received(ov, user_code, url);
            },
            _ => {},
        }
    }

    /// Shows a final message in the login overlay.
    pub fn auth_show_result(&mut self, message: String)
        requires
            old(self).wf(),
        ensures
            final(self).wf(),
            final(self).line() == old(self).line(),
            final(self).needs_full_redraw == old(self).needs_full_redraw,
            match old(self).overlay {
                Some(Overlay::Auth(ov)) => final(self).overlay == Some(
                    Overlay::Auth(AuthOverlay { step: AuthStep::Result(message), ..ov }),
                ),
                _ => final(self).overlay == old(self).overlay,
            },
    {
        match &mut self.overlay {
            Some(Overlay::Auth(ov)) => {
                auth_show_result(ov, message);
            },
            _ => {},
        }
    }

    /// Shows the results of the commit session.
    pub fn prp_commit_done(&mut self, lines: Vec<String>)
        requires
            old(self).wf(),
        ensures
            final(self).wf(),
            final(self).line() == old(self).line(),
            final(self).needs_full_redraw == old(self).needs_full_redraw,
            match old(self).overlay {
                Some(Overlay::Prp(ov)) => final(self).overlay matches Some(Overlay::Prp(ov2))
                    && ov2.result_lines@ == lines@ && ov2.repos@ == ov.repos@ && ov2.included@
                    == ov.included@ && ov2.step == ov.step && ov2.done == ov.done,
                _ => final(self).overlay == old(self).overlay,
            },
    {
        match &mut self.overlay {
            Some(Overlay::Prp(ov)) => {
                prp_commit_done(ov, lines);
            },
            _ => {},
        }
    }
}


impl App {
    /// Adds an informational note to the output, leaving the spinner as it is.
    pub fn note(&mut self, text: String)
        ensures
            final(self).line() == (LineView {
                outputs: old(self).line().outputs.push((OutputKind::Info, text@)),
                ..old(self).line()
            }),
            final(self).overlay == old(self).overlay,
            final(self).needs_full_redraw == old(self).needs_full_redraw,
    {
        let ghost v = self.line();
        let ghost t = text@;
        self.outputs.push(OutputBlock { kind: OutputKind::Info, content: text });
        assert(outputs_view(self.outputs@) =~= v.outputs.push((OutputKind::Info, t)));
    }

    /// Empties the output history and stops waiting for a command.
    pub fn clear_outputs(&mut self)
        ensures
            final(self).line() == (LineView {
                outputs: Seq::empty(),
                executing: false,
                ..old(self).line()
            }),
            final(self).overlay == old(self).overlay,
            final(self).needs_full_redraw == old(self).needs_full_redraw,
    {
        self.outputs.clear();
        self.is_executing = false;
        assert(outputs_view(self.outputs@) =~= Seq::<(OutputKind, Seq<char>)>::empty());
    }
}

} // verus!
