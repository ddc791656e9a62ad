//! The integrated terminal: its lines, its input and command history, the
//! built-in commands, and the commands it hands to the system.
//!
//! Running a system command and resolving a directory are done by the
//! caller: `run_single` says what to do, and `shell_output`, `shell_failed`
//! and `finish_cd` take back what came of it.
use vstd::prelude::*;
use crate::command_line::{cmd, CommandLine, CommandView};
use crate::text::{
    chars_eq_str, chars_of, concat3, contains_str, lines, lines_exec, lit, split_str,
    split_state, split_str_exec, split_ws, split_ws_exec, starts_with, starts_with_str, string_from_chars,
    sview, trim, trim_chars, vview,
};
use crate::virtenv::{path_join, path_join_exec};

verus! {

#[derive(Clone, Copy, Debug, PartialEq, Eq)]
pub enum TerminalLineType {
    Command,
    Output,
    Error,
    System,
}

impl TerminalLineType {
    /// The class a line of this kind is shown with.
    pub fn line_class(&self) -> (r: &'static str)
        ensures
            r@ == match *self {
                TerminalLineType::Command => "terminal-line command"@,
                TerminalLineType::Output => "terminal-line output"@,
                TerminalLineType::Error => "terminal-line error"@,
                TerminalLineType::System => "terminal-line system"@,
            },
    {
        match self {
            TerminalLineType::Command => "terminal-line command",
            TerminalLineType::Output => "terminal-line output",
            TerminalLineType::Error => "terminal-line error",
            TerminalLineType::System => "terminal-line system",
        }
    }
}

#[derive(Clone, Debug, PartialEq)]
pub struct TerminalLine {
    pub content: String,
    pub line_type: TerminalLineType,
    pub timestamp: String,
}

/// The history keeps the last 100 commands.
pub const HISTORY_LIMIT: usize = 100;

#[derive(Clone, Debug)]
pub struct TerminalState {
    pub lines: Vec<TerminalLine>,
    pub current_input: String,
    pub working_directory: String,
    pub active_env: Option<String>,
    pub command_history: Vec<String>,
    pub history_index: Option<usize>,
}

pub struct LineView {
    pub content: Seq<char>,
    pub kind: TerminalLineType,
    pub ts: Seq<char>,
}

pub struct TermView {
    pub lines: Seq<LineView>,
    pub input: Seq<char>,
    pub wd: Seq<char>,
    pub env: Option<Seq<char>>,
    pub history: Seq<Seq<char>>,
    pub index: Option<usize>,
}

pub open spec fn line_view(l: TerminalLine) -> LineView {
    LineView { content: l.content@, kind: l.line_type, ts: l.timestamp@ }
}

pub open spec fn lines_view(ls: Seq<TerminalLine>) -> Seq<LineView> {
    ls.map_values(|l: TerminalLine| line_view(l))
}

impl View for TerminalState {
    type V = TermView;

    open spec fn view(&self) -> TermView {
        TermView {
            lines: lines_view(self.lines@),
            input: self.current_input@,
            wd: self.working_directory@,
            env: match self.active_env {
                Some(e) => Some(e@),
                None => None,
            },
            history: sview(self.command_history@),
            index: self.history_index,
        }
    }
}

pub open spec fn line(content: Seq<char>, kind: TerminalLineType, ts: Seq<char>) -> LineView {
    LineView { content, kind, ts }
}

/// `t` with one more line at its end.
pub open spec fn with_line(t: TermView, content: Seq<char>, kind: TerminalLineType, ts: Seq<char>) -> TermView {
    TermView { lines: t.lines.push(line(content, kind, ts)), ..t }
}

/// `t` with the given lines, all of one kind, at its end.
pub open spec fn add_all(t: TermView, contents: Seq<Seq<char>>, kind: TerminalLineType, ts: Seq<char>) -> TermView
    decreases contents.len(),
{
    if contents.len() == 0 {
        t
    } else {
        with_line(add_all(t, contents.drop_last(), kind, ts), contents.last(), kind, ts)
    }
}

/// The history holds at most 100 commands, and a selected entry is one of
/// them.
pub open spec fn term_wf(t: TermView) -> bool {
    &&& t.history.len() <= HISTORY_LIMIT
    &&& (t.index matches Some(i) ==> i < t.history.len())
}

pub open spec fn welcome_lines() -> Seq<Seq<char>> {
    seq![
        "Integrated Terminal - DevEnv Manager"@,
        "You can run any system command here"@,
        "Use 'env activate <name>' to activate virtual environments"@,
    ]
}

pub open spec fn help_lines() -> Seq<Seq<char>> {
    seq![
        "Available commands:"@,
        "  help           - Show this help message"@,
        "  clear          - Clear terminal"@,
        "  pwd            - Show current directory"@,
        "  cd <path>      - Change directory"@,
        "  env list       - List available environments"@,
        "  env activate <name> - Activate environment"@,
        "  env deactivate - Deactivate current environment"@,
        "  pip <args>     - Run pip in active environment"@,
        "  python <args>  - Run python in active environment"@,
        "  node <args>    - Run node in active environment"@,
        "  cargo <args>   - Run cargo in active environment"@,
    ]
}

/// What the terminal needs done to go on.
#[derive(Clone, Debug, PartialEq)]
pub enum TerminalAction {
    /// Run a system command and hand back its output.
    Shell(CommandLine),
    /// Resolve the path (following links, removing `.` and `..`) and say
    /// whether it names a directory.
    ResolveDir(String),
}

pub enum ActionView {
    Shell(CommandView),
    ResolveDir(Seq<char>),
}

pub open spec fn action_view(a: TerminalAction) -> ActionView {
    match a {
        TerminalAction::Shell(c) => ActionView::Shell(c@),
        TerminalAction::ResolveDir(p) => ActionView::ResolveDir(p@),
    }
}

/// Where `cd` goes: `~` at the start stands for the home directory (when it
/// is known), an absolute path is taken as it is, and any other path is
/// taken from the working directory.
pub open spec fn cd_target(p: Seq<char>, wd: Seq<char>, home: Option<Seq<char>>) -> Seq<char> {
    if starts_with(p, "~"@) {
        match home {
            Some(h) => h + p.skip(1),
            None => p,
        }
    } else if starts_with(p, "/"@) {
        p
    } else {
        path_join(wd, p)
    }
}

/// The command a system command runs in: `cmd /C` on Windows, `sh -c`
/// elsewhere, in the working directory.
pub open spec fn shell_command(command: Seq<char>, wd: Seq<char>, windows: bool) -> CommandView {
    if windows {
        cmd("cmd"@, seq!["/C"@, command], Some(wd))
    } else {
        cmd("sh"@, seq!["-c"@, command], Some(wd))
    }
}

/// One command, without `&&` in it: its effect on the terminal, and what
/// the caller has to do for it.
pub open spec fn single_spec(t: TermView, command: Seq<char>, ts: Seq<char>, home: Option<Seq<char>>, windows: bool) -> (TermView, Option<ActionView>) {
    let parts = split_ws(command);
    if parts.len() == 0 {
        (t, None)
    } else {
        let w = parts[0];
        if w == "help"@ {
            (add_all(t, help_lines(), TerminalLineType::Output, ts), None)
        } else if w == "clear"@ {
            (TermView { lines: seq![line("Terminal cleared"@, TerminalLineType::System, ts)], ..t }, None)
        } else if w == "pwd"@ {
            (with_line(t, t.wd, TerminalLineType::Output, ts), None)
        } else if w == "cd"@ {
            if parts.len() > 1 {
                (t, Some(ActionView::ResolveDir(cd_target(parts[1], t.wd, home))))
            } else {
                match home {
                    Some(h) => (with_line(TermView { wd: h, ..t }, "Changed directory to: "@ + h, TerminalLineType::Output, ts), None),
                    None => (with_line(t, "cd: HOME not set"@, TerminalLineType::Error, ts), None),
                }
            }
        } else if w == "env"@ {
            if parts.len() > 1 {
                let sub = parts[1];
                if sub == "list"@ {
                    (with_line(t, "TODO: List environments from backend"@, TerminalLineType::Output, ts), None)
                } else if sub == "activate"@ {
                    if parts.len() > 2 {
                        (with_line(TermView { env: Some(parts[2]), ..t }, "Activated environment: "@ + parts[2], TerminalLineType::System, ts), None)
                    } else {
                        (with_line(t, "Usage: env activate <name>"@, TerminalLineType::Error, ts), None)
                    }
                } else if sub == "deactivate"@ {
                    match t.env {
                        Some(e) => (with_line(TermView { env: None, ..t }, "Deactivated environment: "@ + e, TerminalLineType::System, ts), None),
                        None => (with_line(t, "No active environment"@, TerminalLineType::Error, ts), None),
                    }
                } else {
                    (with_line(t, "Unknown env command. Use: list, activate <name>, deactivate"@, TerminalLineType::Error, ts), None)
                }
            } else {
                (with_line(t, "Usage: env <list|activate|deactivate>"@, TerminalLineType::Error, ts), None)
            }
        } else if w == "pip"@ || w == "python"@ || w == "node"@ || w == "cargo"@ {
            match t.env {
                Some(e) => (with_line(t, "TODO: Execute '"@ + command + "' in environment '"@ + e + "'"@, TerminalLineType::Output, ts), None),
                None => (with_line(t, "No active environment. Use 'env activate <name>' first."@, TerminalLineType::Error, ts), None),
            }
        } else {
            (t, Some(ActionView::Shell(shell_command(command, t.wd, windows))))
        }
    }
}

/// The commands a line runs, in order: when it holds ` && `, its pieces
/// between those, trimmed, without the empty ones; otherwise the line.
pub open spec fn compound_spec(line: Seq<char>) -> Seq<Seq<char>> {
    if crate::text::contains_sub(line, " && "@) {
        nonempty_trimmed(split_str(line, " && "@))
    } else {
        seq![line]
    }
}

pub open spec fn nonempty_trimmed(ps: Seq<Seq<char>>) -> Seq<Seq<char>>
    decreases ps.len(),
{
    if ps.len() == 0 {
        Seq::empty()
    } else if trim(ps.last()).len() > 0 {
        nonempty_trimmed(ps.drop_last()).push(trim(ps.last()))
    } else {
        nonempty_trimmed(ps.drop_last())
    }
}

/// The history after a command was entered: the command at its end, and the
/// oldest one dropped when there are more than 100.
pub open spec fn history_after(h: Seq<Seq<char>>, c: Seq<char>) -> Seq<Seq<char>> {
    if h.push(c).len() > HISTORY_LIMIT {
        h.push(c).drop_first()
    } else {
        h.push(c)
    }
}

/// The entry selected by the up arrow: the newest when none is selected,
/// else the one before the selected one (staying on the oldest).
pub open spec fn up_index(h_len: nat, index: Option<usize>) -> Option<usize> {
    if h_len == 0 {
        index
    } else {
        match index {
            None => Some((h_len - 1) as usize),
            Some(i) => if i > 0 {
                Some((i - 1) as usize)
            } else {
                Some(i)
            },
        }
    }
}

/// The entry selected by the down arrow: the next newer one; past the
/// newest, none (and the input is cleared).
pub open spec fn down_index(h_len: nat, index: Option<usize>) -> Option<usize> {
    match index {
        Some(i) => if i + 1 < h_len {
            Some((i + 1) as usize)
        } else {
            None
        },
        None => None,
    }
}

fn new_line(content: String, kind: TerminalLineType, ts: &String) -> (r: TerminalLine)
    ensures
        line_view(r) == line(content@, kind, ts@),
{
    TerminalLine { content, line_type: kind, timestamp: ts.clone() }
}

fn words_of(command: &String) -> (r: Vec<Vec<char>>)
    ensures
        vview(r@) == split_ws(command@),
{
    split_ws_exec(&chars_of(command.as_str()))
}

impl TerminalState {
    pub open spec fn wf(&self) -> bool {
        term_wf(self@)
    }

    /// Appends a line.
    pub fn push_line(&mut self, content: String, kind: TerminalLineType, ts: &String)
        ensures
            final(self)@ == with_line(old(self)@, content@, kind, ts@),
    {
        let l = new_line(content, kind, ts);
        let ghost l0 = self.lines@;
        self.lines.push(l);
        assert(lines_view(self.lines@) =~= lines_view(l0).push(line_view(l)));
    }

    fn push_all(&mut self, contents: &Vec<Vec<char>>, kind: TerminalLineType, ts: &String)
        ensures
            final(self)@ == add_all(old(self)@, vview(contents@), kind, ts@),
    {
        let ghost t0 = self@;
        let ghost v = vview(contents@);
        let mut i: usize = 0;
        while i < contents.len()
            invariant
                i <= contents.len(),
                v == vview(contents@),
                self@ == add_all(t0, v.take(i as int), kind, ts@),
            decreases contents.len() - i,
        {
            assert(v.take(i + 1).drop_last() =~= v.take(i as int));
            assert(v.take(i + 1).last() == contents@[i as int]@);
            self.push_line(string_from_chars(contents[i].as_slice()), kind, ts);
            i = i + 1;
        }
        assert(v.take(contents.len() as int) =~= v);
    }

    /// A terminal opened in `working_directory`, showing its welcome lines.
    pub fn new(working_directory: String, ts: &String) -> (r: TerminalState)
        ensures
            r@ == add_all(
                TermView {
                    lines: Seq::empty(),
                    input: Seq::empty(),
                    wd: working_directory@,
                    env: None,
                    history: Seq::empty(),
                    index: None,
                },
                welcome_lines(),
                TerminalLineType::System,
                ts@,
            ),
            r.wf(),
    {
        let mut t = TerminalState {
            lines: Vec::new(),
            current_input: String::new(),
            working_directory,
            active_env: None,
            command_history: Vec::new(),
            history_index: None,
        };
        let ghost t0 = t@;
        assert(lines_view(t.lines@) =~= Seq::empty());
        assert(sview(t.command_history@) =~= Seq::empty());
        t.push_line(lit("Integrated Terminal - DevEnv Manager"), TerminalLineType::System, ts);
        t.push_line(lit("You can run any system command here"), TerminalLineType::System, ts);
        t.push_line(lit("Use 'env activate <name>' to activate virtual environments"), TerminalLineType::System, ts);
        proof {
            let w = welcome_lines();
            reveal_with_fuel(add_all, 4);
            assert(w.drop_last().drop_last().drop_last() =~= Seq::empty());
            assert(w.drop_last().drop_last() =~= seq![w[0]]);
            assert(w.drop_last() =~= seq![w[0], w[1]]);
        }
        t
    }

    /// Marks `env_name` active and says so.
    pub fn activate_environment(&mut self, env_name: String, ts: &String)
        ensures
            final(self)@ == with_line(
                TermView { env: Some(env_name@), ..old(self)@ },
                "Environment '"@ + env_name@ + "' activated"@,
                TerminalLineType::System,
                ts@,
            ),
    {
        let msg = concat3("Environment '", &env_name, "' activated");
        self.active_env = Some(env_name);
        self.push_line(msg, TerminalLineType::System, ts);
    }

    /// Clears the active environment, saying so; nothing happens when none
    /// is active.
    pub fn deactivate_environment(&mut self, ts: &String)
        ensures
            match old(self)@.env {
                Some(e) => final(self)@ == with_line(
                    TermView { env: None, ..old(self)@ },
                    "Environment '"@ + e + "' deactivated"@,
                    TerminalLineType::System,
                    ts@,
                ),
                None => final(self)@ == old(self)@,
            },
    {
        let msg = match &self.active_env {
            Some(e) => Some(concat3("Environment '", e, "' deactivated")),
            None => None,
        };
        if let Some(m) = msg {
            self.active_env = None;
            self.push_line(m, TerminalLineType::System, ts);
        }
    }

    /// The text being typed.
    pub fn set_input(&mut self, input: String)
        ensures
            final(self)@ == (TermView { input: input@, ..old(self)@ }),
    {
        self.current_input = input;
    }

    /// The up arrow: selects an older command and puts it in the input.
    pub fn history_up(&mut self)
        requires
            old(self).wf(),
        ensures
            final(self).wf(),
            final(self)@.index == up_index(old(self)@.history.len(), old(self)@.index),
            old(self)@.history.len() > 0 ==> final(self)@ == (TermView {
                index: final(self)@.index,
                input: old(self)@.history[final(self)@.index->0 as int],
                ..old(self)@
            }),
            old(self)@.history.len() == 0 ==> final(self)@ == old(self)@,
    {
        let n = self.command_history.len();
        if n > 0 {
            let i: usize = match self.history_index {
                None => n - 1,
                Some(i) => if i > 0 {
                    i - 1
                } else {
                    i
                },
            };
            self.history_index = Some(i);
            self.current_input = self.command_history[i].clone();
        }
    }

    /// The down arrow: selects a newer command and puts it in the input;
    /// past the newest, clears the selection and the input.
    pub fn history_down(&mut self)
        requires
            old(self).wf(),
        ensures
            final(self).wf(),
            final(self)@.index == down_index(old(self)@.history.len(), old(self)@.index),
            match old(self)@.index {
                Some(i) => if i + 1 < old(self)@.history.len() {
                    final(self)@ == (TermView {
                        index: Some((i + 1) as usize),
                        input: old(self)@.history[i + 1],
                        ..old(self)@
                    })
                } else {
                    final(self)@ == (TermView { index: None, input: Seq::empty(), ..old(self)@ })
                },
                None => final(self)@ == old(self)@,
            },
    {
        match self.history_index {
            Some(i) => {
                if i < self.command_history.len() - 1 {
                    self.history_index = Some(i + 1);
                    self.current_input = self.command_history[i + 1].clone();
                } else {
                    self.history_index = None;
                    self.current_input = String::new();
                }
            },
            None => {},
        }
    }

    /// Enter: a non-empty (trimmed) input is added to the history, shown
    /// after a `$`, cleared, and returned to be run; an empty one changes
    /// nothing.
    pub fn submit(&mut self, ts: &String) -> (r: Option<String>)
        requires
            old(self).wf(),
        ensures
            final(self).wf(),
            trim(old(self)@.input).len() == 0 ==> r is None && final(self)@ == old(self)@,
            trim(old(self)@.input).len() > 0 ==> (r matches Some(c) && c@ == trim(old(self)@.input)
                && final(self)@ == with_line(
                TermView {
                    history: history_after(old(self)@.history, trim(old(self)@.input)),
                    index: None,
                    input: Seq::empty(),
                    ..old(self)@
                },
                "$ "@ + trim(old(self)@.input),
                TerminalLineType::Command,
                ts@,
            )),
    {
        let t = trim_chars(&chars_of(self.current_input.as_str()));
        if t.len() == 0 {
            return None;
        }
        let command = string_from_chars(&t);
        let ghost h0 = sview(self.command_history@);
        self.command_history.push(command.clone());
        assert(sview(self.command_history@) =~= h0.push(command@));
        if self.command_history.len() > HISTORY_LIMIT {
            let ghost h1 = self.command_history@;
            self.command_history.remove(0);
            assert(sview(self.command_history@) =~= sview(h1).drop_first());
        }
        self.history_index = None;
        self.current_input = String::new();
        proof {
            reveal_strlit("");
        }
        self.push_line(concat3("$ ", &command, ""), TerminalLineType::Command, ts);
        Some(command)
    }

    /// A command sent from elsewhere in the application: shown after a `$`,
    /// without entering the history.
    pub fn show_command(&mut self, command: &String, ts: &String)
        ensures
            final(self)@ == with_line(old(self)@, "$ "@ + command@, TerminalLineType::Command, ts@),
    {
        proof {
            reveal_strlit("");
        }
        self.push_line(concat3("$ ", command, ""), TerminalLineType::Command, ts);
    }

    /// Runs one command (without `&&`): built-in commands change the
    /// terminal at once; `cd` to a path and system commands return what the
    /// caller has to do.
    pub fn run_single(&mut self, command: &String, ts: &String, home: &Option<String>, windows: bool) -> (r: Option<TerminalAction>)
        ensures
            (final(self)@, match r {
                Some(a) => Some(action_view(a)),
                None => None,
            }) == single_spec(
                old(self)@,
                command@,
                ts@,
                match *home {
                    Some(h) => Some(h@),
                    None => None,
                },
                windows,
            ),
    {
        let parts = words_of(command);
        let ghost pv = vview(parts@);
        assert(pv.len() == parts@.len());
        if parts.len() == 0 {
            return None;
        }
        assert(pv[0] == parts@[0]@);
        let w = &parts[0];
        if chars_eq_str(w, "help") {
            let hl: Vec<Vec<char>> = vec![
                chars_of("Available commands:"),
                chars_of("  help           - Show this help message"),
                chars_of("  clear          - Clear terminal"),
                chars_of("  pwd            - Show current directory"),
                chars_of("  cd <path>      - Change directory"),
                chars_of("  env list       - List available environments"),
                chars_of("  env activate <name> - Activate environment"),
                chars_of("  env deactivate - Deactivate current environment"),
                chars_of("  pip <args>     - Run pip in active environment"),
                chars_of("  python <args>  - Run python in active environment"),
                chars_of("  node <args>    - Run node in active environment"),
                chars_of("  cargo <args>   - Run cargo in active environment"),
            ];
            assert(vview(hl@) =~= help_lines());
            self.push_all(&hl, TerminalLineType::Output, ts);
            return None;
        }
        if chars_eq_str(w, "clear") {
            let l = new_line(lit("Terminal cleared"), TerminalLineType::System, ts);
            self.lines = vec![l];
            assert(lines_view(self.lines@) =~= seq![line("Terminal cleared"@, TerminalLineType::System, ts@)]);
            return None;
        }
        if chars_eq_str(w, "pwd") {
            let wd = self.working_directory.clone();
            self.push_line(wd, TerminalLineType::Output, ts);
            return None;
        }
        if chars_eq_str(w, "cd") {
            if parts.len() > 1 {
                assert(pv[1] == parts@[1]@);
                let p = &parts[1];
                let target: Vec<char> = if starts_with_str(p, "~") {
                    proof {
                        reveal_strlit("~");
                    }
                    match home {
                        Some(h) => {
                            let mut t = chars_of(h.as_str());
                            let mut k: usize = 1;
                            let ghost t0 = t@;
                            while k < p.len()
                                invariant
                                    1 <= k <= p.len(),
                                    t@ == t0 + p@.subrange(1, k as int),
                                decreases p.len() - k,
                            {
                                t.push(p[k]);
                                k = k + 1;
                                assert(t@ =~= t0 + p@.subrange(1, k as int));
                            }
                            assert(p@.subrange(1, p@.len() as int) =~= p@.skip(1));
                            t
                        },
                        None => p.clone(),
                    }
                } else if starts_with_str(p, "/") {
                    p.clone()
                } else {
                    path_join_exec(&chars_of(self.working_directory.as_str()), p)
                };
                return Some(TerminalAction::ResolveDir(string_from_chars(&target)));
            } else {
                match home {
                    Some(h) => {
                        self.working_directory = h.clone();
                        proof {
                            reveal_strlit("");
                        }
                        self.push_line(concat3("Changed directory to: ", h, ""), TerminalLineType::Output, ts);
                    },
                    None => {
                        self.push_line(lit("cd: HOME not set"), TerminalLineType::Error, ts);
                    },
                }
                return None;
            }
        }
        if chars_eq_str(w, "env") {
            if parts.len() > 1 {
                assert(pv[1] == parts@[1]@);
                let sub = &parts[1];
                if chars_eq_str(sub, "list") {
                    self.push_line(lit("TODO: List environments from backend"), TerminalLineType::Output, ts);
                } else if chars_eq_str(sub, "activate") {
                    if parts.len() > 2 {
                        assert(pv[2] == parts@[2]@);
                        let name = string_from_chars(parts[2].as_slice());
                        proof {
                            reveal_strlit("");
                        }
                        let msg = concat3("Activated environment: ", &name, "");
                        self.active_env = Some(name);
                        self.push_line(msg, TerminalLineType::System, ts);
                    } else {
                        self.push_line(lit("Usage: env activate <name>"), TerminalLineType::Error, ts);
                    }
                } else if chars_eq_str(sub, "deactivate") {
                    let msg = match &self.active_env {
                        Some(e) => {
                            proof {
                                reveal_strlit("");
                            }
                            Some(concat3("Deactivated environment: ", e, ""))
                        },
                        None => None,
                    };
                    match msg {
                        Some(m) => {
                            self.active_env = None;
                            self.push_line(m, TerminalLineType::System, ts);
                        },
                        None => {
                            self.push_line(lit("No active environment"), TerminalLineType::Error, ts);
                        },
                    }
                } else {
                    self.push_line(
                        lit("Unknown env command. Use: list, activate <name>, deactivate"),
                        TerminalLineType::Error,
                        ts,
                    );
                }
            } else {
                self.push_line(lit("Usage: env <list|activate|deactivate>"), TerminalLineType::Error, ts);
            }
            return None;
        }
        if chars_eq_str(w, "pip") || chars_eq_str(w, "python") || chars_eq_str(w, "node") || chars_eq_str(w, "cargo") {
            let msg = match &self.active_env {
                Some(e) => {
                    let a = concat3("TODO: Execute '", command, "' in environment '");
                    let b = concat3("", &a, "");
                    let mut c = chars_of(b.as_str());
                    c.extend_from_slice(&chars_of(e.as_str()));
                    c.extend_from_slice(&chars_of("'"));
                    proof {
                        reveal_strlit("");
                        assert(c@ =~= "TODO: Execute '"@ + command@ + "' in environment '"@ + e@ + "'"@);
                    }
                    Some(string_from_chars(&c))
                },
                None => None,
            };
            match msg {
                Some(m) => self.push_line(m, TerminalLineType::Output, ts),
                None => self.push_line(
                    lit("No active environment. Use 'env activate <name>' first."),
                    TerminalLineType::Error,
                    ts,
                ),
            }
            return None;
        }
        let (program, flag) = if windows {
            (lit("cmd"), lit("/C"))
        } else {
            (lit("sh"), lit("-c"))
        };
        let args = vec![flag, command.clone()];
        assert(sview(args@) =~= seq![flag@, command@]);
        let line = CommandLine { program, args, dir: Some(self.working_directory.clone()) };
        assert(line@ == shell_command(command@, self@.wd, windows));
        Some(TerminalAction::Shell(line))
    }

    /// A system command finished: its output lines, then its error lines;
    /// when it printed nothing, a line saying it completed.
    pub fn shell_output(&mut self, stdout: &String, stderr: &String, ts: &String)
        ensures
            final(self)@ == (if stdout@.len() == 0 && stderr@.len() == 0 {
                with_line(old(self)@, "Command completed"@, TerminalLineType::System, ts@)
            } else {
                add_all(
                    add_all(old(self)@, lines(stdout@), TerminalLineType::Output, ts@),
                    lines(stderr@),
                    TerminalLineType::Error,
                    ts@,
                )
            }),
    {
        let o = chars_of(stdout.as_str());
        let e = chars_of(stderr.as_str());
        if o.len() == 0 && e.len() == 0 {
            self.push_line(lit("Command completed"), TerminalLineType::System, ts);
            return;
        }
        let ol = lines_exec(&o);
        self.push_all(&ol, TerminalLineType::Output, ts);
        let el = lines_exec(&e);
        self.push_all(&el, TerminalLineType::Error, ts);
    }

    /// A system command could not be run.
    pub fn shell_failed(&mut self, error: &String, ts: &String)
        ensures
            final(self)@ == with_line(old(self)@, "Error executing command: "@ + error@, TerminalLineType::Error, ts@),
    {
        proof {
            reveal_strlit("");
        }
        self.push_line(concat3("Error executing command: ", error, ""), TerminalLineType::Error, ts);
    }

    /// `cd` to `target` finished: `resolved` is the path it resolved to and
    /// whether that is a directory, or `None` when it does not exist.
    pub fn finish_cd(&mut self, target: &String, resolved: &Option<(String, bool)>, ts: &String)
        ensures
            final(self)@ == (match *resolved {
                Some((p, true)) => with_line(
                    TermView { wd: p@, ..old(self)@ },
                    "Changed directory to: "@ + p@,
                    TerminalLineType::Output,
                    ts@,
                ),
                Some((_, false)) => with_line(old(self)@, "cd: not a directory: "@ + target@, TerminalLineType::Error, ts@),
                None => with_line(old(self)@, "cd: no such file or directory: "@ + target@, TerminalLineType::Error, ts@),
            }),
    {
        proof {
            reveal_strlit("");
        }
        match resolved {
            Some((p, true)) => {
                self.working_directory = p.clone();
                self.push_line(concat3("Changed directory to: ", p, ""), TerminalLineType::Output, ts);
            },
            Some((_, false)) => {
                self.push_line(concat3("cd: not a directory: ", target, ""), TerminalLineType::Error, ts);
            },
            None => {
                self.push_line(concat3("cd: no such file or directory: ", target, ""), TerminalLineType::Error, ts);
            },
        }
    }
}

/// The commands a line runs, in order (see `compound_spec`).
pub fn compound_commands(command: &String) -> (r: Vec<String>)
    ensures
        sview(r@) == compound_spec(command@),
{
    let c = chars_of(command.as_str());
    if !contains_str(&c, " && ") {
        let r = vec![command.clone()];
        assert(sview(r@) =~= seq![command@]);
        return r;
    }
    proof {
        reveal_strlit(" && ");
    }
    let pieces = split_str_exec(&c, " && ");
    let ghost pv = vview(pieces@);
    let mut r: Vec<String> = Vec::new();
    let mut i: usize = 0;
    while i < pieces.len()
        invariant
            i <= pieces.len(),
            pv == vview(pieces@),
            sview(r@) == nonempty_trimmed(pv.take(i as int)),
        decreases pieces.len() - i,
    {
        assert(pv.take(i + 1).drop_last() =~= pv.take(i as int));
        assert(pv.take(i + 1).last() == pieces@[i as int]@);
        let t = trim_chars(pieces[i].as_slice());
        if t.len() > 0 {
            let ghost r0 = sview(r@);
            r.push(string_from_chars(&t));
            assert(sview(r@) =~= r0.push(t@));
        }
        i = i + 1;
    }
    assert(pv.take(pieces.len() as int) =~= pv);
    r
}

/// Running a command never changes the command history or the selected
/// entry.
pub proof fn commands_keep_history(t: TermView, command: Seq<char>, ts: Seq<char>, home: Option<Seq<char>>, windows: bool)
    ensures
        single_spec(t, command, ts, home, windows).0.history == t.history,
        single_spec(t, command, ts, home, windows).0.index == t.index,
        term_wf(t) ==> term_wf(single_spec(t, command, ts, home, windows).0),
{
    reveal_with_fuel(add_all, 13);
}

/// `after` is `before` with one or more lines added at the end, and the
/// same input, history and selected entry.
pub open spec fn appended(before: TermView, after: TermView) -> bool {
    &&& after.lines.len() > before.lines.len()
    &&& after.lines.take(before.lines.len() as int) == before.lines
    &&& after.input == before.input
    &&& after.history == before.history
    &&& after.index == before.index
}

proof fn lemma_add_all(t: TermView, contents: Seq<Seq<char>>, kind: TerminalLineType, ts: Seq<char>)
    ensures
        add_all(t, contents, kind, ts).lines.len() == t.lines.len() + contents.len(),
        add_all(t, contents, kind, ts).lines.take(t.lines.len() as int) == t.lines,
        add_all(t, contents, kind, ts) == (TermView { lines: add_all(t, contents, kind, ts).lines, ..t }),
    decreases contents.len(),
{
    if contents.len() > 0 {
        lemma_add_all(t, contents.drop_last(), kind, ts);
        let u = add_all(t, contents.drop_last(), kind, ts);
        assert(u.lines.push(line(contents.last(), kind, ts)).take(t.lines.len() as int) =~= u.lines.take(t.lines.len() as int));
    } else {
        assert(t.lines.take(t.lines.len() as int) =~= t.lines);
    }
}

proof fn lemma_with_line(t: TermView, content: Seq<char>, kind: TerminalLineType, ts: Seq<char>)
    ensures
        appended(t, with_line(t, content, kind, ts)),
{
    assert(t.lines.push(line(content, kind, ts)).take(t.lines.len() as int) =~= t.lines);
}

proof fn lemma_lines_nonempty(s: Seq<char>)
    requires
        s.len() > 0,
    ensures
        lines(s).len() > 0,
{
    assert(split_state(s, '\n').0.len() > 0 || split_state(s, '\n').1.len() > 0);
}

/// A command other than `clear` only adds output: the lines shown before
/// stay, in order, at the top. The first step adds at least one line, or
/// changes nothing and hands back the work still to do (resolving the
/// directory of `cd`, or running a system command); the input, history and
/// selected entry never change, the working directory changes only for
/// `cd` and the active environment only for `env`. Finishing that work then
/// adds at least one line in every case.
pub proof fn commands_only_append_output(
    t: TermView,
    command: Seq<char>,
    ts: Seq<char>,
    home: Option<Seq<char>>,
    windows: bool,
    stdout: Seq<char>,
    stderr: Seq<char>,
    error: Seq<char>,
    target: Seq<char>,
    resolved: Option<(Seq<char>, bool)>,
)
    requires
        split_ws(command).len() > 0,
        split_ws(command)[0] != "clear"@,
    ensures
        ({
            let (u, a) = single_spec(t, command, ts, home, windows);
            &&& a is None ==> appended(t, u)
            &&& a is Some ==> u == t
            &&& split_ws(command)[0] != "cd"@ ==> u.wd == t.wd
            &&& split_ws(command)[0] != "env"@ ==> u.env == t.env
        }),
        appended(t, if stdout.len() == 0 && stderr.len() == 0 {
            with_line(t, "Command completed"@, TerminalLineType::System, ts)
        } else {
            add_all(add_all(t, lines(stdout), TerminalLineType::Output, ts), lines(stderr), TerminalLineType::Error, ts)
        }),
        appended(t, with_line(t, "Error executing command: "@ + error, TerminalLineType::Error, ts)),
        appended(t, match resolved {
            Some((p, true)) => with_line(
                TermView { wd: p, ..t },
                "Changed directory to: "@ + p,
                TerminalLineType::Output,
                ts,
            ),
            Some((_, false)) => with_line(t, "cd: not a directory: "@ + target, TerminalLineType::Error, ts),
            None => with_line(t, "cd: no such file or directory: "@ + target, TerminalLineType::Error, ts),
        }),
{
    let parts = split_ws(command);
    let w = parts[0];
    if w == "help"@ {
        lemma_add_all(t, help_lines(), TerminalLineType::Output, ts);
        reveal_with_fuel(add_all, 13);
    } else if w == "cd"@ {
        if parts.len() <= 1 {
            match home {
                Some(h) => lemma_with_line(TermView { wd: h, ..t }, "Changed directory to: "@ + h, TerminalLineType::Output, ts),
                None => lemma_with_line(t, "cd: HOME not set"@, TerminalLineType::Error, ts),
            }
        }
    } else if w == "env"@ {
        if parts.len() > 1 {
            let sub = parts[1];
            if sub == "activate"@ && parts.len() > 2 {
                lemma_with_line(TermView { env: Some(parts[2]), ..t }, "Activated environment: "@ + parts[2], TerminalLineType::System, ts);
            } else if sub == "deactivate"@ && t.env is Some {
                lemma_with_line(TermView { env: None, ..t }, "Deactivated environment: "@ + t.env->0, TerminalLineType::System, ts);
            }
        }
    }
    let (u, a) = single_spec(t, command, ts, home, windows);
    if a is None {
        if u.lines.len() == t.lines.len() + 1 {
            lemma_with_line(t, u.lines.last().content, u.lines.last().kind, ts);
        }
    }
    // finishing the work
    lemma_with_line(t, "Command completed"@, TerminalLineType::System, ts);
    lemma_with_line(t, "Error executing command: "@ + error, TerminalLineType::Error, ts);
    lemma_with_line(t, "cd: not a directory: "@ + target, TerminalLineType::Error, ts);
    lemma_with_line(t, "cd: no such file or directory: "@ + target, TerminalLineType::Error, ts);
    if let Some((p, true)) = resolved {
        lemma_with_line(TermView { wd: p, ..t }, "Changed directory to: "@ + p, TerminalLineType::Output, ts);
    }
    if !(stdout.len() == 0 && stderr.len() == 0) {
        let v = add_all(t, lines(stdout), TerminalLineType::Output, ts);
        lemma_add_all(t, lines(stdout), TerminalLineType::Output, ts);
        lemma_add_all(v, lines(stderr), TerminalLineType::Error, ts);
        if stdout.len() > 0 {
            lemma_lines_nonempty(stdout);
        } else {
            lemma_lines_nonempty(stderr);
        }
        let x = add_all(v, lines(stderr), TerminalLineType::Error, ts);
        assert(x.lines.take(v.lines.len() as int) == v.lines);
        assert(x.lines.take(t.lines.len() as int) =~= x.lines.take(v.lines.len() as int).take(t.lines.len() as int));
        assert(v.lines.take(t.lines.len() as int) == t.lines);
        assert(x.lines.take(t.lines.len() as int) == t.lines);
        assert(x.input == t.input && x.history == t.history && x.index == t.index);
    }
}

/// An entered command becomes the newest history entry, and the history
/// grows by one up to its limit of 100 commands, then keeps that length.
pub proof fn entered_command_is_newest(h: Seq<Seq<char>>, c: Seq<char>)
    requires
        h.len() <= HISTORY_LIMIT,
    ensures
        history_after(h, c).last() == c,
        history_after(h, c).len() == if h.len() < HISTORY_LIMIT {
            h.len() + 1
        } else {
            HISTORY_LIMIT as nat
        },
        history_after(h, c).len() <= HISTORY_LIMIT,
{
}

} // verus!
