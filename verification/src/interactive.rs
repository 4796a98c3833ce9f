//! Decisions of the interactive command line: what a typed line asks for,
//! and how the run loop advances.

use vstd::prelude::*;
use vstd::string::*;

use crate::text::{
    decimal, parse_i32, parse_i32_spec, parse_usize, parse_usize_spec, split_first_word_spec,
    str_eq, string_of,
};

verus! {

/// What to do when the project files change.
#[derive(Debug, Clone, Copy, PartialEq, Eq, Structural)]
pub enum OnChangeAction {
    Restart,
    UpdateModel,
}

/// What to do on shutdown.
#[derive(Debug, Clone, Copy, PartialEq, Eq, Structural)]
pub enum OnShutdownAction {
    Custom,
    Quit,
}

/// Splits a command line, trimmed, into its first word and the rest, the
/// rest without its leading whitespace.
pub fn split_first_word(s: &str) -> (res: (&str, &str))
    ensures
        (res.0@, res.1@) == split_first_word_spec(s@),
{
    crate::text::split_first_word(s)
}

/// Command typed at the interactive prompt.
#[derive(Debug, Clone, PartialEq, Eq)]
pub enum ReplCommand {
    /// Process one turn
    Turn,
    /// Run the given number of steps, listening for interrupts
    Run(i32),
    /// Run the given number of steps at once
    RunFast(u32),
    /// Run at the given frequency, listening for interrupts
    RunFreq(usize),
    /// Run at the given frequency at once
    RunFastHz(usize),
    /// List the variables
    List,
    /// A snapshot path must not hold spaces
    SnapPathHasSpaces,
    /// Initialize the cluster with the default model
    Init,
    Help,
    CfgList,
    CfgGet(String),
    /// Set a configuration variable to a value
    Cfg(String, String),
    CfgSave,
    CfgReload,
    /// Print a grid of the given arguments
    ShowGrid(String),
    Show,
    ShowToggle,
    ShowAdd(String),
    ShowRemove(String),
    ShowClear,
    History,
    Quit,
    /// Evaluate the line as directives of the line editor
    InterfaceSet(String),
    InterfaceGet(String),
    InterfaceList,
    Model,
    Disco,
    /// Spawn an entity of the prefab (first) under the name (second)
    Spawn(String, String),
    /// Input that is no command
    Unknown(String),
}

/// Commands whose handling the program does not have: running until a
/// point, spawning in bulk, and writing snapshots.
pub open spec fn unsupported(cmd: Seq<char>, args: Seq<char>) -> bool {
    ||| cmd == "run-until"@
    ||| cmd == "runf-until"@
    ||| cmd == "nspawn"@
    ||| ((cmd == "snap"@ || cmd == "snapc"@) && !args.contains(' '))
}

/// Whether a line can be read as a command: its count, where it needs
/// one, is a number, and it is no unsupported command.
pub open spec fn line_ok(line: Seq<char>) -> bool {
    let (cmd, args) = split_first_word_spec(line);
    &&& !unsupported(cmd, args)
    &&& cmd == "run"@ ==> parse_i32_spec(args) is Ok
    &&& cmd == "runf"@ ==> (parse_usize_spec(args) matches Ok(v) && v <= u32::MAX)
    &&& cmd == "spawn"@ ==> space_index(args) < args.len()
}

/// Index of the first space of `s`, or its length when it has none.
pub open spec fn space_index(s: Seq<char>) -> int
    decreases s.len(),
{
    if s.len() == 0 || s[0] == ' ' {
        0
    } else {
        1 + space_index(s.drop_first())
    }
}

/// The prefab of a spawn: the arguments up to their first space.
pub open spec fn spawn_prefab(args: Seq<char>) -> Seq<char> {
    args.subrange(0, space_index(args))
}

/// The name of a spawn: the arguments after their first space, up to the
/// next space.
pub open spec fn spawn_name(args: Seq<char>) -> Seq<char> {
    let rest = args.subrange(space_index(args) + 1, args.len() as int);
    rest.subrange(0, space_index(rest))
}

proof fn lemma_space_index(s: Seq<char>, i: int)
    requires
        0 <= i <= s.len(),
        forall|j: int| 0 <= j < i ==> s[j] != ' ',
        i == s.len() || s[i] == ' ',
    ensures
        space_index(s) == i,
    decreases s.len(),
{
    if s.len() > 0 && i > 0 {
        lemma_space_index(s.drop_first(), i - 1);
    }
}

/// Index of the first space of `s` at or after `from`, or the length of
/// `s` when there is none.
fn find_space(s: &str, from: usize) -> (res: usize)
    requires
        from <= s@.len(),
    ensures
        from <= res <= s@.len(),
        forall|j: int| from <= j < res ==> s@[j] != ' ',
        res == s@.len() || s@[res as int] == ' ',
{
    let n = s.unicode_len();
    let mut i = from;
    while i < n
        invariant
            n == s@.len(),
            from <= i <= n,
            forall|j: int| from <= j < i ==> s@[j] != ' ',
        decreases n - i,
    {
        if s.get_char(i) == ' ' {
            return i;
        }
        i = i + 1;
    }
    i
}

/// The prefab and the name of a spawn.
fn spawn_args(args: &str) -> (res: (String, String))
    requires
        space_index(args@) < args@.len(),
    ensures
        res.0@ == spawn_prefab(args@),
        res.1@ == spawn_name(args@),
{
    let n = args.unicode_len();
    let i = find_space(args, 0);
    proof {
        lemma_space_index(args@, i as int);
    }
    let k = find_space(args, i + 1);
    proof {
        let rest = args@.subrange(i + 1, n as int);
        lemma_space_index(rest, k - (i + 1));
        assert(rest.subrange(0, k - (i + 1)) =~= args@.subrange(i + 1, k as int));
    }
    (string_of(args.substring_char(0, i)), string_of(args.substring_char(i + 1, k)))
}

/// A frequency argument: the number given, or ten when none is.
pub open spec fn freq_of(args: Seq<char>) -> usize {
    match parse_usize_spec(args) {
        Ok(v) => v as usize,
        Err(_) => 10,
    }
}

/// The command a line asks for.
pub open spec fn command_spec(line: Seq<char>, res: ReplCommand) -> bool {
    let (cmd, args) = split_first_word_spec(line);
    if cmd == ""@ {
        res == ReplCommand::Turn
    } else if cmd == "run"@ {
        res matches ReplCommand::Run(n) && parse_i32_spec(args) == Ok::<int, crate::text::SignedParseErrorKind>(n as int)
    } else if cmd == "runf"@ {
        res matches ReplCommand::RunFast(n) && parse_usize_spec(args) matches Ok(v) && v == n
    } else if cmd == "run-freq"@ {
        res == ReplCommand::RunFreq(freq_of(args))
    } else if cmd == "runf-hz"@ {
        res == ReplCommand::RunFastHz(freq_of(args))
    } else if cmd == "ls"@ || cmd == "l"@ {
        res == ReplCommand::List
    } else if cmd == "snap"@ || cmd == "snapc"@ {
        res == ReplCommand::SnapPathHasSpaces
    } else if cmd == "init"@ {
        res == ReplCommand::Init
    } else if cmd == "help"@ {
        res == ReplCommand::Help
    } else if cmd == "cfg-list"@ {
        res == ReplCommand::CfgList
    } else if cmd == "cfg-get"@ {
        res matches ReplCommand::CfgGet(a) && a@ == args
    } else if cmd == "cfg"@ {
        res matches ReplCommand::Cfg(var, val) && (var@, val@) == split_first_word_spec(args)
    } else if cmd == "cfg-save"@ {
        res == ReplCommand::CfgSave
    } else if cmd == "cfg-reload"@ {
        res == ReplCommand::CfgReload
    } else if cmd == "show-grid"@ {
        res matches ReplCommand::ShowGrid(a) && a@ == args
    } else if cmd == "show"@ {
        res == ReplCommand::Show
    } else if cmd == "show-toggle"@ {
        res == ReplCommand::ShowToggle
    } else if cmd == "show-add"@ {
        res matches ReplCommand::ShowAdd(a) && a@ == args
    } else if cmd == "show-remove"@ {
        res matches ReplCommand::ShowRemove(a) && a@ == args
    } else if cmd == "show-clear"@ {
        res == ReplCommand::ShowClear
    } else if cmd == "history"@ {
        res == ReplCommand::History
    } else if cmd == "quit"@ {
        res == ReplCommand::Quit
    } else if cmd == "interface-set"@ {
        res matches ReplCommand::InterfaceSet(l) && l@ == line
    } else if cmd == "interface-get"@ {
        res matches ReplCommand::InterfaceGet(a) && a@ == args
    } else if cmd == "interface-list"@ {
        res == ReplCommand::InterfaceList
    } else if cmd == "model"@ {
        res == ReplCommand::Model
    } else if cmd == "disco"@ {
        res == ReplCommand::Disco
    } else if cmd == "spawn"@ {
        res matches ReplCommand::Spawn(p, n) && p@ == spawn_prefab(args) && n@ == spawn_name(args)
    } else {
        res matches ReplCommand::Unknown(l) && l@ == line
    }
}

/// Each command is read from its own command word only: whatever line is
/// read, the command it gives names the line's first word (`ls` and `l`
/// both list, `snap` and `snapc` both refuse a path with spaces), and the
/// commands that take an argument take the rest of the line.
pub proof fn lemma_command_words(line: Seq<char>, res: ReplCommand)
    requires
        command_spec(line, res),
    ensures
        ({
            let (cmd, args) = split_first_word_spec(line);
            &&& res is Turn ==> cmd == ""@
            &&& res is Run ==> cmd == "run"@
            &&& res is RunFast ==> cmd == "runf"@
            &&& res is RunFreq ==> cmd == "run-freq"@
            &&& res is RunFastHz ==> cmd == "runf-hz"@
            &&& res is List ==> cmd == "ls"@ || cmd == "l"@
            &&& res is SnapPathHasSpaces ==> cmd == "snap"@ || cmd == "snapc"@
            &&& res is Init ==> cmd == "init"@
            &&& res is Help ==> cmd == "help"@
            &&& res is CfgList ==> cmd == "cfg-list"@
            &&& res is CfgGet ==> cmd == "cfg-get"@ && res->CfgGet_0@ == args
            &&& res is Cfg ==> cmd == "cfg"@
            &&& res is CfgSave ==> cmd == "cfg-save"@
            &&& res is CfgReload ==> cmd == "cfg-reload"@
            &&& res is ShowGrid ==> cmd == "show-grid"@ && res->ShowGrid_0@ == args
            &&& res is Show ==> cmd == "show"@
            &&& res is ShowToggle ==> cmd == "show-toggle"@
            &&& res is ShowAdd ==> cmd == "show-add"@ && res->ShowAdd_0@ == args
            &&& res is ShowRemove ==> cmd == "show-remove"@ && res->ShowRemove_0@ == args
            &&& res is ShowClear ==> cmd == "show-clear"@
            &&& res is History ==> cmd == "history"@
            &&& res is Quit ==> cmd == "quit"@
            &&& res is InterfaceSet ==> cmd == "interface-set"@
            &&& res is InterfaceGet ==> cmd == "interface-get"@ && res->InterfaceGet_0@ == args
            &&& res is InterfaceList ==> cmd == "interface-list"@
            &&& res is Model ==> cmd == "model"@
            &&& res is Disco ==> cmd == "disco"@
            &&& res is Spawn ==> cmd == "spawn"@
            &&& res is Unknown ==> res->Unknown_0@ == line
        }),
{
}

fn freq_arg(args: &str) -> (res: usize)
    ensures
        res == freq_of(args@),
{
    match parse_usize(args) {
        Ok(v) => v,
        Err(_) => 10,
    }
}

/// Reads the command that a line typed at the prompt asks for.
pub fn parse_command(line: &str) -> (res: ReplCommand)
    requires
        line_ok(line@),
    ensures
        command_spec(line@, res),
{
    let (cmd, args) = split_first_word(line);
    if str_eq(cmd, "") {
        ReplCommand::Turn
    } else if str_eq(cmd, "run") {
        match parse_i32(args) {
            Ok(n) => ReplCommand::Run(n),
            Err(_) => ReplCommand::Turn,
        }
    } else if str_eq(cmd, "runf") {
        match parse_usize(args) {
            Ok(n) => ReplCommand::RunFast(n as u32),
            Err(_) => ReplCommand::Turn,
        }
    } else if str_eq(cmd, "run-freq") {
        ReplCommand::RunFreq(freq_arg(args))
    } else if str_eq(cmd, "runf-hz") {
        ReplCommand::RunFastHz(freq_arg(args))
    } else if str_eq(cmd, "ls") || str_eq(cmd, "l") {
        ReplCommand::List
    } else if str_eq(cmd, "snap") || str_eq(cmd, "snapc") {
        ReplCommand::SnapPathHasSpaces
    } else if str_eq(cmd, "init") {
        ReplCommand::Init
    } else if str_eq(cmd, "help") {
        ReplCommand::Help
    } else if str_eq(cmd, "cfg-list") {
        ReplCommand::CfgList
    } else if str_eq(cmd, "cfg-get") {
        ReplCommand::CfgGet(string_of(args))
    } else if str_eq(cmd, "cfg") {
        let (var, val) = split_first_word(args);
        ReplCommand::Cfg(string_of(var), string_of(val))
    } else if str_eq(cmd, "cfg-save") {
        ReplCommand::CfgSave
    } else if str_eq(cmd, "cfg-reload") {
        ReplCommand::CfgReload
    } else if str_eq(cmd, "show-grid") {
        ReplCommand::ShowGrid(string_of(args))
    } else if str_eq(cmd, "show") {
        ReplCommand::Show
    } else if str_eq(cmd, "show-toggle") {
        ReplCommand::ShowToggle
    } else if str_eq(cmd, "show-add") {
        ReplCommand::ShowAdd(string_of(args))
    } else if str_eq(cmd, "show-remove") {
        ReplCommand::ShowRemove(string_of(args))
    } else if str_eq(cmd, "show-clear") {
        ReplCommand::ShowClear
    } else if str_eq(cmd, "history") {
        ReplCommand::History
    } else if str_eq(cmd, "quit") {
        ReplCommand::Quit
    } else if str_eq(cmd, "interface-set") {
        ReplCommand::InterfaceSet(string_of(line))
    } else if str_eq(cmd, "interface-get") {
        ReplCommand::InterfaceGet(string_of(args))
    } else if str_eq(cmd, "interface-list") {
        ReplCommand::InterfaceList
    } else if str_eq(cmd, "model") {
        ReplCommand::Model
    } else if str_eq(cmd, "disco") {
        ReplCommand::Disco
    } else if str_eq(cmd, "spawn") {
        let (prefab, name) = spawn_args(args);
        ReplCommand::Spawn(prefab, name)
    } else {
        ReplCommand::Unknown(string_of(line))
    }
}

/// State of the interactive run loop.
#[derive(Debug, Clone, Copy, PartialEq, Eq, Structural)]
pub struct RunState {
    /// Whether a step is to be run now
    pub do_run: bool,
    /// Whether a counted run is going on
    pub do_run_loop: bool,
    /// Steps left in the counted run
    pub run_loop_count: i32,
    /// Frequency of a paced run, if one is going on
    pub do_run_freq: Option<u32>,
}

impl RunState {
    /// Nothing running.
    pub fn new() -> (res: Self)
        ensures
            !res.do_run,
            !res.do_run_loop,
            res.run_loop_count == 0,
            res.do_run_freq is None,
    {
        RunState { do_run: false, do_run_loop: false, run_loop_count: 0, do_run_freq: None }
    }

    /// Starts a counted run of `count` steps.
    pub fn start_run(&mut self, count: i32)
        ensures
            final(self).do_run_loop,
            final(self).run_loop_count == count,
            final(self).do_run == old(self).do_run,
            final(self).do_run_freq == old(self).do_run_freq,
    {
        self.do_run_loop = true;
        self.run_loop_count = count;
    }

    /// Starts a paced run at `hz` steps a second.
    pub fn start_freq(&mut self, hz: usize)
        ensures
            final(self).do_run_freq == Some(hz as u32),
            final(self).do_run_loop == old(self).do_run_loop,
            final(self).run_loop_count == old(self).run_loop_count,
            final(self).do_run == old(self).do_run,
    {
        self.do_run_freq = Some(hz as u32);
    }

    /// Advances a counted run: a step is run while steps are left; when
    /// none are, the run ends.
    pub fn tick_loop(&mut self)
        requires
            old(self).do_run_loop,
        ensures
            *final(self) == tick_spec(*old(self)),
    {
        if self.run_loop_count <= 0 {
            self.do_run = false;
            self.do_run_loop = false;
            self.run_loop_count = 0;
        } else {
            self.run_loop_count = self.run_loop_count - 1;
            self.do_run = true;
        }
    }

    /// Time between steps of a paced run at `hz` steps a second, in
    /// nanoseconds: a second divided by `hz`, as `Duration` divides.
    pub open spec fn step_interval_nanos(hz: u32) -> int {
        1_000_000_000int / (hz as int)
    }

    /// Advances a paced run, `elapsed_nanos` after the last step: a step is
    /// run when a full interval has passed. Returns whether it is, so that
    /// the time of the last step is reset.
    pub fn tick_freq(&mut self, elapsed_nanos: u128) -> (res: bool)
        requires
            old(self).do_run_freq matches Some(hz) && hz > 0,
        ensures
            res == (elapsed_nanos >= RunState::step_interval_nanos(old(self).do_run_freq->Some_0)),
            final(self).do_run == res,
            final(self).do_run_loop == old(self).do_run_loop,
            final(self).run_loop_count == old(self).run_loop_count,
            final(self).do_run_freq == old(self).do_run_freq,
    {
        let hz = match self.do_run_freq {
            Some(h) => h,
            None => 1,
        };
        let interval: u128 = 1_000_000_000u128 / (hz as u128);
        let run = elapsed_nanos >= interval;
        self.do_run = run;
        run
    }

    /// Stops whatever run is going on, as any input or interrupt does.
    pub fn stop(&mut self)
        ensures
            *final(self) == RunState::new_spec(),
    {
        self.do_run = false;
        self.do_run_freq = None;
        self.do_run_loop = false;
        self.run_loop_count = 0;
    }

    /// Whether a run is going on.
    pub fn running(&self) -> (res: bool)
        ensures
            res == (self.do_run_loop || self.do_run_freq is Some),
    {
        self.do_run_loop || self.do_run_freq.is_some()
    }
}

/// One advance of a counted run: a step is run while steps are left; when
/// none are, the run ends.
pub open spec fn tick_spec(s: RunState) -> RunState {
    if s.run_loop_count <= 0 {
        RunState { do_run: false, do_run_loop: false, run_loop_count: 0, ..s }
    } else {
        RunState { do_run: true, run_loop_count: (s.run_loop_count - 1) as i32, ..s }
    }
}

/// The state after `k` advances of a counted run.
pub open spec fn ticks(s: RunState, k: nat) -> RunState
    decreases k,
{
    if k == 0 {
        s
    } else {
        tick_spec(ticks(s, (k - 1) as nat))
    }
}

/// A counted run of `n` steps runs exactly `n` steps: each of the first `n`
/// advances runs a step and leaves the run going, and the advance after
/// them ends the run without a step.
pub proof fn lemma_run_runs_count_steps(s: RunState, k: nat)
    requires
        s.do_run_loop,
        s.run_loop_count >= 0,
        k <= s.run_loop_count,
    ensures
        ticks(s, k).do_run_loop,
        ticks(s, k).run_loop_count == s.run_loop_count - k,
        k > 0 ==> ticks(s, k).do_run,
        !ticks(s, (s.run_loop_count + 1) as nat).do_run,
        !ticks(s, (s.run_loop_count + 1) as nat).do_run_loop,
{
    lemma_run_count_at(s, k);
    lemma_run_count_at(s, s.run_loop_count as nat);
    assert(ticks(s, (s.run_loop_count + 1) as nat) == tick_spec(ticks(s, s.run_loop_count as nat)));
}

proof fn lemma_run_count_at(s: RunState, k: nat)
    requires
        s.do_run_loop,
        s.run_loop_count >= 0,
        k <= s.run_loop_count,
    ensures
        ticks(s, k).do_run_loop,
        ticks(s, k).run_loop_count == s.run_loop_count - k,
        k > 0 ==> ticks(s, k).do_run,
    decreases k,
{
    if k > 0 {
        lemma_run_count_at(s, (k - 1) as nat);
    }
}

impl RunState {
    /// The state in which nothing runs.
    pub open spec fn new_spec() -> RunState {
        RunState { do_run: false, do_run_loop: false, run_loop_count: 0, do_run_freq: None }
    }
}

/// Whether `pat` occurs in `s`.
pub open spec fn occurs_in(s: Seq<char>, pat: Seq<char>) -> bool {
    exists|i: int| 0 <= i && i + pat.len() <= s.len() && #[trigger] s.subrange(i, i + pat.len()) == pat
}

fn occurs(s: &str, pat: &str) -> (res: bool)
    ensures
        res == occurs_in(s@, pat@),
{
    let n = s.unicode_len();
    let m = pat.unicode_len();
    if m > n {
        assert forall|i: int| 0 <= i && i + pat@.len() <= s@.len() implies #[trigger] s@.subrange(i, i + pat@.len()) != pat@ by {}
        return false;
    }
    if m == 0 {
        proof {
            let i0: int = 0;
            assert(s@.subrange(i0, i0 + pat@.len()) =~= pat@);
        }
        return true;
    }
    let mut i: usize = 0;
    while i <= n - m
        invariant
            n == s@.len(),
            m == pat@.len(),
            1 <= m <= n,
            i <= n - m + 1,
            forall|j: int| 0 <= j < i ==> #[trigger] s@.subrange(j, j + m) != pat@,
        decreases n - m + 1 - i,
    {
        let part = s.substring_char(i, i + m);
        if crate::text::str_eq(part, pat) {
            return true;
        }
        i = i + 1;
    }
    false
}

/// What a change to the project files asks for: `restart` (the default)
/// restarts the session, `update` updates the model; anything else is not a
/// change action.
pub fn watch_action(arg: Option<&str>) -> (res: core::result::Result<OnChangeAction, String>)
    ensures
        match arg {
            None => res == Ok::<OnChangeAction, String>(OnChangeAction::Restart),
            Some(a) => if a@ == "restart"@ {
                res == Ok::<OnChangeAction, String>(OnChangeAction::Restart)
            } else if a@ == "update"@ {
                res == Ok::<OnChangeAction, String>(OnChangeAction::UpdateModel)
            } else {
                res matches Err(m) && m@ == "not recognized change action for `watch`: "@ + a@
            },
        },
{
    match arg {
        None => Ok(OnChangeAction::Restart),
        Some(a) => {
            if str_eq(a, "restart") {
                Ok(OnChangeAction::Restart)
            } else if str_eq(a, "update") {
                Ok(OnChangeAction::UpdateModel)
            } else {
                let mut m = string_of("not recognized change action for `watch`: ");
                m.append(a);
                Err(m)
            }
        },
    }
}

/// Whether a change to the given paths counts: changes under a build
/// directory, a path holding `target`, are ignored.
pub fn change_counts(paths: &Vec<String>) -> (res: bool)
    ensures
        res == !exists|i: int| 0 <= i < paths@.len() && occurs_in(#[trigger] paths@[i]@, "target"@),
{
    let mut i: usize = 0;
    while i < paths.len()
        invariant
            i <= paths@.len(),
            forall|j: int| 0 <= j < i ==> !occurs_in(#[trigger] paths@[j]@, "target"@),
        decreases paths@.len() - i,
    {
        if occurs(paths[i].as_str(), "target") {
            return false;
        }
        i = i + 1;
    }
    true
}

/// What a run of the command line starts from.
#[derive(Debug, Clone, Copy, PartialEq, Eq, Structural)]
pub enum RunTarget {
    /// The model at the given path
    Model,
    /// The snapshot at the given path
    Snapshot,
    /// The model whose root holds the given path
    ModelRoot,
}

/// What to run, given whether a scenario and a snapshot are named and, for
/// a path naming both, whether it is a file with the `toml` extension.
pub fn run_target(scenario_given: bool, snapshot_given: bool, is_file: bool, is_toml: bool) -> (res: RunTarget)
    ensures
        !scenario_given ==> res == RunTarget::Model,
        scenario_given && !snapshot_given ==> res == RunTarget::Snapshot,
        scenario_given && snapshot_given && is_file ==> res == (if is_toml { RunTarget::Model } else { RunTarget::Snapshot }),
        scenario_given && snapshot_given && !is_file ==> res == RunTarget::ModelRoot,
{
    if !scenario_given {
        RunTarget::Model
    } else if !snapshot_given {
        RunTarget::Snapshot
    } else if is_file {
        if is_toml {
            RunTarget::Model
        } else {
            RunTarget::Snapshot
        }
    } else {
        RunTarget::ModelRoot
    }
}

/// Position of the first `{}` in `s` at or after `from`.
pub open spec fn first_slot_from(s: Seq<char>, from: int) -> Option<int>
    decreases s.len() - from,
{
    if from < 0 || from + 1 >= s.len() {
        None
    } else if s[from] == '{' && s[from + 1] == '}' {
        Some(from)
    } else {
        first_slot_from(s, from + 1)
    }
}

/// Number of `{}` slots in `s` at or after `from`, counted left to right.
pub open spec fn slot_count_from(s: Seq<char>, from: int) -> nat
    decreases s.len() - from,
{
    match first_slot_from(s, from) {
        None => 0,
        Some(p) => if p >= from && p + 2 <= s.len() {
            1 + slot_count_from(s, p + 2)
        } else {
            0
        },
    }
}

/// `s` with its first `{}` replaced by `v`, as `str::replacen` with a count
/// of one does.
pub open spec fn replace_first_slot(s: Seq<char>, v: Seq<char>) -> Seq<char> {
    match first_slot_from(s, 0) {
        None => s,
        Some(p) => s.subrange(0, p) + v + s.subrange(p + 2, s.len() as int),
    }
}

/// `s` with the values put, one after the other, in place of the first `{}`.
pub open spec fn fill_slots(s: Seq<char>, values: Seq<Seq<char>>) -> Seq<char>
    decreases values.len(),
{
    if values.len() == 0 {
        s
    } else {
        fill_slots(replace_first_slot(s, values[0]), values.drop_first())
    }
}

/// The prompt: the clock in brackets when no format is set, when a value
/// is missing, or when the format does not hold one `{}` for each value;
/// otherwise the format in brackets with the values in its slots.
pub open spec fn prompt_spec(format: Seq<char>, values: Option<Seq<Seq<char>>>, clock: nat) -> Seq<char> {
    let default = "["@ + decimal(clock) + "] "@;
    if format.len() == 0 {
        default
    } else {
        match values {
            None => default,
            Some(vs) => if slot_count_from(format, 0) != vs.len() {
                default
            } else {
                fill_slots("["@ + format + "] "@, vs)
            },
        }
    }
}

proof fn lemma_first_slot_bounds(s: Seq<char>, from: int)
    requires
        from >= 0,
    ensures
        first_slot_from(s, from) matches Some(p) ==> from <= p && p + 2 <= s.len() && s[p] == '{' && s[p + 1] == '}'
            && forall|j: int| from <= j < p ==> !(s[j] == '{' && #[trigger] s[j + 1] == '}'),
        first_slot_from(s, from) is None ==> forall|j: int| from <= j && j + 1 < s.len() ==> !(s[j] == '{' && #[trigger] s[j + 1] == '}'),
    decreases s.len() - from,
{
    if !(from < 0 || from + 1 >= s.len()) && !(s[from] == '{' && s[from + 1] == '}') {
        lemma_first_slot_bounds(s, from + 1);
    }
}

/// Position of the first `{}` in `s` at or after `from`.
fn find_slot(s: &str, from: usize) -> (res: Option<usize>)
    requires
        from <= s@.len(),
    ensures
        match res {
            Some(p) => first_slot_from(s@, from as int) == Some(p as int),
            None => first_slot_from(s@, from as int) is None,
        },
{
    let n = s.unicode_len();
    let mut i = from;
    while n > 0 && i < n - 1
        invariant
            n == s@.len(),
            from <= i <= n,
            first_slot_from(s@, from as int) == first_slot_from(s@, i as int),
        decreases n - i,
    {
        if s.get_char(i) == '{' && s.get_char(i + 1) == '}' {
            return Some(i);
        }
        i = i + 1;
    }
    None
}

fn count_slots(s: &str) -> (res: usize)
    ensures
        res == slot_count_from(s@, 0),
{
    let n = s.unicode_len();
    let mut count: usize = 0;
    let mut from: usize = 0;
    while from <= n
        invariant
            n == s@.len(),
            count <= from,
            count + slot_count_from(s@, from as int) == slot_count_from(s@, 0),
        decreases n + 1 - from,
    {
        match find_slot(s, from) {
            Some(p) => {
                proof {
                    lemma_first_slot_bounds(s@, from as int);
                }
                count = count + 1;
                from = p + 2;
            },
            None => {
                return count;
            },
        }
    }
    count
}

fn replace_first(s: String, v: &str) -> (res: String)
    ensures
        res@ == replace_first_slot(s@, v@),
{
    match find_slot(s.as_str(), 0) {
        None => s,
        Some(p) => {
            proof {
                lemma_first_slot_bounds(s@, 0);
            }
            let n = s.as_str().unicode_len();
            let mut out = string_of(s.as_str().substring_char(0, p));
            out.append(v);
            out.append(s.as_str().substring_char(p + 2, n));
            out
        },
    }
}

/// Builds the prompt of the interactive command line from the configured
/// format, the values of its variables (none when one could not be read),
/// and the clock.
pub fn create_prompt(format: &str, values: Option<&Vec<String>>, clock: usize) -> (res: String)
    ensures
        res@ == prompt_spec(format@, match values {
            Some(v) => Some(crate::text::views(v@)),
            None => None,
        }, clock as nat),
{
    let mut default = string_of("[");
    crate::text::push_decimal(&mut default, clock);
    default.append("] ");
    if format.unicode_len() == 0 {
        return default;
    }
    let vs = match values {
        Some(v) => v,
        None => return default,
    };
    if count_slots(format) != vs.len() {
        return default;
    }
    let mut out = string_of("[");
    out.append(format);
    out.append("] ");
    let ghost all = crate::text::views(vs@);
    assert(out@ == "["@ + format@ + "] "@);
    assert(all.skip(0) =~= all);
    let mut i: usize = 0;
    while i < vs.len()
        invariant
            all == crate::text::views(vs@),
            i <= vs@.len(),
            fill_slots("["@ + format@ + "] "@, all) == fill_slots(out@, all.skip(i as int)),
        decreases vs@.len() - i,
    {
        assert(all.skip(i as int).drop_first() =~= all.skip(i + 1));
        assert(all.skip(i as int)[0] == vs@[i as int]@);
        out = replace_first(out, vs[i].as_str());
        i = i + 1;
    }
    assert(all.skip(vs@.len() as int) =~= Seq::<Seq<char>>::empty());
    out
}

/// Length in bytes of a text, as `str::len` gives it.
pub open spec fn byte_len(s: Seq<char>) -> nat {
    (vstd::utf8::encode_utf8(s).len() as usize) as nat
}

/// Length in bytes of the longest of the texts.
pub open spec fn widest(list: Seq<String>) -> nat
    decreases list.len(),
{
    if list.len() == 0 {
        0
    } else {
        let rest = widest(list.drop_last());
        let last = byte_len(list.last()@);
        if last > rest {
            last
        } else {
            rest
        }
    }
}

/// Length in bytes of the longest address of the show list.
pub fn widest_addr(list: &Vec<String>) -> (res: usize)
    ensures
        res == widest(list@),
{
    let mut longest: usize = 0;
    let mut i: usize = 0;
    while i < list.len()
        invariant
            i <= list@.len(),
            longest == widest(list@.take(i as int)),
        decreases list@.len() - i,
    {
        assert(list@.take(i + 1).drop_last() =~= list@.take(i as int));
        assert(list@.take(i + 1).last() == list@[i as int]);
        let text = list[i].as_str();
        let len = text.len();
        assert(len == byte_len(list@[i as int]@));
        if len > longest {
            longest = len;
        }
        i = i + 1;
    }
    assert(list@.take(list@.len() as int) =~= list@);
    longest
}

/// `n` spaces.
pub open spec fn spaces(n: nat) -> Seq<char> {
    Seq::new(n, |i: int| ' ')
}

/// A line of the show list: the address, enough spaces to line the values
/// up six places after the widest address, and the value.
pub fn show_line(addr: &str, widest: usize, value: &str) -> (res: String)
    requires
        byte_len(addr@) <= widest,
        widest + 6 <= usize::MAX,
    ensures
        res@ == addr@ + spaces((widest - byte_len(addr@) + 6) as nat) + value@,
{
    let diff = widest - addr.len() + 6;
    let mut out = string_of(addr);
    let ghost start = out@;
    let mut i: usize = 0;
    while i < diff
        invariant
            i <= diff,
            out@ == start + spaces(i as nat),
        decreases diff - i,
    {
        crate::text::push_char(&mut out, ' ');
        assert(out@ =~= start + spaces((i + 1) as nat));
        i = i + 1;
    }
    out.append(value);
    out
}

} // verus!
