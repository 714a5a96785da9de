//! The command lines the application asks the tool to run, what it does with their
//! output, and the effects that the state machine hands to the surrounding program.

use vstd::prelude::*;
use crate::locations::{Location, LocationView};
use crate::options::IpVersion;
use crate::text::{has_prefix, lines, split_lines, starts_with, trim, trimmed};

verus! {

broadcast use vstd::string::group_string_axioms;

/// Which message the output of a command comes back as.
#[derive(Debug, Clone, Copy, PartialEq, Eq, Structural)]
pub enum Reply {
    Status,
    Locations,
    Connect,
    Disconnect,
    Logout,
    License,
    Config,
    ClearSocks,
    ExclMode,
    Exclusions,
    ExclAction,
    Update,
    ExportLogs,
}

/// One run of the tool: its arguments, and the message its output comes back as.
#[derive(Debug)]
pub struct CliCall {
    pub args: Vec<String>,
    pub reply: Reply,
}

/// The model of a `CliCall`.
pub struct CallView {
    pub args: Seq<Seq<char>>,
    pub reply: Reply,
}

impl View for CliCall {
    type V = CallView;

    open spec fn view(&self) -> CallView {
        CallView { args: self.args.deep_view(), reply: self.reply }
    }
}

impl DeepView for CliCall {
    type V = CallView;

    open spec fn deep_view(&self) -> CallView {
        self@
    }
}

/// What the surrounding program is asked to do after a step of the state machine.
#[derive(Debug)]
pub enum Effect {
    /// Nothing.
    Nothing,
    /// Run the tool once and hand its output back as the call's reply.
    Run(CliCall),
    /// Run the tool once per call, independently, each output handed back as its reply.
    RunAll(Vec<CliCall>),
    /// Run the tool with each argument list in turn, then hand back all the outputs,
    /// in order, as `Message::SettingsResults`.
    ApplySettings(Vec<Vec<String>>),
    /// Try to start the command line (program, then arguments), then hand back
    /// `Message::TerminalSpawned` with the attempt's number and whether it started.
    SpawnTerminal { command: Vec<String>, attempt: usize },
}

/// The model of an `Effect`.
pub enum EffectView {
    Nothing,
    Run(CallView),
    RunAll(Seq<CallView>),
    ApplySettings(Seq<Seq<Seq<char>>>),
    SpawnTerminal(Seq<Seq<char>>, usize),
}

impl View for Effect {
    type V = EffectView;

    open spec fn view(&self) -> EffectView {
        match self {
            Effect::Nothing => EffectView::Nothing,
            Effect::Run(c) => EffectView::Run(c@),
            Effect::RunAll(cs) => EffectView::RunAll(cs.deep_view()),
            Effect::ApplySettings(cmds) => EffectView::ApplySettings(cmds.deep_view()),
            Effect::SpawnTerminal { command, attempt } => EffectView::SpawnTerminal(
                command.deep_view(),
                *attempt,
            ),
        }
    }
}

/// The effect of running the tool once with `args`.
pub open spec fn run(args: Seq<Seq<char>>, reply: Reply) -> EffectView {
    EffectView::Run(CallView { args, reply })
}

/// A list of one argument.
pub fn args1(a: &str) -> (r: Vec<String>)
    ensures
        r.deep_view() == seq![a@],
{
    let mut r = Vec::new();
    r.push(String::from_str(a));
    assert(r.deep_view() =~= seq![a@]);
    r
}

/// A list of two arguments.
pub fn args2(a: &str, b: &str) -> (r: Vec<String>)
    ensures
        r.deep_view() == seq![a@, b@],
{
    let mut r = Vec::new();
    r.push(String::from_str(a));
    r.push(String::from_str(b));
    assert(r.deep_view() =~= seq![a@, b@]);
    r
}

/// A list of three arguments.
pub fn args3(a: &str, b: &str, c: &str) -> (r: Vec<String>)
    ensures
        r.deep_view() == seq![a@, b@, c@],
{
    let mut r = Vec::new();
    r.push(String::from_str(a));
    r.push(String::from_str(b));
    r.push(String::from_str(c));
    assert(r.deep_view() =~= seq![a@, b@, c@]);
    r
}

/// A list of four arguments.
pub fn args4(a: &str, b: &str, c: &str, d: &str) -> (r: Vec<String>)
    ensures
        r.deep_view() == seq![a@, b@, c@, d@],
{
    let mut r = Vec::new();
    r.push(String::from_str(a));
    r.push(String::from_str(b));
    r.push(String::from_str(c));
    r.push(String::from_str(d));
    assert(r.deep_view() =~= seq![a@, b@, c@, d@]);
    r
}

/// Adds `a` at the end of `args`.
pub fn push_arg(args: &mut Vec<String>, a: &str)
    ensures
        final(args).deep_view() == old(args).deep_view().push(a@),
{
    let ghost before = args.deep_view();
    args.push(String::from_str(a));
    assert(args.deep_view() =~= before.push(a@));
}

/// The arguments of a `config` subcommand: `config` then `args`.
pub open spec fn config_command(args: Seq<Seq<char>>) -> Seq<Seq<char>> {
    seq!["config"@] + args
}

/// Prefixes `args` with `config`, the tool's command for settings.
pub fn config_args(args: Vec<String>) -> (r: Vec<String>)
    ensures
        r.deep_view() == config_command(args.deep_view()),
{
    let mut r = args1("config");
    let mut i: usize = 0;
    while i < args.len()
        invariant
            i <= args.len(),
            r.deep_view() == config_command(args.deep_view().take(i as int)),
        decreases args.len() - i,
    {
        let ghost before = r.deep_view();
        r.push(args[i].clone());
        assert(r.deep_view() =~= before.push(args[i as int]@));
        assert(config_command(args.deep_view().take(i + 1)) =~= config_command(
            args.deep_view().take(i as int),
        ).push(args[i as int]@));
        i = i + 1;
    }
    assert(args.deep_view().take(args.len() as int) =~= args.deep_view());
    r
}

/// `⚠ ` then `err`: how an error text of the tool is shown.
pub open spec fn warning(err: Seq<char>) -> Seq<char> {
    "⚠ "@ + err
}

/// Builds `warning(err)`.
pub fn warning_text(err: &str) -> (r: String)
    ensures
        r@ == warning(err@),
{
    let mut r = String::from_str("⚠ ");
    r.append(err);
    r
}

/// How the output of one run is logged: the standard output and a line break when it
/// is not empty, then the warning of the error output and a line break when that is
/// not empty.
pub open spec fn report(out: Seq<char>, err: Seq<char>) -> Seq<char> {
    (if out.len() > 0 {
        out + "\n"@
    } else {
        seq![]
    }) + (if err.len() > 0 {
        warning(err) + "\n"@
    } else {
        seq![]
    })
}

/// Appends `report(out, err)` to `log`.
pub fn append_report(log: &mut String, out: &str, err: &str)
    ensures
        final(log)@ == old(log)@ + report(out@, err@),
{
    if !out.is_empty() {
        log.append(out);
        log.append("\n");
    }
    if !err.is_empty() {
        log.append("⚠ ");
        log.append(err);
        log.append("\n");
    }
    assert(log@ =~= old(log)@ + report(out@, err@));
}

/// The reports of several runs, one after the other.
pub open spec fn combined(results: Seq<(Seq<char>, Seq<char>)>) -> Seq<char>
    decreases results.len(),
{
    if results.len() == 0 {
        seq![]
    } else {
        combined(results.drop_last()) + report(results.last().0, results.last().1)
    }
}

/// The text shown after the settings were applied: the reports of all the runs, in
/// order. Each result is the standard output and the error output of one run.
pub fn combine_outputs(results: &Vec<(String, String)>) -> (r: String)
    ensures
        r@ == combined(results.deep_view()),
{
    let ghost rv = results.deep_view();
    let mut r = String::new();
    let mut i: usize = 0;
    assert(rv.take(0) =~= Seq::<(Seq<char>, Seq<char>)>::empty());
    while i < results.len()
        invariant
            rv == results.deep_view(),
            i <= results.len(),
            r@ == combined(rv.take(i as int)),
        decreases results.len() - i,
    {
        assert(rv.take(i + 1).drop_last() =~= rv.take(i as int));
        assert(rv.take(i + 1).last() == rv[i as int]);
        append_report(&mut r, results[i].0.as_str(), results[i].1.as_str());
        i = i + 1;
    }
    assert(rv.take(results.len() as int) =~= rv);
    r
}

/// The arguments of `connect`: `-f` for the fastest location, else `-l` and the code
/// of the chosen location if there is one; then `-4` or `-6` for a restricted IP
/// version.
pub open spec fn connect_command(
    fastest: bool,
    selected: Option<LocationView>,
    ip: IpVersion,
) -> Seq<Seq<char>> {
    seq!["connect"@] + (if fastest {
        seq!["-f"@]
    } else {
        match selected {
            Some(l) => seq!["-l"@, l.iso],
            None => seq![],
        }
    }) + match ip {
        IpVersion::IPv4 => seq!["-4"@],
        IpVersion::IPv6 => seq!["-6"@],
        IpVersion::Default => seq![],
    }
}

/// Builds the arguments of `connect` (see `connect_command`).
pub fn connect_args(fastest: bool, selected: &Option<Location>, ip: IpVersion) -> (r: Vec<
    String,
>)
    ensures
        r.deep_view() == connect_command(fastest, selected.deep_view(), ip),
{
    let mut args = args1("connect");
    if fastest {
        push_arg(&mut args, "-f");
    } else {
        match selected {
            Some(loc) => {
                push_arg(&mut args, "-l");
                push_arg(&mut args, loc.iso.as_str());
            },
            None => {},
        }
    }
    match ip {
        IpVersion::IPv4 => push_arg(&mut args, "-4"),
        IpVersion::IPv6 => push_arg(&mut args, "-6"),
        IpVersion::Default => {},
    }
    assert(args.deep_view() =~= connect_command(fastest, selected.deep_view(), ip));
    args
}

/// The entries that `site-exclusions show` lists in the lines `ls`: each line trimmed,
/// keeping those that are not empty and do not start with `--`.
pub open spec fn exclusions_in(ls: Seq<Seq<char>>) -> Seq<Seq<char>>
    decreases ls.len(),
{
    if ls.len() == 0 {
        seq![]
    } else {
        let before = exclusions_in(ls.drop_last());
        let t = trimmed(ls.last());
        if t.len() > 0 && !has_prefix(t, "--"@) {
            before.push(t)
        } else {
            before
        }
    }
}

/// The entries that an output of `site-exclusions show` lists.
pub open spec fn exclusions_listed(output: Seq<char>) -> Seq<Seq<char>> {
    exclusions_in(lines(output))
}

/// Reads the entries of an output of `site-exclusions show`, in order.
pub fn parse_exclusions(output: &str) -> (r: Vec<String>)
    ensures
        r.deep_view() == exclusions_listed(output@),
        forall|i: int|
            0 <= i < r.len() ==> {
                &&& #[trigger] r[i]@.len() > 0
                &&& trimmed(r[i]@) == r[i]@
                &&& !has_prefix(r[i]@, "--"@)
            },
{
    let ls = split_lines(output);
    let ghost lv = ls.deep_view();
    let mut r: Vec<String> = Vec::new();
    let mut i: usize = 0;
    assert(lv.take(0) =~= Seq::<Seq<char>>::empty());
    while i < ls.len()
        invariant
            lv == ls.deep_view(),
            lv == lines(output@),
            i <= ls.len(),
            r.deep_view() == exclusions_in(lv.take(i as int)),
            forall|j: int|
                0 <= j < r.len() ==> {
                    &&& #[trigger] r[j]@.len() > 0
                    &&& trimmed(r[j]@) == r[j]@
                    &&& !has_prefix(r[j]@, "--"@)
                },
        decreases ls.len() - i,
    {
        assert(lv.take(i + 1).drop_last() =~= lv.take(i as int));
        assert(lv.take(i + 1).last() == ls[i as int]@);
        let t = trim(ls[i].as_str());
        proof {
            lemma_trimmed_idempotent(ls[i as int]@);
        }
        if !t.as_str().is_empty() && !starts_with(t.as_str(), "--") {
            let ghost before = r.deep_view();
            r.push(t);
            assert(r.deep_view() =~= before.push(trimmed(ls[i as int]@)));
        }
        i = i + 1;
    }
    assert(lv.take(ls.len() as int) =~= lv);
    r
}

/// Trimming a trimmed text changes nothing.
pub proof fn lemma_trimmed_idempotent(s: Seq<char>)
    ensures
        trimmed(trimmed(s)) == trimmed(s),
{
    crate::text::lemma_trimmed_shape(s);
    crate::text::lemma_trimmed_fixed(trimmed(s));
}

/// The login commands tried in turn, each a program and its arguments: terminal
/// emulators that run `adguardvpn-cli login`.
pub open spec fn terminal_commands() -> Seq<Seq<Seq<char>>> {
    seq![
        seq!["konsole"@, "-e"@, "adguardvpn-cli login"@],
        seq!["kitty"@, "--"@, "adguardvpn-cli"@, "login"@],
        seq!["alacritty"@, "-e"@, "adguardvpn-cli"@, "login"@],
        seq!["gnome-terminal"@, "--"@, "adguardvpn-cli"@, "login"@],
        seq!["xfce4-terminal"@, "-e"@, "adguardvpn-cli login"@],
        seq!["xterm"@, "-e"@, "adguardvpn-cli"@, "login"@],
    ]
}

/// The number of login command lines.
pub const TERMINAL_COUNT: usize = 6;

/// Builds login command line number `i` of `terminal_commands`.
pub fn terminal_command(i: usize) -> (r: Vec<String>)
    requires
        i < terminal_commands().len(),
    ensures
        r.deep_view() == terminal_commands()[i as int],
        r.len() >= 3,
{
    let r = match i {
        0 => args3("konsole", "-e", "adguardvpn-cli login"),
        1 => args4("kitty", "--", "adguardvpn-cli", "login"),
        2 => args4("alacritty", "-e", "adguardvpn-cli", "login"),
        3 => args4("gnome-terminal", "--", "adguardvpn-cli", "login"),
        4 => args3("xfce4-terminal", "-e", "adguardvpn-cli login"),
        _ => args4("xterm", "-e", "adguardvpn-cli", "login"),
    };
    assert(r.deep_view().len() == r.len());
    r
}

/// The home directory used for `~`: the given one, else `/root`.
pub open spec fn home_dir(home: Option<Seq<char>>) -> Seq<char> {
    match home {
        Some(h) => h,
        None => "/root"@,
    }
}

/// `path` with a leading `~` replaced by the home directory.
pub open spec fn expanded_path(path: Seq<char>, home: Option<Seq<char>>) -> Seq<char> {
    if path.len() > 0 && path[0] == '~' {
        home_dir(home) + path.drop_first()
    } else {
        path
    }
}

/// Replaces a leading `~` of `path` by `home`, or by `/root` when no home is known.
pub fn expand_home(path: &str, home: &Option<String>) -> (r: String)
    ensures
        r@ == expanded_path(path@, home.deep_view()),
{
    if starts_with(path, "~") {
        proof {
            reveal_strlit("~");
            assert(path@[0] == path@.take(1)[0]);
        }
        let mut r = match home {
            Some(h) => h.clone(),
            None => String::from_str("/root"),
        };
        let n = path.unicode_len();
        r.append(path.substring_char(1, n));
        assert(path@.subrange(1, n as int) =~= path@.drop_first());
        r
    } else {
        proof {
            reveal_strlit("~");
            if path@.len() > 0 && path@[0] == '~' {
                assert(path@.take(1) =~= "~"@);
            }
        }
        String::from_str(path)
    }
}

} // verus!
