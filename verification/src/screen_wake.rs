//! Waking the screen ahead of a capture.
//!
//! A capture gets no frames while the screen is in standby. On Wayland the compositor's own
//! ways come first; the X11 display that is there as well says nothing about the real
//! screens. `ST_WAKE_ON_CONNECT` switches all of this off.

use vstd::prelude::*;
use crate::text::{concat2, concat3, join, joined, same_text, texts};
use crate::transport::{enabled_by_default, on_by_default, text_of};

verus! {

/// What the environment says about the session.
#[derive(Clone, Copy, Debug)]
pub struct WakeEnv<'a> {
    /// `ST_WAKE_ON_CONNECT`.
    pub wake_on_connect: Option<&'a str>,
    /// That `WAYLAND_DISPLAY` is set.
    pub wayland_display: bool,
    /// `XDG_SESSION_TYPE`.
    pub session_type: Option<&'a str>,
    /// That `DISPLAY` is set.
    pub display: bool,
}

impl<'a> WakeEnv<'a> {
    /// That the session is one of Wayland.
    pub open spec fn wayland(self) -> bool {
        self.wayland_display || text_of(self.session_type) == Some("wayland"@)
    }
}

/// What came of a command.
#[derive(Debug)]
pub enum CommandResult {
    /// It is not there.
    Missing,
    /// It failed, and the status it ended with.
    Failed(String),
    Succeeded,
}

/// What was tried so far.
#[derive(Debug)]
pub struct WakeProgress {
    pub dbus: Vec<CommandResult>,
    pub cli: Vec<CommandResult>,
    pub x11: Option<Result<(), String>>,
}

impl WakeProgress {
    /// Nothing was tried yet.
    pub fn new() -> (out: Self)
        ensures
            out.dbus@.len() == 0,
            out.cli@.len() == 0,
            out.x11 is None,
    {
        WakeProgress { dbus: Vec::new(), cli: Vec::new(), x11: None }
    }
}

/// What to do next.
#[derive(Debug, PartialEq, Eq)]
pub enum WakeStep {
    /// Run the D-Bus command of this number.
    RunDbus(usize),
    /// Run the compositor command of this number.
    RunCli(usize),
    /// Force the X11 display on.
    ForceX11,
    /// The screen is awake, by this.
    Woken(&'static str),
    /// Nothing worked, and why.
    GaveUp(String),
    /// There is nothing to do.
    Idle,
}

/// The same as a value of mathematics.
pub ghost enum WakeStepView {
    RunDbus(int),
    RunCli(int),
    ForceX11,
    Woken(Seq<char>),
    GaveUp(Seq<char>),
    Idle,
}

impl View for WakeStep {
    type V = WakeStepView;

    open spec fn view(&self) -> WakeStepView {
        match self {
            WakeStep::RunDbus(i) => WakeStepView::RunDbus(*i as int),
            WakeStep::RunCli(i) => WakeStepView::RunCli(*i as int),
            WakeStep::ForceX11 => WakeStepView::ForceX11,
            WakeStep::Woken(by) => WakeStepView::Woken(by@),
            WakeStep::GaveUp(why) => WakeStepView::GaveUp(why@),
            WakeStep::Idle => WakeStepView::Idle,
        }
    }
}

/// The number of D-Bus commands.
pub const DBUS_COMMANDS: usize = 3;

/// The number of compositor commands.
pub const CLI_COMMANDS: usize = 4;

/// The words of a list of string slices.
pub open spec fn words(list: Seq<&'static str>) -> Seq<Seq<char>> {
    list.map_values(|w: &'static str| w@)
}

/// A D-Bus command, with its program first.
pub open spec fn dbus_words(index: int) -> Seq<Seq<char>> {
    if index == 0 {
        seq![
            "dbus-send"@,
            "--session"@,
            "--type=method_call"@,
            "--dest=org.freedesktop.ScreenSaver"@,
            "/org/freedesktop/ScreenSaver"@,
            "org.freedesktop.ScreenSaver.SimulateUserActivity"@,
        ]
    } else if index == 1 {
        seq![
            "gdbus"@,
            "call"@,
            "--session"@,
            "--dest"@,
            "org.freedesktop.ScreenSaver"@,
            "--object-path"@,
            "/org/freedesktop/ScreenSaver"@,
            "--method"@,
            "org.freedesktop.ScreenSaver.SimulateUserActivity"@,
        ]
    } else {
        seq![
            "busctl"@,
            "--user"@,
            "call"@,
            "org.freedesktop.ScreenSaver"@,
            "/org/freedesktop/ScreenSaver"@,
            "org.freedesktop.ScreenSaver"@,
            "SimulateUserActivity"@,
        ]
    }
}

/// A D-Bus command that tells the screen saver of user activity, with its program first.
pub fn dbus_command(index: usize) -> (out: Vec<&'static str>)
    requires
        index < DBUS_COMMANDS,
    ensures
        words(out@) == dbus_words(index as int),
{
    let out: Vec<&'static str> = if index == 0 {
        vec![
            "dbus-send",
            "--session",
            "--type=method_call",
            "--dest=org.freedesktop.ScreenSaver",
            "/org/freedesktop/ScreenSaver",
            "org.freedesktop.ScreenSaver.SimulateUserActivity",
        ]
    } else if index == 1 {
        vec![
            "gdbus",
            "call",
            "--session",
            "--dest",
            "org.freedesktop.ScreenSaver",
            "--object-path",
            "/org/freedesktop/ScreenSaver",
            "--method",
            "org.freedesktop.ScreenSaver.SimulateUserActivity",
        ]
    } else {
        vec![
            "busctl",
            "--user",
            "call",
            "org.freedesktop.ScreenSaver",
            "/org/freedesktop/ScreenSaver",
            "org.freedesktop.ScreenSaver",
            "SimulateUserActivity",
        ]
    };
    proof {
        assert(words(out@) =~= dbus_words(index as int));
    }
    out
}

/// What a compositor command is called.
pub open spec fn cli_name(index: int) -> Seq<char> {
    if index == 0 {
        "hyprctl dispatch dpms on"@
    } else if index == 1 {
        "swaymsg output * power on"@
    } else if index == 2 {
        "wlopm --on '*'"@
    } else {
        "kscreen-doctor output.*.enable"@
    }
}

/// A compositor command, with its program first.
pub open spec fn cli_words(index: int) -> Seq<Seq<char>> {
    if index == 0 {
        seq!["hyprctl"@, "dispatch"@, "dpms"@, "on"@]
    } else if index == 1 {
        seq!["swaymsg"@, "output"@, "*"@, "power"@, "on"@]
    } else if index == 2 {
        seq!["wlopm"@, "--on"@, "*"@]
    } else {
        seq!["kscreen-doctor"@, "output.*.enable"@]
    }
}

/// What a compositor command is called.
pub fn cli_label(index: usize) -> (out: &'static str)
    requires
        index < CLI_COMMANDS,
    ensures
        out@ == cli_name(index as int),
{
    if index == 0 {
        "hyprctl dispatch dpms on"
    } else if index == 1 {
        "swaymsg output * power on"
    } else if index == 2 {
        "wlopm --on '*'"
    } else {
        "kscreen-doctor output.*.enable"
    }
}

/// A command that switches the screens of a compositor on, with its program first.
pub fn cli_command(index: usize) -> (out: Vec<&'static str>)
    requires
        index < CLI_COMMANDS,
    ensures
        words(out@) == cli_words(index as int),
{
    let out: Vec<&'static str> = if index == 0 {
        vec!["hyprctl", "dispatch", "dpms", "on"]
    } else if index == 1 {
        vec!["swaymsg", "output", "*", "power", "on"]
    } else if index == 2 {
        vec!["wlopm", "--on", "*"]
    } else {
        vec!["kscreen-doctor", "output.*.enable"]
    };
    proof {
        assert(words(out@) =~= cli_words(index as int));
    }
    out
}

/// The first command of a list that succeeded, and its length where none did.
pub open spec fn first_success(results: Seq<CommandResult>, from: int) -> int
    decreases results.len() - from,
{
    if from < 0 || from >= results.len() {
        results.len() as int
    } else if results[from] is Succeeded {
        from
    } else {
        first_success(results, from + 1)
    }
}

fn find_success(results: &Vec<CommandResult>) -> (at: usize)
    ensures
        at == first_success(results@, 0),
        at <= results@.len(),
{
    let mut i: usize = 0;
    while i < results.len()
        invariant
            i <= results@.len(),
            first_success(results@, 0) == first_success(results@, i as int),
        decreases results@.len() - i,
    {
        match &results[i] {
            CommandResult::Succeeded => {
                return i;
            },
            _ => {},
        }
        i = i + 1;
    }
    i
}

/// What the compositor commands that failed say, each under its name.
pub open spec fn cli_failures(results: Seq<CommandResult>, n: int) -> Seq<Seq<char>>
    decreases n,
{
    if n <= 0 {
        Seq::empty()
    } else {
        let rest = cli_failures(results, n - 1);
        match results[n - 1] {
            CommandResult::Failed(status) => rest.push(cli_name(n - 1) + ": exit "@ + status@),
            _ => rest,
        }
    }
}

/// Why no compositor command worked.
pub open spec fn cli_reason(results: Seq<CommandResult>) -> Seq<char> {
    let failures = cli_failures(results, CLI_COMMANDS as int);
    if failures.len() == 0 {
        "no compositor CLI tool available"@
    } else {
        joined(failures, "; "@)
    }
}

fn explain_cli(results: &Vec<CommandResult>) -> (out: String)
    requires
        results@.len() >= CLI_COMMANDS,
    ensures
        out@ == cli_reason(results@),
{
    let mut failures: Vec<String> = Vec::new();
    let mut i: usize = 0;
    proof {
        assert(texts(failures@) =~= cli_failures(results@, 0));
    }
    while i < CLI_COMMANDS
        invariant
            i <= CLI_COMMANDS,
            results@.len() >= CLI_COMMANDS,
            texts(failures@) == cli_failures(results@, i as int),
        decreases CLI_COMMANDS - i,
    {
        match &results[i] {
            CommandResult::Failed(status) => {
                let text = concat3(cli_label(i), ": exit ", status.as_str());
                let ghost before = texts(failures@);
                let ghost line = text@;
                failures.push(text);
                proof {
                    assert(texts(failures@) =~= before.push(line));
                }
            },
            _ => {},
        }
        i = i + 1;
    }
    if failures.len() == 0 {
        "no compositor CLI tool available".to_owned()
    } else {
        join(&failures, "; ")
    }
}

/// Why the compositor's own ways did not work.
pub open spec fn native_reasons(env: WakeEnv<'_>, progress: WakeProgress) -> Seq<Seq<char>> {
    if env.wayland() {
        seq![
            "dbus: "@ + "no D-Bus client (dbus-send/gdbus/busctl) succeeded"@,
            "cli: "@ + cli_reason(progress.cli@),
        ]
    } else {
        Seq::empty()
    }
}

/// What to do once the compositor's own ways are through, or are none of this session's.
pub open spec fn x11_step(env: WakeEnv<'_>, progress: WakeProgress) -> WakeStepView {
    let reasons = native_reasons(env, progress);
    if env.display {
        match progress.x11 {
            None => WakeStepView::ForceX11,
            Some(Ok(_)) => WakeStepView::Woken("X11 DPMS forced on / screensaver reset"@),
            Some(Err(e)) => WakeStepView::GaveUp(
                "no method succeeded: "@ + joined(reasons.push("x11: "@ + e@), "; "@),
            ),
        }
    } else if reasons.len() > 0 {
        WakeStepView::GaveUp("no method succeeded: "@ + joined(reasons, "; "@))
    } else {
        WakeStepView::Idle
    }
}

/// What to do next to wake the screen.
pub open spec fn wake_step(env: WakeEnv<'_>, progress: WakeProgress) -> WakeStepView {
    let dbus = first_success(progress.dbus@, 0);
    let cli = first_success(progress.cli@, 0);
    if !on_by_default(text_of(env.wake_on_connect)) {
        WakeStepView::Idle
    } else if env.wayland() && dbus < progress.dbus@.len() {
        WakeStepView::Woken("D-Bus SimulateUserActivity delivered"@)
    } else if env.wayland() && dbus < DBUS_COMMANDS {
        WakeStepView::RunDbus(dbus)
    } else if env.wayland() && cli < progress.cli@.len() {
        WakeStepView::Woken(cli_name(cli))
    } else if env.wayland() && cli < CLI_COMMANDS {
        WakeStepView::RunCli(cli)
    } else {
        x11_step(env, progress)
    }
}

/// Decides what to do next to wake the screen, by what was tried so far.
pub fn wake_display(env: WakeEnv<'_>, progress: &WakeProgress) -> (step: WakeStep)
    requires
        progress.dbus@.len() <= DBUS_COMMANDS,
        progress.cli@.len() <= CLI_COMMANDS,
    ensures
        step@ == wake_step(env, *progress),
{
    if !enabled_by_default(env.wake_on_connect) {
        return WakeStep::Idle;
    }
    let session: bool = match env.session_type {
        Some(kind) => same_text(kind, "wayland"),
        None => false,
    };
    let wayland: bool = env.wayland_display || session;
    let mut reasons: Vec<String> = Vec::new();
    if wayland {
        let dbus: usize = find_success(&progress.dbus);
        if dbus < progress.dbus.len() {
            return WakeStep::Woken("D-Bus SimulateUserActivity delivered");
        }
        if dbus < DBUS_COMMANDS {
            return WakeStep::RunDbus(dbus);
        }
        let cli: usize = find_success(&progress.cli);
        if cli < progress.cli.len() {
            return WakeStep::Woken(cli_label(cli));
        }
        if cli < CLI_COMMANDS {
            return WakeStep::RunCli(cli);
        }
        reasons.push(concat2("dbus: ", "no D-Bus client (dbus-send/gdbus/busctl) succeeded"));
        reasons.push(concat2("cli: ", explain_cli(&progress.cli).as_str()));
    }
    proof {
        assert(texts(reasons@) =~= native_reasons(env, *progress));
    }
    if env.display {
        match &progress.x11 {
            None => {
                return WakeStep::ForceX11;
            },
            Some(Ok(_)) => {
                return WakeStep::Woken("X11 DPMS forced on / screensaver reset");
            },
            Some(Err(e)) => {
                let line = concat2("x11: ", e.as_str());
                let ghost text = line@;
                reasons.push(line);
                proof {
                    assert(texts(reasons@) =~= native_reasons(env, *progress).push(text));
                }
            },
        }
    }
    if reasons.len() > 0 {
        WakeStep::GaveUp(concat2("no method succeeded: ", join(&reasons, "; ").as_str()))
    } else {
        WakeStep::Idle
    }
}

proof fn lemma_first_success_range(results: Seq<CommandResult>, from: int)
    requires
        0 <= from <= results.len(),
    ensures
        from <= first_success(results, from) <= results.len(),
    decreases results.len() - from,
{
    if from < results.len() && !(results[from] is Succeeded) {
        lemma_first_success_range(results, from + 1);
    }
}

/// Waking comes to an end: a command that is run next was not run before.
pub proof fn no_command_runs_twice(env: WakeEnv<'_>, progress: WakeProgress)
    ensures
        wake_step(env, progress) matches WakeStepView::RunDbus(i) ==> i == progress.dbus@.len(),
        wake_step(env, progress) matches WakeStepView::RunCli(i) ==> i == progress.cli@.len(),
        wake_step(env, progress) is ForceX11 ==> progress.x11 is None,
{
    lemma_first_success_range(progress.dbus@, 0);
    lemma_first_success_range(progress.cli@, 0);
}

/// What forcing the X11 display on came to, by whether it has the power extension. The
/// screen saver is reset either way.
pub fn x11_wake_result(has_dpms: bool) -> (out: Result<(), String>)
    ensures
        match out {
            Ok(_) => has_dpms,
            Err(e) => !has_dpms && e@ == "DPMS extension missing; only screensaver reset issued"@,
        },
{
    if has_dpms {
        Ok(())
    } else {
        Err("DPMS extension missing; only screensaver reset issued".to_owned())
    }
}

} // verus!
