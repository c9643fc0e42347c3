//! Settings from the command line and the environment, and what the server says of
//! itself at the start.

use vstd::prelude::*;
use crate::media::ClientDisplayInfo;
use crate::text::{
    concat2, concat3, decimal, decimal_string, parse_unsigned, parsed_unsigned, same_text, texts,
};
use crate::transport::text_of;

verus! {

/// The port that clients connect to, and that media goes to where a client names none.
pub const DEFAULT_APP_PORT: u16 = 28_480;

/// The port that the server announces itself on.
pub const DISCOVERY_PORT: u16 = 28_481;

/// How often the server announces itself.
pub const DISCOVERY_BEACON_NANOS: u64 = 2_000_000_000;

/// The frame rate that a refresh rate in thousandths of a hertz asks for, rounded to the
/// nearest and at most 360. Below 20 it asks for none.
pub open spec fn fps_hint(millihz: u32) -> Option<u32> {
    let rounded = (millihz + 500) / 1000;
    if millihz == 0 || rounded < 20 {
        None
    } else if rounded > 360 {
        Some(360)
    } else {
        Some(rounded as u32)
    }
}

/// The frame rate that a directly connected client's display asks for.
pub fn client_display_fps_hint(display: Option<ClientDisplayInfo>) -> (fps: Option<u32>)
    ensures
        fps == (match display {
            Some(info) => fps_hint(info.max_refresh_millihz),
            None => None,
        }),
{
    match display {
        Some(info) => {
            if info.max_refresh_millihz == 0 {
                return None;
            }
            let rounded: u64 = (info.max_refresh_millihz as u64 + 500) / 1000;
            let fps: u64 = if rounded < 1 {
                1
            } else if rounded > 360 {
                360
            } else {
                rounded
            };
            if fps < 20 {
                None
            } else {
                Some(fps as u32)
            }
        },
        None => None,
    }
}

/// The frame rate that the display of a client behind a tunnel asks for: whole hertz,
/// rounded down.
pub fn tunnel_fps_hint(display: &ClientDisplayInfo) -> (fps: Option<u32>)
    ensures
        fps == (if display.max_refresh_millihz > 0 {
            Some((display.max_refresh_millihz / 1000) as u32)
        } else {
            None
        }),
{
    if display.max_refresh_millihz > 0 {
        Some(display.max_refresh_millihz / 1000)
    } else {
        None
    }
}

/// The port that a client's media goes to.
pub fn client_media_port(display: Option<ClientDisplayInfo>) -> (port: u16)
    ensures
        port == (match display {
            Some(info) => if info.udp_port != 0 {
                info.udp_port
            } else {
                DEFAULT_APP_PORT
            },
            None => DEFAULT_APP_PORT,
        }),
        port != 0,
{
    match display {
        Some(info) => {
            if info.udp_port != 0 {
                info.udp_port
            } else {
                DEFAULT_APP_PORT
            }
        },
        None => DEFAULT_APP_PORT,
    }
}

/// The port that `ST_PORT` names; the default where it is not set or names none.
pub fn configured_listen_port(value: Option<&str>) -> (port: u16)
    ensures
        port == (match text_of(value) {
            Some(v) => match parsed_unsigned(v, u16::MAX as nat) {
                Some(n) => if n != 0 {
                    n as u16
                } else {
                    DEFAULT_APP_PORT
                },
                None => DEFAULT_APP_PORT,
            },
            None => DEFAULT_APP_PORT,
        }),
        port != 0,
{
    match value {
        Some(v) => match parse_unsigned(v, 0xffff) {
            Some(n) => if n != 0 {
                n as u16
            } else {
                DEFAULT_APP_PORT
            },
            None => DEFAULT_APP_PORT,
        },
        None => DEFAULT_APP_PORT,
    }
}

/// What is said of an `ST_PORT` that names no port.
pub fn listen_port_warning(value: Option<&str>) -> (out: Option<String>)
    ensures
        match out {
            Some(text) => {
                &&& value matches Some(v) && (parsed_unsigned(v@, u16::MAX as nat) matches Some(n)
                    ==> n == 0)
                &&& text@ == "[config] Invalid ST_PORT='"@ + value.unwrap()@ + "', falling back to "@
                    + decimal(DEFAULT_APP_PORT as nat)
            },
            None => value matches Some(v) ==> (parsed_unsigned(v@, u16::MAX as nat) matches Some(n)
                && n != 0),
        },
{
    match value {
        Some(v) => {
            if let Some(n) = parse_unsigned(v, 0xffff) {
                if n != 0 {
                    return None;
                }
            }
            let head = concat3("[config] Invalid ST_PORT='", v, "', falling back to ");
            Some(concat2(head.as_str(), decimal_string(DEFAULT_APP_PORT as u64).as_str()))
        },
        None => None,
    }
}

/// How the process was launched.
#[derive(Clone, Copy, Debug, PartialEq, Eq, Structural)]
pub enum RunMode {
    /// For one user: the whole server with a tray of its own.
    Normal,
    /// For the whole system: no tray, with a control socket for a tray agent.
    System,
    /// Only the tray agent.
    Tray,
}

/// The mode that an argument asks for.
pub open spec fn mode_of_arg(arg: Seq<char>) -> Option<RunMode> {
    if arg == "--system"@ {
        Some(RunMode::System)
    } else if arg == "--tray"@ {
        Some(RunMode::Tray)
    } else {
        None
    }
}

/// The mode that the first argument with a say asks for.
pub open spec fn mode_of_args(args: Seq<Seq<char>>) -> Option<RunMode>
    decreases args.len(),
{
    if args.len() == 0 {
        None
    } else {
        match mode_of_arg(args[0]) {
            Some(mode) => Some(mode),
            None => mode_of_args(args.subrange(1, args.len() as int)),
        }
    }
}

/// The mode that `ST_MODE` asks for.
pub open spec fn mode_of_variable(value: Option<Seq<char>>) -> RunMode {
    match value {
        Some(v) => if v == "system"@ {
            RunMode::System
        } else if v == "tray"@ {
            RunMode::Tray
        } else {
            RunMode::Normal
        },
        None => RunMode::Normal,
    }
}

/// The mode by the arguments behind the program's name, and by `ST_MODE` where none of
/// them has a say.
pub fn parse_run_mode(args: &Vec<String>, variable: Option<&str>) -> (mode: RunMode)
    ensures
        mode == (match mode_of_args(texts(args@)) {
            Some(m) => m,
            None => mode_of_variable(text_of(variable)),
        }),
{
    let mut i: usize = 0;
    let ghost all = texts(args@);
    proof {
        assert(all.subrange(0, all.len() as int) == all);
    }
    while i < args.len()
        invariant
            i <= args@.len(),
            all == texts(args@),
            mode_of_args(all) == mode_of_args(all.subrange(i as int, all.len() as int)),
        decreases args@.len() - i,
    {
        let ghost rest = all.subrange(i as int, all.len() as int);
        proof {
            assert(rest[0] == args@[i as int]@);
            assert(rest.subrange(1, rest.len() as int) == all.subrange(i + 1, all.len() as int));
        }
        if same_text(args[i].as_str(), "--system") {
            return RunMode::System;
        }
        if same_text(args[i].as_str(), "--tray") {
            return RunMode::Tray;
        }
        i = i + 1;
    }
    match variable {
        Some(v) => {
            if same_text(v, "system") {
                RunMode::System
            } else if same_text(v, "tray") {
                RunMode::Tray
            } else {
                RunMode::Normal
            }
        },
        None => RunMode::Normal,
    }
}

/// Who wakes the display when a client connects.
#[derive(Clone, Copy, Debug, PartialEq, Eq, Structural)]
pub enum WakeRoute {
    /// The tray agent in the user's session, told by a counter.
    Agent,
    /// This process, which is in the session itself.
    Here,
}

/// Who wakes the display, by whether `ST_SYSTEM_MODE` is set.
pub fn trigger_screen_wake(system_mode: bool) -> (route: WakeRoute)
    ensures
        route == (if system_mode {
            WakeRoute::Agent
        } else {
            WakeRoute::Here
        }),
{
    if system_mode {
        WakeRoute::Agent
    } else {
        WakeRoute::Here
    }
}

/// An environment variable to set.
#[derive(Clone, Copy, Debug)]
pub struct EnvSetting {
    pub name: &'static str,
    pub value: &'static str,
}

/// An environment variable to set, as texts.
pub open spec fn setting_view(s: EnvSetting) -> (Seq<char>, Seq<char>) {
    (s.name@, s.value@)
}

/// Which of the variables the user has set.
#[derive(Clone, Copy, Debug, PartialEq, Eq, Structural)]
pub struct ChosenSettings {
    /// `ST_CAPTURE`.
    pub capture: bool,
    /// `ST_SERVER_NO_TRAY`.
    pub no_tray: bool,
    /// `ST_SYSTEM_MODE`.
    pub system_mode: bool,
    /// `ST_STATE_DIR`.
    pub state_dir: bool,
}

/// One setting, or none where the user has chosen.
pub open spec fn unless_chosen(chosen: bool, name: Seq<char>, value: Seq<char>) -> Seq<
    (Seq<char>, Seq<char>),
> {
    if chosen {
        Seq::empty()
    } else {
        seq![(name, value)]
    }
}

/// What the service for the whole system sets: each variable only where the user has not.
pub open spec fn system_settings(chosen: ChosenSettings) -> Seq<(Seq<char>, Seq<char>)> {
    unless_chosen(chosen.capture, "ST_CAPTURE"@, "kms"@) + unless_chosen(
        chosen.no_tray,
        "ST_SERVER_NO_TRAY"@,
        "1"@,
    ) + unless_chosen(chosen.system_mode, "ST_SYSTEM_MODE"@, "1"@) + unless_chosen(
        chosen.state_dir,
        "ST_STATE_DIR"@,
        "/var/lib/st-server"@,
    )
}

/// What the service for the whole system sets in its environment, in order.
pub fn apply_system_mode_env(chosen: ChosenSettings) -> (out: Vec<EnvSetting>)
    ensures
        out@.map_values(|s: EnvSetting| setting_view(s)) == system_settings(chosen),
{
    let mut out: Vec<EnvSetting> = Vec::new();
    if !chosen.capture {
        out.push(EnvSetting { name: "ST_CAPTURE", value: "kms" });
    }
    if !chosen.no_tray {
        out.push(EnvSetting { name: "ST_SERVER_NO_TRAY", value: "1" });
    }
    if !chosen.system_mode {
        out.push(EnvSetting { name: "ST_SYSTEM_MODE", value: "1" });
    }
    if !chosen.state_dir {
        out.push(EnvSetting { name: "ST_STATE_DIR", value: "/var/lib/st-server" });
    }
    proof {
        assert(out@.map_values(|s: EnvSetting| setting_view(s)) =~= system_settings(chosen));
    }
    out
}

/// Each of the four variables is set if and only if the user has not set it, and nothing else
/// is.
pub proof fn chosen_settings_stay(chosen: ChosenSettings, name: Seq<char>, value: Seq<char>)
    ensures
        system_settings(chosen).contains((name, value)) <==> {
            ||| !chosen.capture && name == "ST_CAPTURE"@ && value == "kms"@
            ||| !chosen.no_tray && name == "ST_SERVER_NO_TRAY"@ && value == "1"@
            ||| !chosen.system_mode && name == "ST_SYSTEM_MODE"@ && value == "1"@
            ||| !chosen.state_dir && name == "ST_STATE_DIR"@ && value == "/var/lib/st-server"@
        },
{
    let all = system_settings(chosen);
    let a = unless_chosen(chosen.capture, "ST_CAPTURE"@, "kms"@);
    let b = unless_chosen(chosen.no_tray, "ST_SERVER_NO_TRAY"@, "1"@);
    let c = unless_chosen(chosen.system_mode, "ST_SYSTEM_MODE"@, "1"@);
    let d = unless_chosen(chosen.state_dir, "ST_STATE_DIR"@, "/var/lib/st-server"@);
    assert(all == a + b + c + d);
    if !chosen.capture {
        assert(all[0] == ("ST_CAPTURE"@, "kms"@));
    }
    if !chosen.no_tray {
        assert(all[a.len() as int] == ("ST_SERVER_NO_TRAY"@, "1"@));
    }
    if !chosen.system_mode {
        assert(all[(a.len() + b.len()) as int] == ("ST_SYSTEM_MODE"@, "1"@));
    }
    if !chosen.state_dir {
        assert(all[(a.len() + b.len() + c.len()) as int] == (
            "ST_STATE_DIR"@,
            "/var/lib/st-server"@,
        ));
    }
}

} // verus!
