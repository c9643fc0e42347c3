//! What the server makes of the system it runs on, told of its operations from the outside: the
//! window in front, the screen, the display, the devices, and what it is told at the start.

use vstd::prelude::*;
use crate::config::{
    apply_system_mode_env, client_display_fps_hint, client_media_port, configured_listen_port,
    listen_port_warning, parse_run_mode, trigger_screen_wake, tunnel_fps_hint, ChosenSettings,
    EnvSetting, RunMode, WakeRoute,
};
use crate::digest::{compute_file_sha256, FileDigest};
use crate::game_mode::{
    class_list, excluded_classes, game_classes, hyprland_state, hyprland_window, identity_pid,
    is_game, kwin_load_step, kwin_report_pid, parse_hyprland_focus, parse_sway_focus, start,
    sway_focused_window, sway_state, window_identity, Compositor, FocusedWindow, FocusState,
    GameModeWatcher, KwinLoad, KwinReceiver, SessionEnv,
};
use crate::input::InputBackend;
use crate::input_backend::{
    macos_input, select_linux_backend, windows_input, InputProbe, LinuxInputStep, ProbeResults,
    SelectedInput,
};
use crate::json::{parsed_json, Json, JsonTree};
use crate::macos_display::{
    describe_display, requested_display_id, select_capture_display, DisplayInfo,
};
use crate::media::{
    client_hardware_video_codecs, client_hardware_yuv444_video_codecs, client_hdr_display,
    client_supported_video_codecs, client_supported_yuv444_video_codecs, ClientDisplayInfo,
    VideoCodecSupport,
};
use crate::screen_wake::{
    cli_command, cli_label, wake_display, x11_wake_result, CommandResult, WakeEnv, WakeProgress,
    WakeStep,
};
use crate::startup::{
    api_url, beacon_hostname, discovery_packet, display_server,     next_probed_encoder, selected_capture, CaptureProbes, EncoderProbeStep,     ProbedEncoder,
};
use crate::text::{decimal, lowered, occurs_in, parsed_unsigned, split_parts, texts, trimmed};
use crate::transport::enabled_by_default;

verus! {

/// That a name holds one of some fragments.
pub open spec fn holds_one(name: Seq<char>, list: Seq<String>) -> bool {
    exists|i: int| 0 <= i < list.len() && occurs_in(name, #[trigger] list[i]@)
}

proof fn lemma_holds_one(name: Seq<char>, list: Seq<String>)
    ensures
        holds_one(name, list) == crate::game_mode::matches_any(name, texts(list)),
{
    let t = texts(list);
    assert(t.len() == list.len());
    assert forall|i: int| 0 <= i < list.len() implies t[i] == list[i]@ by {}
    if holds_one(name, list) {
        let i = choose|i: int| 0 <= i < list.len() && occurs_in(name, #[trigger] list[i]@);
        assert(occurs_in(name, t[i]));
    }
    if crate::game_mode::matches_any(name, t) {
        let i = choose|i: int| 0 <= i < t.len() && #[trigger] occurs_in(name, t[i]);
        assert(occurs_in(name, list[i]@));
    }
}

/// A window with the fragment of a game in its name is a game, whatever else holds; without one
/// it is a game only in fullscreen, under a name, and not where it is excluded.
pub proof fn games_are_known_by_name(
    state: FocusState,
    excluded: &Vec<String>,
    games: &Vec<String>,
    yes: bool,
)
    requires
        call_ensures(is_game, (&state, excluded, games), yes),
    ensures
        holds_one(lowered(state.class@), games@) ==> yes,
        !holds_one(lowered(state.class@), games@) && lowered(state.class@) != "z3d"@ ==> (yes
            <==> state.fullscreen && state.class@.len() > 0 && !holds_one(
            lowered(state.class@),
            excluded@,
        )),
        lowered(state.class@) == "z3d"@ ==> yes,
{
    lemma_holds_one(lowered(state.class@), games@);
    lemma_holds_one(lowered(state.class@), excluded@);
    assert(lowered(state.class@).len() == state.class@.len());
}

/// Fragments that are added come behind those that are there; each part of the list that is not
/// blank adds itself, trimmed and in lower case, and nothing else is added.
pub proof fn lists_are_extended(
    builtin: Vec<String>,
    extra: &str,
    out: Vec<String>,
    i: int,
    part: Seq<char>,
)
    requires
        call_ensures(class_list, (builtin, Some(extra)), out),
    ensures
        out@.len() >= builtin@.len(),
        0 <= i < builtin@.len() ==> out@[i]@ == builtin@[i]@,
        split_parts(extra@, ',').contains(part) && lowered(trimmed(part)).len() > 0 ==> texts(
            out@,
        ).contains(lowered(trimmed(part))),
        builtin@.len() <= i < out@.len() ==> out@[i]@.len() > 0 && exists|k: int|
            0 <= k < split_parts(extra@, ',').len() && out@[i]@ == lowered(
                trimmed(#[trigger] split_parts(extra@, ',')[k]),
            ),
{
    let parts = split_parts(extra@, ',');
    let added = crate::game_mode::fragments(parts);
    let t = texts(out@);
    let b = texts(builtin@);
    assert(t.len() == out@.len());
    assert(b.len() == builtin@.len());
    assert(t == b + added);
    if 0 <= i < builtin@.len() {
        assert(t[i] == out@[i]@);
        assert(b[i] == builtin@[i]@);
    }
    if builtin@.len() <= i < out@.len() {
        assert(t[i] == out@[i]@);
        assert(t[i] == added[i - b.len()]);
        lemma_fragment_from(parts, i - b.len());
    }
    if parts.contains(part) && lowered(trimmed(part)).len() > 0 {
        let k = choose|k: int| 0 <= k < parts.len() && parts[k] == part;
        lemma_fragment_of(parts, k);
        let j = choose|j: int| 0 <= j < added.len() && added[j] == lowered(trimmed(part));
        assert(t[b.len() + j] == added[j]);
    }
}

proof fn lemma_fragment_from(parts: Seq<Seq<char>>, j: int)
    requires
        0 <= j < crate::game_mode::fragments(parts).len(),
    ensures
        crate::game_mode::fragments(parts)[j].len() > 0,
        exists|k: int|
            0 <= k < parts.len() && crate::game_mode::fragments(parts)[j] == lowered(
                trimmed(#[trigger] parts[k]),
            ),
    decreases parts.len(),
{
    let rest = parts.drop_last();
    let before = crate::game_mode::fragments(rest);
    if j < before.len() {
        lemma_fragment_from(rest, j);
        let k = choose|k: int|
            0 <= k < rest.len() && before[j] == lowered(trimmed(#[trigger] rest[k]));
        assert(parts[k] == rest[k]);
    } else {
        assert(parts[parts.len() - 1] == parts.last());
    }
}

proof fn lemma_fragment_of(parts: Seq<Seq<char>>, k: int)
    requires
        0 <= k < parts.len(),
        lowered(trimmed(parts[k])).len() > 0,
    ensures
        crate::game_mode::fragments(parts).contains(lowered(trimmed(parts[k]))),
    decreases parts.len(),
{
    let rest = parts.drop_last();
    let before = crate::game_mode::fragments(rest);
    let all = crate::game_mode::fragments(parts);
    if k < rest.len() {
        assert(rest[k] == parts[k]);
        lemma_fragment_of(rest, k);
        let j = choose|j: int| 0 <= j < before.len() && before[j] == lowered(trimmed(parts[k]));
        assert(all[j] == before[j]);
    } else {
        assert(all[all.len() - 1] == lowered(trimmed(parts[k])));
    }
}

/// Whatever is added, browsers and video players are excluded and the games that are known are
/// games.
pub proof fn known_classes_are_always_there(
    a: Option<&str>,
    b: Option<&str>,
    excluded: Vec<String>,
    games: Vec<String>,
)
    requires
        call_ensures(excluded_classes, (a,), excluded),
        call_ensures(game_classes, (b,), games),
    ensures
        texts(games@).contains("steam_app_"@),
        texts(games@).contains("gamescope"@),
        texts(games@).contains("lutris"@),
        texts(excluded@).contains("firefox"@),
        texts(excluded@).contains("chrome"@),
        texts(excluded@).contains("chromium"@),
        texts(excluded@).contains("brave"@),
        texts(excluded@).contains("vivaldi"@),
        texts(excluded@).contains("opera"@),
        texts(excluded@).contains("msedge"@),
        texts(excluded@).contains("mpv"@),
        texts(excluded@).contains("vlc"@),
        texts(excluded@).contains("mplayer"@),
        texts(excluded@).contains("smplayer"@),
        texts(excluded@).contains("celluloid"@),
        texts(excluded@).contains("totem"@),
        texts(excluded@).contains("kodi"@),
        texts(excluded@).contains("plasmashell"@),
        texts(excluded@).contains("haruna"@),
        texts(excluded@).contains("dragonplayer"@),
{
    let g = texts(games@);
    let e = texts(excluded@);
    assert(g[0] == "steam_app_"@);
    assert(g[1] == "gamescope"@);
    assert(g[2] == "lutris"@);
    assert(e[0] == "firefox"@);
    assert(e[1] == "chrome"@);
    assert(e[2] == "chromium"@);
    assert(e[3] == "brave"@);
    assert(e[4] == "vivaldi"@);
    assert(e[5] == "opera"@);
    assert(e[6] == "msedge"@);
    assert(e[7] == "mpv"@);
    assert(e[8] == "vlc"@);
    assert(e[9] == "mplayer"@);
    assert(e[10] == "smplayer"@);
    assert(e[11] == "celluloid"@);
    assert(e[12] == "totem"@);
    assert(e[13] == "kodi"@);
    assert(e[14] == "plasmashell"@);
    assert(e[15] == "haruna"@);
    assert(e[16] == "dragonplayer"@);
}

/// The detector runs exactly where it is not switched off and a compositor is there that can be
/// watched: Hyprland before Sway before KWin.
pub proof fn compositors_are_watched(env: SessionEnv<'_>, on: bool, out: Option<GameModeWatcher>)
    requires
        call_ensures(crate::game_mode::enabled, (env.game_mode,), on),
        call_ensures(start, (env,), out),
    ensures
        !on ==> out is None,
        on && env.hyprland ==> (out matches Some(w) && w.compositor == Compositor::Hyprland),
        on && !env.hyprland && env.sway ==> (out matches Some(w) && w.compositor
            == Compositor::Sway),
        on && !env.hyprland && !env.sway && env.kde_full_session ==> (out matches Some(w)
            && w.compositor == Compositor::Kwin),
        !env.hyprland && !env.sway && !env.kde_full_session && env.desktop is None ==> out is None,
        out matches Some(w) ==> w.last is None,
{
}

/// A verdict is told exactly when it is not the one told last, and it is the one on the window.
pub proof fn changes_are_told(
    w: &mut GameModeWatcher,
    state: FocusState,
    change: Option<bool>,
    yes: bool,
)
    requires
        call_ensures(GameModeWatcher::observe, (w, &state), change),
        call_ensures(is_game, (&state, &old(w).excluded, &old(w).games), yes),
    ensures
        final(w).last == Some(yes),
        old(w).last == Some(yes) <==> change is None,
        change matches Some(told) ==> told == yes,
        final(w).excluded@ == old(w).excluded@ && final(w).games@ == old(w).games@,
{
}

/// A window goes by its class where it has one, and only else by its executable.
pub proof fn windows_go_by_their_class(
    class: &str,
    pid: Option<u32>,
    executable: Option<&str>,
    looked_up: Option<u32>,
    name: String,
)
    requires
        call_ensures(identity_pid, (class, pid), looked_up),
        call_ensures(window_identity, (class, executable), name),
    ensures
        class@.len() > 0 ==> looked_up is None && name@ == class@,
        class@.len() == 0 ==> (executable matches Some(e) ==> name@ == e@),
        class@.len() == 0 && executable is None ==> name@.len() == 0,
        looked_up matches Some(p) ==> pid == Some(p) && p > 0,
        class@.len() == 0 ==> (pid matches Some(p) ==> p > 0 ==> looked_up == Some(p)),
{
}

/// What is known of a window is kept: on Hyprland whether it fills the screen, on Sway only for one
/// that has a name.
pub proof fn states_keep_the_window(
    window: FocusedWindow,
    executable: Option<&str>,
    hyprland: FocusState,
    sway: FocusState,
)
    requires
        call_ensures(hyprland_state, (&window, executable), hyprland),
        call_ensures(sway_state, (&window, executable), sway),
    ensures
        hyprland.fullscreen == window.fullscreen,
        sway.class@ == hyprland.class@,
        sway.fullscreen <==> window.fullscreen && sway.class@.len() > 0,
        window.class@.len() > 0 ==> sway.class@ == window.class@,
        window.class@.len() == 0 ==> (executable matches Some(e) ==> sway.class@ == e@),
{
}

/// Hyprland's own fields say what the window is.
pub proof fn hyprland_fields_are_read(window: Json, out: FocusedWindow)
    requires
        call_ensures(hyprland_window, (&window,), out),
    ensures
        out.fullscreen <==> (window@.field("fullscreen"@).unsigned() matches Some(n) && n >= 1),
        window@.field("class"@).text() matches Some(c) ==> out.class@ == c,
        window@.field("class"@).text() is None ==> out.class@.len() == 0,
        window@.field("pid"@).unsigned() matches Some(n) ==> n <= u32::MAX ==> out.pid == Some(
            n as u32,
        ),
        window@.field("pid"@).unsigned() is None ==> out.pid is None,
{
}

/// A focused node of Sway is the window in front; one that is not leaves that to the tiled windows
/// under it, and then to the floating ones.
pub proof fn sway_nodes_are_searched(
    node: Json,
    above: bool,
    out: Option<FocusedWindow>,
)
    requires
        call_ensures(sway_focused_window, (&node, above), out),
    ensures
        node@.field("focused"@) == JsonTree::Bool(true) ==> {
            &&& out is Some
            &&& out->0.fullscreen <==> above || (node@.field("fullscreen_mode"@).unsigned() matches Some(
                n,
            ) && n >= 1)
            &&& node@.field("app_id"@).text() matches Some(id) ==> id.len() > 0 ==> out->0.class@
                == id
            &&& node@.field("pid"@).unsigned() matches Some(n) ==> n <= u32::MAX ==> out->0.pid
                == Some(n as u32)
        },
        node@.field("focused"@) != JsonTree::Bool(true) && node@.field(
            "nodes"@,
        ).elements().len() == 0 && node@.field("floating_nodes"@).elements().len() == 0
            ==> out is None,
        node@.field("focused"@) != JsonTree::Bool(true) && node@.field(
            "nodes"@,
        ).elements().len() > 0 ==> ({
            let inner = above || crate::game_mode::is_positive(node@.field("fullscreen_mode"@));
            let first = crate::game_mode::sway_focus(
                node@.field("nodes"@).elements()[0],
                inner,
            );
            first is Some ==> (out matches Some(w) && w@ == first->0)
        }),
        above ==> (out matches Some(w) ==> w.fullscreen),
{
    if above {
        lemma_fullscreen_above(node@);
    }
}

proof fn lemma_fullscreen_above(node: JsonTree)
    ensures
        crate::game_mode::sway_focus(node, true) matches Some(w) ==> w.fullscreen,
    decreases node, 1int, 0int,
{
    if node.field("focused"@) != JsonTree::Bool(true) {
        lemma_fullscreen_among(node, "nodes"@, 0);
        lemma_fullscreen_among(node, "floating_nodes"@, 0);
    }
}

proof fn lemma_fullscreen_among(node: JsonTree, name: Seq<char>, from: int)
    requires
        0 <= from,
    ensures
        crate::game_mode::sway_focus_among(node, name, from, true) matches Some(w) ==> w.fullscreen,
    decreases node, 0int, node.field(name).elements().len() - from,
{
    let children = node.field(name).elements();
    if from < children.len() {
        crate::json::element_is_smaller(node, name, from);
        lemma_fullscreen_above(children[from]);
        lemma_fullscreen_among(node, name, from + 1);
    }
}

/// A report of the KWin script is looked at once, and is the last one.
pub proof fn reports_are_looked_at_once(
    r: &mut KwinReceiver,
    a: &mut KwinReceiver,
    b: &mut KwinReceiver,
    fullscreen: bool,
    class: &str,
    executable: Option<&str>,
    first: bool,
    second: bool,
)
    requires
        call_ensures(KwinReceiver::report, (r, fullscreen, class, executable), ()),
        *old(a) == *final(r),
        call_ensures(KwinReceiver::take_dirty, (a,), first),
        *old(b) == *final(a),
        call_ensures(KwinReceiver::take_dirty, (b,), second),
    ensures
        first,
        !second,
        final(b).shared.fullscreen == fullscreen,
        class@.len() > 0 ==> final(b).shared.class@ == class@,
        class@.len() == 0 ==> (executable matches Some(e) ==> final(b).shared.class@ == e@),
{
}

/// The KWin script is loaded in at most twenty tries.
pub proof fn scripts_get_twenty_tries(attempt: u32, id: i32, step: KwinLoad)
    requires
        call_ensures(kwin_load_step, (attempt, id), step),
    ensures
        step is Start <==> id >= 0,
        step is Fail <==> id < 0 && attempt >= 20,
{
}

/// That one of some commands succeeded.
pub open spec fn one_succeeded(results: Seq<CommandResult>) -> bool {
    exists|i: int| 0 <= i < results.len() && #[trigger] results[i] is Succeeded
}

proof fn lemma_succeeded(results: Seq<CommandResult>, from: int)
    requires
        0 <= from <= results.len(),
        forall|i: int| 0 <= i < from ==> !(#[trigger] results[i] is Succeeded),
    ensures
        from <= crate::screen_wake::first_success(results, from) <= results.len(),
        one_succeeded(results) <==> crate::screen_wake::first_success(results, from) < results.len(),
    decreases results.len() - from,
{
    if from < results.len() && !(results[from] is Succeeded) {
        lemma_succeeded(results, from + 1);
    }
}

/// The screen counts as awake exactly when something that is this session's woke it; each way is
/// tried only after those before it have failed, and nothing is tried where that is switched off.
pub proof fn screens_wake_by_the_first_way(
    env: WakeEnv<'_>,
    progress: WakeProgress,
    on: bool,
    step: WakeStep,
)
    requires
        call_ensures(enabled_by_default, (env.wake_on_connect,), on),
        progress.dbus@.len() <= 3,
        progress.cli@.len() <= 4,
        call_ensures(wake_display, (env, &progress), step),
    ensures
        !on ==> step is Idle,
        ({
            let wayland = env.wayland_display || (env.session_type matches Some(t) && t@
                == "wayland"@);
            let dbus = wayland && one_succeeded(progress.dbus@);
            let cli = wayland && progress.dbus@.len() == 3 && one_succeeded(progress.cli@);
            let native_failed = wayland ==> progress.dbus@.len() == 3 && progress.cli@.len() == 4
                && !dbus && !cli;
            let x11 = env.display && native_failed && progress.x11 == Some(Ok::<(), String>(()));
            &&& on ==> (step is Woken <==> dbus || cli || x11)
            &&& step matches WakeStep::RunDbus(i) ==> on && wayland && !dbus && i
                == progress.dbus@.len() && i < 3
            &&& step matches WakeStep::RunCli(i) ==> on && wayland && !dbus && !cli
                && progress.dbus@.len() == 3 && i == progress.cli@.len() && i < 4
            &&& step is ForceX11 <==> on && native_failed && env.display && progress.x11 is None
            &&& on && wayland && progress.dbus@.len() == 0 ==> step == WakeStep::RunDbus(0)
            &&& on ==> (step is Idle <==> !wayland && !env.display)
        }),
{
    lemma_succeeded(progress.dbus@, 0);
    lemma_succeeded(progress.cli@, 0);
    assert(step@ is Woken == step is Woken);
    assert(progress.x11 matches Some(Ok(u)) ==> u == ());
}

/// Forcing the X11 display on works exactly with the power extension.
pub proof fn forcing_needs_the_extension(has_dpms: bool, out: Result<(), String>)
    requires
        call_ensures(x11_wake_result, (has_dpms,), out),
    ensures
        out is Ok <==> has_dpms,
{
}

/// A frame rate hint is the refresh rate to the nearest hertz, at most 360, and none below 19.5
/// hertz.
pub proof fn refresh_rates_are_rounded(info: ClientDisplayInfo, fps: Option<u32>, tunnel: Option<u32>)
    requires
        call_ensures(client_display_fps_hint, (Some(info),), fps),
        call_ensures(tunnel_fps_hint, (&info,), tunnel),
    ensures
        fps is None <==> info.max_refresh_millihz < 19_500,
        fps matches Some(n) ==> 20 <= n <= 360,
        info.max_refresh_millihz <= 360_000 ==> (fps matches Some(n) ==> -500 <= n * 1000
            - info.max_refresh_millihz <= 500),
        info.max_refresh_millihz > 360_000 ==> fps == Some(360u32),
        tunnel is None <==> info.max_refresh_millihz == 0,
        tunnel matches Some(n) ==> n * 1000 <= info.max_refresh_millihz < n * 1000 + 1000,
{
}

/// Media goes to the port that the client names, and to the usual one where it names none.
pub proof fn media_ports_are_named(display: Option<ClientDisplayInfo>, port: u16)
    requires
        call_ensures(client_media_port, (display,), port),
    ensures
        display matches Some(info) ==> info.udp_port != 0 ==> port == info.udp_port,
        display matches Some(info) ==> info.udp_port == 0 ==> port == 28_480,
        display is None ==> port == 28_480,
{
}

/// The server listens on the port that it is told as a number, and on the usual one where it is
/// told none; it warns exactly of what is no port.
pub proof fn listen_ports_are_read(
    value: &str,
    n: u16,
    port: u16,
    unset: u16,
    warning: Option<String>,
    silent: Option<String>,
)
    requires
        call_ensures(configured_listen_port, (Some(value),), port),
        call_ensures(configured_listen_port, (None::<&str>,), unset),
        call_ensures(listen_port_warning, (Some(value),), warning),
        call_ensures(listen_port_warning, (None::<&str>,), silent),
        n > 0,
    ensures
        unset == 28_480,
        silent is None,
        value@ == decimal(n as nat) ==> port == n && warning is None,
        warning is Some ==> port == 28_480,
{
    crate::text::decimal_reads_back(n as nat);
}

/// The first argument with a say sets the mode; the variable counts only where none has one.
pub proof fn arguments_come_first(args: &Vec<String>, variable: Option<&str>, mode: RunMode, k: int)
    requires
        call_ensures(parse_run_mode, (args, variable), mode),
        0 <= k <= args@.len(),
        forall|i: int| #![trigger args@[i]]
            0 <= i < k ==> args@[i]@ != "--system"@ && args@[i]@ != "--tray"@,
    ensures
        k < args@.len() && args@[k]@ == "--system"@ ==> mode == RunMode::System,
        k < args@.len() && args@[k]@ == "--tray"@ ==> mode == RunMode::Tray,
        k == args@.len() ==> (variable matches Some(v) ==> {
            &&& v@ == "system"@ ==> mode == RunMode::System
            &&& v@ == "tray"@ ==> mode == RunMode::Tray
            &&& v@ != "system"@ && v@ != "tray"@ ==> mode == RunMode::Normal
        }),
        k == args@.len() && variable is None ==> mode == RunMode::Normal,
{
    let t = texts(args@);
    assert(t.len() == args@.len());
    assert forall|i: int| 0 <= i < t.len() implies t[i] == args@[i]@ by {}
    reveal_strlit("--system");
    reveal_strlit("--tray");
    reveal_strlit("system");
    reveal_strlit("tray");
    assert("--system"@.len() != "--tray"@.len());
    assert("system"@.len() != "tray"@.len());
    lemma_mode(t, k);
}

proof fn lemma_mode(args: Seq<Seq<char>>, k: int)
    requires
        0 <= k <= args.len(),
        "--system"@.len() != "--tray"@.len(),
        forall|i: int| #![trigger args[i]]
            0 <= i < k ==> args[i] != "--system"@ && args[i] != "--tray"@,
    ensures
        k == args.len() ==> crate::config::mode_of_args(args) is None,
        k < args.len() && args[k] == "--system"@ ==> crate::config::mode_of_args(args) == Some(
            RunMode::System,
        ),
        k < args.len() && args[k] == "--tray"@ ==> crate::config::mode_of_args(args) == Some(
            RunMode::Tray,
        ),
    decreases k,
{
    if k > 0 {
        let rest = args.subrange(1, args.len() as int);
        assert forall|i: int| #![trigger rest[i]] 0 <= i < k - 1 implies rest[i] != "--system"@
            && rest[i] != "--tray"@ by {
            assert(rest[i] == args[i + 1]);
        }
        lemma_mode(rest, k - 1);
        if k < args.len() {
            assert(rest[k - 1] == args[k]);
        }
    }
}

/// The service for the whole system leaves the waking to the tray agent.
pub proof fn agents_wake_the_display(system: WakeRoute, user: WakeRoute)
    requires
        call_ensures(trigger_screen_wake, (true,), system),
        call_ensures(trigger_screen_wake, (false,), user),
    ensures
        system is Agent,
        user is Here,
{
}

/// The service sets a variable exactly where the user has not: its capture, no tray, its mode and
/// its directory.
pub proof fn services_set_what_is_unset(
    chosen: ChosenSettings,
    out: Vec<EnvSetting>,
    name: Seq<char>,
    value: Seq<char>,
)
    requires
        call_ensures(apply_system_mode_env, (chosen,), out),
    ensures
        (exists|i: int|
            0 <= i < out@.len() && (#[trigger] out@[i]).name@ == name && out@[i].value@ == value)
            <==> {
            ||| !chosen.capture && name == "ST_CAPTURE"@ && value == "kms"@
            ||| !chosen.no_tray && name == "ST_SERVER_NO_TRAY"@ && value == "1"@
            ||| !chosen.system_mode && name == "ST_SYSTEM_MODE"@ && value == "1"@
            ||| !chosen.state_dir && name == "ST_STATE_DIR"@ && value == "/var/lib/st-server"@
        },
{
    crate::config::chosen_settings_stay(chosen, name, value);
    let views = out@.map_values(|s: EnvSetting| crate::config::setting_view(s));
    assert(views == crate::config::system_settings(chosen));
    assert(views.len() == out@.len());
    if views.contains((name, value)) {
        let i = choose|i: int| 0 <= i < views.len() && views[i] == (name, value);
        assert(views[i] == crate::config::setting_view(out@[i]));
        assert(out@[i].name@ == name);
    }
    if exists|i: int|
        0 <= i < out@.len() && (#[trigger] out@[i]).name@ == name && out@[i].value@ == value {
        let i = choose|i: int|
            0 <= i < out@.len() && (#[trigger] out@[i]).name@ == name && out@[i].value@ == value;
        assert(views[i] == crate::config::setting_view(out@[i]));
    }
}

/// The display server is what the session says, in lower case; without that Wayland counts before
/// X11.
pub proof fn sessions_name_the_display_server(
    session: Option<&str>,
    wayland: bool,
    x11: bool,
    out: String,
)
    requires
        call_ensures(display_server, (session, wayland, x11), out),
    ensures
        session matches Some(s) ==> out@ == crate::text::lowercase(s@),
        session is None && wayland ==> out@ == "wayland"@,
        session is None && !wayland && x11 ==> out@ == "x11"@,
        session is None && !wayland && !x11 ==> out@ == "unknown"@,
{
}

/// A capture that is asked for is used whatever the probes found; else NvFBC is used only on X11
/// and only where it works now, and nothing is used that was not found.
pub proof fn captures_are_there(
    capture: Option<&str>,
    server: &str,
    probes: CaptureProbes,
    other: CaptureProbes,
    out: &'static str,
    same: &'static str,
)
    requires
        call_ensures(selected_capture, (capture, server, &probes), out),
        call_ensures(selected_capture, (capture, server, &other), same),
    ensures
        capture is Some ==> out@ == same@,
        capture is None && server@ == "wayland"@ ==> {
            &&& out@ == "Wayland (wlr-screencopy)"@ <==> probes.wlr_screencopy
            &&& out@ == "PipeWire (xdg-desktop-portal)"@ <==> !probes.wlr_screencopy
                && probes.pipewire
            &&& out@ == "none available"@ <==> !probes.wlr_screencopy && !probes.pipewire
        },
        capture is None && server@ == "x11"@ ==> {
            let now = probes.nvfbc matches Some(Ok(p)) && p.is_capture_possible
                && p.can_create_now;
            &&& out@ == "NvFBC (NVIDIA)"@ <==> now
            &&& out@ == "X11 (XShm)"@ <==> !now && probes.x11
            &&& out@ == "none available"@ <==> !now && !probes.x11
        },
        capture is None && server@ != "x11"@ && server@ != "wayland"@ ==> out@
            == if probes.pipewire {
            "PipeWire (xdg-desktop-portal)"@
        } else {
            "none available"@
        },
{
    reveal_strlit("Wayland (wlr-screencopy)");
    reveal_strlit("PipeWire (xdg-desktop-portal)");
    reveal_strlit("none available");
    reveal_strlit("NvFBC (NVIDIA)");
    reveal_strlit("X11 (XShm)");
    reveal_strlit("x11");
    reveal_strlit("wayland");
    assert("x11"@.len() != "wayland"@.len());
    assert("Wayland (wlr-screencopy)"@.len() == 24);
    assert("PipeWire (xdg-desktop-portal)"@.len() == 29);
    assert("none available"@.len() == 14);
    assert("X11 (XShm)"@.len() == 10);
    assert("NvFBC (NVIDIA)"@[0] == 'N');
    assert("none available"@[0] == 'n');
}

/// The start tries VAAPI, then NVENC, then software, and then stops.
pub proof fn encoders_are_probed_in_order(failed: usize, step: EncoderProbeStep)
    requires
        call_ensures(next_probed_encoder, (failed,), step),
    ensures
        step == EncoderProbeStep::Try(ProbedEncoder::Vaapi) <==> failed == 0,
        step == EncoderProbeStep::Try(ProbedEncoder::Nvenc) <==> failed == 1,
        step == EncoderProbeStep::Try(ProbedEncoder::Software) <==> failed == 2,
        step is Done <==> failed >= 3,
{
}

/// A client that takes the packet of the server apart by its lines gets the name, the port, the
/// token and the peer back, in this order.
pub proof fn packets_are_read_back(
    hostname: &str,
    port: u16,
    token: &str,
    peer: &str,
    packet: String,
)
    requires
        call_ensures(discovery_packet, (hostname, port, token, peer), packet),
        !hostname@.contains('\n'),
        !token@.contains('\n'),
        !peer@.contains('\n'),
    ensures
        ({
            let lines = split_parts(packet@, '\n');
            &&& lines.len() == 5
            &&& lines[0] == "ST_DISCOVER"@
            &&& lines[1] == hostname@
            &&& parsed_unsigned(lines[2], 65535) == Some(port as nat)
            &&& lines[3] == token@
            &&& lines[4] == peer@
        }),
{
    crate::startup::beacon_reads_back(hostname@, port, token@, peer@);
}

/// The server announces the first name that it is given, and the file's only where it is given
/// none.
pub proof fn names_are_taken_in_order(
    hostname: Option<&str>,
    computer: Option<&str>,
    host: Option<&str>,
    file: Option<&str>,
    out: String,
)
    requires
        call_ensures(beacon_hostname, (hostname, computer, host, file), out),
    ensures
        hostname matches Some(n) ==> out@ == n@,
        hostname is None ==> (computer matches Some(n) ==> out@ == n@),
        hostname is None && computer is None ==> (host matches Some(n) ==> out@ == n@),
        hostname is None && computer is None && host is None ==> (file matches Some(f) ==> out@
            == trimmed(f@)),
        hostname is None && computer is None && host is None && file is None ==> out@
            == "st-server"@,
{
}

/// The address to register at is the one given, without slashes at its end and with nothing else
/// missing.
pub proof fn addresses_lose_their_end_slashes(value: &str, out: String, i: int)
    requires
        call_ensures(api_url, (Some(value),), out),
    ensures
        out@.len() <= value@.len(),
        out@ == value@.subrange(0, out@.len() as int),
        out@.len() > 0 ==> out@.last() != '/',
        out@.len() <= i < value@.len() ==> value@[i] == '/',
{
    lemma_without_slashes(value@, i);
}

proof fn lemma_without_slashes(s: Seq<char>, i: int)
    ensures
        ({
            let out = crate::startup::without_end_slashes(s);
            &&& out.len() <= s.len()
            &&& out == s.subrange(0, out.len() as int)
            &&& out.len() > 0 ==> out.last() != '/'
            &&& out.len() <= i < s.len() ==> s[i] == '/'
        }),
    decreases s.len(),
{
    if s.len() > 0 && s.last() == '/' {
        lemma_without_slashes(s.drop_last(), i);
        let out = crate::startup::without_end_slashes(s);
        assert(s.subrange(0, out.len() as int) =~= s.drop_last().subrange(0, out.len() as int));
    } else {
        assert(s.subrange(0, s.len() as int) =~= s);
    }
}

/// Where no display is asked for, the largest one is captured, and of two as large the one with
/// the higher number.
pub proof fn the_largest_display_is_captured(
    displays: &Vec<DisplayInfo>,
    out: Result<usize, String>,
    j: int,
)
    requires
        call_ensures(select_capture_display, (displays, None::<&str>), out),
        0 <= j < displays@.len(),
    ensures
        out matches Ok(i) && i < displays@.len() && {
            let a = displays@[i as int];
            let b = displays@[j];
            &&& a.width * a.height >= b.width * b.height
            &&& a.width * a.height == b.width * b.height ==> a.id >= b.id
        },
{
    let i = out->Ok_0 as int;
    assert(!displays@[i].below(displays@[j]));
}

/// The display that is asked for is captured where it is there, and nothing is where it is not.
pub proof fn displays_are_captured_by_number(
    displays: &Vec<DisplayInfo>,
    raw: &str,
    id: Result<Option<u32>, String>,
    out: Result<usize, String>,
)
    requires
        call_ensures(requested_display_id, (Some(raw),), id),
        call_ensures(select_capture_display, (displays, Some(raw)), out),
    ensures
        parsed_unsigned(trimmed(raw@), 0xffff_ffff) matches Some(n) ==> id == Ok::<
            Option<u32>,
            String,
        >(Some(n as u32)),
        parsed_unsigned(trimmed(raw@), 0xffff_ffff) is None ==> id is Err && out is Err,
        id matches Ok(Some(n)) ==> {
            &&& out is Ok <==> exists|j: int| 0 <= j < displays@.len() && (#[trigger] displays@[j]).id == n
            &&& out matches Ok(i) ==> i < displays@.len() && displays@[i as int].id == n
        },
        displays@.len() == 0 ==> out is Err,
{
}

/// That input devices can do something.
pub open spec fn used(step: LinuxInputStep, backend: InputBackend) -> bool {
    step matches LinuxInputStep::Use(s) && s.backend == backend && s.capabilities.keyboard
        && s.capabilities.mouse_relative && !s.capabilities.text_input
}

/// A capture of an X11 screen takes input through that screen, and through the kernel's devices
/// only where that fails; only the capture with a cursor of its own draws it apart.
pub proof fn x11_captures_use_the_display(
    nvfbc: bool,
    capture: &str,
    w: u32,
    h: u32,
    tried: ProbeResults,
    step: LinuxInputStep,
)
    requires
        capture@ == if nvfbc {
            "nvfbc"@
        } else {
            "x11"@
        },
        call_ensures(select_linux_backend, (capture, w, h, &tried), step),
    ensures
        tried.x11 is None ==> step == LinuxInputStep::Open(InputProbe::X11),
        tried.x11 is Some && tried.x11->0 is Ok ==> used(step, InputBackend::X11)
            && step->Use_0.capabilities.mouse_absolute && step->Use_0.capabilities.hover_capture
            && step->Use_0.capabilities.separate_cursor == !nvfbc
            && step->Use_0.capabilities.cursor_position_reliable == !nvfbc,
        tried.x11 is Some && tried.x11->0 is Err ==> {
            &&& tried.uinput is None ==> step == LinuxInputStep::Open(InputProbe::Uinput)
            &&& tried.uinput is Some && tried.uinput->0 is Ok ==> used(step, InputBackend::Uinput)
                && !step->Use_0.capabilities.mouse_absolute && !step->Use_0.capabilities.hover_capture
                && step->Use_0.capabilities.separate_cursor == !nvfbc
            &&& tried.uinput is Some && tried.uinput->0 is Err ==> step is Fail
        },
{
    reveal_strlit("x11");
    reveal_strlit("nvfbc");
    assert("x11"@.len() != "nvfbc"@.len());
}

/// A capture through the portal takes input through its session, which is told the size of the
/// stream, and through the kernel's devices where there is none.
pub proof fn portal_captures_use_the_portal(
    capture: &str,
    w: u32,
    h: u32,
    tried: ProbeResults,
    step: LinuxInputStep,
)
    requires
        capture@ == "pipewire"@,
        call_ensures(select_linux_backend, (capture, w, h, &tried), step),
    ensures
        tried.portal is None ==> step == LinuxInputStep::Open(InputProbe::Portal),
        tried.portal == Some(true) ==> used(step, InputBackend::PortalRemoteDesktop)
            && step->Use_0.logical_size == Some((w, h)) && step->Use_0.capabilities.mouse_absolute
            && step->Use_0.capabilities.separate_cursor,
        tried.portal == Some(false) ==> {
            &&& tried.uinput is None ==> step == LinuxInputStep::Open(InputProbe::Uinput)
            &&& tried.uinput matches Some(Ok(absolute)) ==> used(step, InputBackend::Uinput)
                && step->Use_0.capabilities.mouse_absolute == absolute
                && step->Use_0.capabilities.hover_capture == absolute
                && step->Use_0.capabilities.separate_cursor
                && step->Use_0.capabilities.cursor_position_reliable
            &&& tried.uinput is Some && tried.uinput->0 is Err ==> step is Fail
        },
{
    lemma_capture_names();
}

proof fn lemma_capture_names()
    ensures
        "x11"@.len() == 3,
        "kms"@.len() == 3,
        "x11"@[0] == 'x',
        "kms"@[0] == 'k',
        "nvfbc"@.len() == 5,
        "pipewire"@.len() == 8,
        "ext-image-copy"@.len() == 14,
        "wayland-screencopy"@.len() == 18,
{
    reveal_strlit("x11");
    reveal_strlit("kms");
    reveal_strlit("nvfbc");
    reveal_strlit("pipewire");
    reveal_strlit("ext-image-copy");
    reveal_strlit("wayland-screencopy");
}

/// A capture of the screen itself or of a compositor takes input through the kernel's devices:
/// with absolute axes only for the screen itself, where they have them.
pub proof fn screen_captures_use_the_kernel(
    kms: bool,
    capture: &str,
    w: u32,
    h: u32,
    tried: ProbeResults,
    step: LinuxInputStep,
)
    requires
        if kms {
            capture@ == "kms"@
        } else {
            capture@ == "wayland-screencopy"@ || capture@ == "ext-image-copy"@
        },
        call_ensures(select_linux_backend, (capture, w, h, &tried), step),
    ensures
        tried.uinput is None ==> step == LinuxInputStep::Open(InputProbe::Uinput),
        tried.uinput matches Some(Ok(absolute)) ==> used(step, InputBackend::Uinput)
            && step->Use_0.capabilities.mouse_absolute == (kms && absolute)
            && step->Use_0.capabilities.hover_capture == (kms && absolute)
            && step->Use_0.capabilities.separate_cursor == kms
            && !step->Use_0.capabilities.cursor_position_reliable
            && step->Use_0.logical_size is None,
        tried.uinput matches Some(Err(e)) ==> (step matches LinuxInputStep::Fail(why) && why@ == e@),
{
    lemma_capture_names();
}

/// On macOS and on Windows input can do everything, text included.
pub proof fn other_systems_do_everything(macos: SelectedInput, windows: SelectedInput)
    requires
        call_ensures(macos_input, (), macos),
        call_ensures(windows_input, (), windows),
    ensures
        macos.backend == InputBackend::Macos && windows.backend == InputBackend::Windows,
        macos.capabilities.text_input && macos.capabilities.mouse_absolute
            && macos.capabilities.mouse_relative && macos.capabilities.keyboard
            && macos.capabilities.separate_cursor && macos.capabilities.hover_capture
            && macos.capabilities.cursor_position_reliable,
        windows.capabilities == macos.capabilities,
{
}

/// What a client says of its decoders is taken as it says it; of one that says nothing only H.264
/// is assumed.
pub proof fn clients_say_what_they_decode(
    info: ClientDisplayInfo,
    out: (VideoCodecSupport, VideoCodecSupport, VideoCodecSupport, VideoCodecSupport),
    hdr: bool,
    unsaid: (VideoCodecSupport, VideoCodecSupport, VideoCodecSupport, VideoCodecSupport),
    plain: bool,
)
    requires
        call_ensures(client_supported_video_codecs, (Some(info),), out.0),
        call_ensures(client_hardware_video_codecs, (Some(info),), out.1),
        call_ensures(client_supported_yuv444_video_codecs, (Some(info),), out.2),
        call_ensures(client_hardware_yuv444_video_codecs, (Some(info),), out.3),
        call_ensures(client_hdr_display, (Some(info),), hdr),
        call_ensures(client_supported_video_codecs, (None::<ClientDisplayInfo>,), unsaid.0),
        call_ensures(client_hardware_video_codecs, (None::<ClientDisplayInfo>,), unsaid.1),
        call_ensures(client_supported_yuv444_video_codecs, (None::<ClientDisplayInfo>,), unsaid.2),
        call_ensures(client_hardware_yuv444_video_codecs, (None::<ClientDisplayInfo>,), unsaid.3),
        call_ensures(client_hdr_display, (None::<ClientDisplayInfo>,), plain),
    ensures
        out.0 == info.supported_video_codecs,
        out.1 == info.hardware_video_codecs,
        out.2 == info.supported_yuv444_video_codecs,
        out.3 == info.hardware_yuv444_video_codecs,
        hdr == info.hdr_display,
        unsaid.0 == (VideoCodecSupport { h264: true, hevc: false, av1: false }),
        unsaid.1 == (VideoCodecSupport { h264: false, hevc: false, av1: false }),
        unsaid.2 == unsaid.1,
        unsaid.3 == unsaid.1,
        !plain,
{
    use_all_codecs(unsaid.0);
    use_all_codecs(unsaid.1);
    use_all_codecs(unsaid.2);
    use_all_codecs(unsaid.3);
}

proof fn use_all_codecs(s: VideoCodecSupport)
    ensures
        s.h264 == s.has(crate::media::VideoCodec::H264),
        s.hevc == s.has(crate::media::VideoCodec::Hevc),
        s.av1 == s.has(crate::media::VideoCodec::Av1),
{
}

/// A digest does not depend on how the file was cut into pieces.
pub proof fn digests_do_not_see_the_pieces(
    pieces: &Vec<Vec<u8>>,
    whole: &Vec<Vec<u8>>,
    a: [u8; 32],
    b: [u8; 32],
)
    requires
        call_ensures(compute_file_sha256, (pieces,), a),
        call_ensures(compute_file_sha256, (whole,), b),
        pieces@.len() == 2,
        whole@.len() == 1,
        whole@[0]@ == pieces@[0]@ + pieces@[1]@,
    ensures
        a@ == b@,
{
    reveal_with_fuel(crate::digest::concatenation, 4);
    let p = Seq::new(pieces@.len(), |i: int| pieces@[i]@);
    let w = Seq::new(whole@.len(), |i: int| whole@[i]@);
    assert(crate::digest::concatenation(p) =~= crate::digest::concatenation(w));
}

/// A digest that is fed piece by piece is the one of the file.
pub proof fn running_digests_agree(
    x: &mut FileDigest,
    y: &mut FileDigest,
    fresh: FileDigest,
    pieces: &Vec<Vec<u8>>,
    first: &[u8],
    second: &[u8],
    a: [u8; 32],
    b: [u8; 32],
)
    requires
        call_ensures(FileDigest::new, (), fresh),
        *old(x) == fresh,
        call_ensures(FileDigest::push, (x, first), ()),
        *old(y) == *final(x),
        call_ensures(FileDigest::push, (y, second), ()),
        call_ensures(FileDigest::finish, (*final(y),), a),
        pieces@.len() == 2,
        pieces@[0]@ == first@,
        pieces@[1]@ == second@,
        call_ensures(compute_file_sha256, (pieces,), b),
    ensures
        a@ == b@,
{
    reveal_with_fuel(crate::digest::concatenation, 4);
    let p = Seq::new(pieces@.len(), |i: int| pieces@[i]@);
    assert(crate::digest::concatenation(p) =~= first@ + second@);
    assert(final(y).bytes() =~= first@ + second@);
}

/// Of displays with one number the first is captured, and nothing has to be asked for.
pub proof fn first_displays_are_captured(
    displays: &Vec<DisplayInfo>,
    raw: &str,
    unset: Result<Option<u32>, String>,
    id: u32,
    out: Result<usize, String>,
    j: int,
)
    requires
        call_ensures(requested_display_id, (None::<&str>,), unset),
        call_ensures(requested_display_id, (Some(raw),), Ok::<Option<u32>, String>(Some(id))),
        call_ensures(select_capture_display, (displays, Some(raw)), out),
    ensures
        unset == Ok::<Option<u32>, String>(None),
        out matches Ok(i) ==> 0 <= j < i ==> displays@[j].id != id,
{
}

/// What a compositor prints is read as the document that it is, and nothing is read of what is
/// none.
pub proof fn reports_are_documents(
    text: &str,
    tree: Json,
    hyprland: Option<FocusedWindow>,
    direct: FocusedWindow,
    sway: Option<FocusedWindow>,
    found: Option<FocusedWindow>,
)
    requires
        call_ensures(parse_hyprland_focus, (text,), hyprland),
        call_ensures(parse_sway_focus, (text,), sway),
        call_ensures(hyprland_window, (&tree,), direct),
        call_ensures(sway_focused_window, (&tree, false), found),
    ensures
        parsed_json(text@) is None ==> hyprland is None && sway is None,
        parsed_json(text@) == Some(tree@) ==> {
            &&& hyprland matches Some(w) && w@ == direct@
            &&& sway is Some
            &&& found matches Some(f) ==> sway->0@ == f@
            &&& found is None ==> !sway->0.fullscreen && sway->0.class@.len() == 0
                && sway->0.pid is None
        },
{
}

/// A report of KWin names its process by its number, where the window has no class.
pub proof fn kwin_windows_go_by_their_class(class: &str, pid: &str, n: u32, out: Option<u32>)
    requires
        call_ensures(kwin_report_pid, (class, pid), out),
    ensures
        class@.len() > 0 ==> out is None,
        class@.len() == 0 && n > 0 && pid@ == decimal(n as nat) ==> out == Some(n),
        parsed_unsigned(pid@, 0xffff_ffff) is None ==> out is None,
{
    crate::text::decimal_reads_back(n as nat);
}

/// A value of zero is no port, and a warning tells the value.
pub proof fn warnings_tell_the_value(value: &str, port: u16, warning: Option<String>)
    requires
        call_ensures(configured_listen_port, (Some(value),), port),
        call_ensures(listen_port_warning, (Some(value),), warning),
    ensures
        warning is None <==> (parsed_unsigned(value@, 65535) matches Some(n) && n >= 1),
        warning is None ==> parsed_unsigned(value@, 65535) == Some(port as nat),
        warning matches Some(text) ==> occurs_in(text@, value@),
{
    if let Some(text) = warning {
        let head = "[config] Invalid ST_PORT='"@;
        let tail = "', falling back to "@ + decimal(28_480);
        assert(text@.subrange(head.len() as int, head.len() as int + value@.len()) =~= value@);
        assert(crate::text::stands_at(text@, value@, head.len() as int));
    }
}

/// Nothing but a session of the portal is told the size of the stream.
pub proof fn only_portals_are_told_the_size(
    capture: &str,
    w: u32,
    h: u32,
    tried: ProbeResults,
    step: LinuxInputStep,
    macos: SelectedInput,
    windows: SelectedInput,
)
    requires
        call_ensures(select_linux_backend, (capture, w, h, &tried), step),
        call_ensures(macos_input, (), macos),
        call_ensures(windows_input, (), windows),
    ensures
        step matches LinuxInputStep::Use(s) ==> (s.logical_size is Some <==> s.backend
            == InputBackend::PortalRemoteDesktop),
        step matches LinuxInputStep::Use(s) ==> s.backend == InputBackend::PortalRemoteDesktop
            ==> s.capabilities.hover_capture && s.capabilities.cursor_position_reliable,
        macos.logical_size is None && windows.logical_size is None,
{
}

/// Nothing has been tried or reported at the start.
pub proof fn watching_starts_empty(progress: WakeProgress, receiver: KwinReceiver)
    requires
        call_ensures(WakeProgress::new, (), progress),
        call_ensures(KwinReceiver::new, (), receiver),
    ensures
        progress.dbus@.len() == 0 && progress.cli@.len() == 0 && progress.x11 is None,
        !receiver.dirty && !receiver.shared.fullscreen && receiver.shared.class@.len() == 0,
{
}

/// A command of a compositor is called by its program.
pub proof fn commands_are_called_by_their_program(
    index: usize,
    label: &'static str,
    command: Vec<&'static str>,
)
    requires
        index < 4,
        call_ensures(cli_label, (index,), label),
        call_ensures(cli_command, (index,), command),
    ensures
        command@.len() > 1,
        crate::text::stands_at(label@, command@[0]@, 0),
{
    let list = crate::screen_wake::words(command@);
    assert(list.len() == command@.len());
    assert(list[0] == command@[0]@);
    reveal_strlit("hyprctl dispatch dpms on");
    reveal_strlit("swaymsg output * power on");
    reveal_strlit("wlopm --on '*'");
    reveal_strlit("kscreen-doctor output.*.enable");
    reveal_strlit("hyprctl");
    reveal_strlit("swaymsg");
    reveal_strlit("wlopm");
    reveal_strlit("kscreen-doctor");
    let program = command@[0]@;
    assert(label@.subrange(0, program.len() as int) =~= program);
}

/// A display is called by its number and its size, the width first.
pub proof fn displays_are_called_by_their_size(display: DisplayInfo, out: String)
    requires
        call_ensures(describe_display, (display,), out),
    ensures
        out@ == "display "@ + decimal(display.id as nat) + " ("@ + decimal(display.width as nat)
            + "x"@ + decimal(display.height as nat) + ")"@,
{
}

} // verus!
