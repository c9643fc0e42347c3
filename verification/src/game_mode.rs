//! Whether the window in front is a game.
//!
//! A window is a game if its class matches a known game class, if its identity is that of a
//! known standalone game, or if it is fullscreen and its class is not one of a browser or a
//! video player. Windows without a class go by the name of their executable.

use vstd::prelude::*;
use crate::json::{parse_json, parsed_json, Json, JsonTree};
use crate::text::{
    contains, lowered, occurs_in, parse_unsigned, parsed_unsigned, same_text, split, split_parts,
    texts, to_ascii_lowercase, trim, trimmed,
};
use crate::transport::{enabled_by_default, on_by_default, text_of};

verus! {

/// How often a compositor is asked for its focused window.
pub const WLROOTS_POLL_MILLIS: u64 = 400;

/// How often reports of the KWin script are looked at.
pub const KWIN_POLL_MILLIS: u64 = 150;

/// How often loading the KWin script is tried.
pub const KWIN_LOAD_ATTEMPTS: u32 = 20;

/// The pause between two tries.
pub const KWIN_LOAD_PAUSE_MILLIS: u64 = 25;

/// The focused window.
#[derive(Debug, PartialEq, Eq)]
pub struct FocusState {
    pub fullscreen: bool,
    /// The class of the window, or the name of its executable.
    pub class: String,
}

impl FocusState {
    /// No window.
    pub fn none() -> (out: Self)
        ensures
            !out.fullscreen,
            out.class@ == Seq::<char>::empty(),
    {
        FocusState { fullscreen: false, class: String::new() }
    }
}

/// The focused window as a compositor reports it.
#[derive(Debug, PartialEq, Eq)]
pub struct FocusedWindow {
    pub fullscreen: bool,
    pub class: String,
    pub pid: Option<u32>,
}

/// The same as a value of mathematics.
pub ghost struct WindowView {
    pub fullscreen: bool,
    pub class: Seq<char>,
    pub pid: Option<u32>,
}

impl View for FocusedWindow {
    type V = WindowView;

    open spec fn view(&self) -> WindowView {
        WindowView { fullscreen: self.fullscreen, class: self.class@, pid: self.pid }
    }
}

/// The process whose executable names a window: none where the window has a class.
pub open spec fn naming_process(class: Seq<char>, pid: Option<u32>) -> Option<u32> {
    match pid {
        Some(p) if class.len() == 0 && p > 0 => Some(p),
        _ => None,
    }
}

/// Which process has to be looked up to name a window.
pub fn identity_pid(class: &str, pid: Option<u32>) -> (out: Option<u32>)
    ensures
        out == naming_process(class@, pid),
{
    match pid {
        Some(p) => if class.is_empty() && p > 0 {
            Some(p)
        } else {
            None
        },
        None => None,
    }
}

/// What a window is called: its class, or else the name of its executable, or else nothing.
pub open spec fn identity(class: Seq<char>, executable: Option<Seq<char>>) -> Seq<char> {
    if class.len() > 0 {
        class
    } else {
        match executable {
            Some(name) => name,
            None => Seq::empty(),
        }
    }
}

/// What a window is called. `executable` is the name of the executable of the process that
/// `identity_pid` gave, where that could be found.
pub fn window_identity(class: &str, executable: Option<&str>) -> (out: String)
    ensures
        out@ == identity(class@, text_of(executable)),
{
    if !class.is_empty() {
        return class.to_owned();
    }
    match executable {
        Some(name) => name.to_owned(),
        None => String::new(),
    }
}

/// Whether the detector is on, by `ST_GAME_MODE`.
pub fn enabled(value: Option<&str>) -> (on: bool)
    ensures
        on == on_by_default(text_of(value)),
{
    enabled_by_default(value)
}

/// The class fragments of browsers and video players.
pub open spec fn builtin_excluded() -> Seq<Seq<char>> {
    seq![
        "firefox"@,
        "chrome"@,
        "chromium"@,
        "brave"@,
        "vivaldi"@,
        "opera"@,
        "msedge"@,
        "mpv"@,
        "vlc"@,
        "mplayer"@,
        "smplayer"@,
        "celluloid"@,
        "totem"@,
        "kodi"@,
        "plasmashell"@,
        "haruna"@,
        "dragonplayer"@,
    ]
}

/// The class fragments of browsers and video players, which fill the screen with what is
/// still to be clicked.
pub fn default_excluded() -> (out: Vec<String>)
    ensures
        texts(out@) == builtin_excluded(),
{
    let mut out: Vec<String> = Vec::new();
    out.push("firefox".to_owned());
    out.push("chrome".to_owned());
    out.push("chromium".to_owned());
    out.push("brave".to_owned());
    out.push("vivaldi".to_owned());
    out.push("opera".to_owned());
    out.push("msedge".to_owned());
    out.push("mpv".to_owned());
    out.push("vlc".to_owned());
    out.push("mplayer".to_owned());
    out.push("smplayer".to_owned());
    out.push("celluloid".to_owned());
    out.push("totem".to_owned());
    out.push("kodi".to_owned());
    out.push("plasmashell".to_owned());
    out.push("haruna".to_owned());
    out.push("dragonplayer".to_owned());
    proof {
        assert(texts(out@) =~= builtin_excluded());
    }
    out
}

/// The class fragments of games.
pub open spec fn builtin_games() -> Seq<Seq<char>> {
    seq!["steam_app_"@, "gamescope"@, "lutris"@]
}

/// The class fragments of games, fullscreen or not.
pub fn default_game_classes() -> (out: Vec<String>)
    ensures
        texts(out@) == builtin_games(),
{
    let mut out: Vec<String> = Vec::new();
    out.push("steam_app_".to_owned());
    out.push("gamescope".to_owned());
    out.push("lutris".to_owned());
    proof {
        assert(texts(out@) =~= builtin_games());
    }
    out
}

/// The fragments among the parts of a list: trimmed, in lower case, and not empty.
pub open spec fn fragments(parts: Seq<Seq<char>>) -> Seq<Seq<char>>
    decreases parts.len(),
{
    if parts.len() == 0 {
        Seq::empty()
    } else {
        let rest = fragments(parts.drop_last());
        let part = lowered(trimmed(parts.last()));
        if part.len() > 0 {
            rest.push(part)
        } else {
            rest
        }
    }
}

/// The fragments that a comma-separated list adds.
pub open spec fn extra_fragments(extra: Option<Seq<char>>) -> Seq<Seq<char>> {
    match extra {
        Some(list) => fragments(split_parts(list, ',')),
        None => Seq::empty(),
    }
}

/// A list of fragments with those of a comma-separated list added.
pub fn class_list(builtin: Vec<String>, extra: Option<&str>) -> (out: Vec<String>)
    ensures
        texts(out@) == texts(builtin@) + extra_fragments(text_of(extra)),
{
    let mut out = builtin;
    let ghost start = texts(out@);
    match extra {
        None => {
            proof {
                assert(start =~= start + Seq::<Seq<char>>::empty());
            }
        },
        Some(list) => {
            let parts = split(list, ',');
            let ghost all = texts(parts@);
            let mut i: usize = 0;
            proof {
                assert(start =~= start + fragments(all.subrange(0, 0)));
            }
            while i < parts.len()
                invariant
                    i <= parts@.len(),
                    all == texts(parts@),
                    texts(out@) == start + fragments(all.subrange(0, i as int)),
                decreases parts@.len() - i,
            {
                let part = to_ascii_lowercase(trim(parts[i].as_str()).as_str());
                let ghost before = texts(out@);
                proof {
                    let longer = all.subrange(0, i + 1);
                    assert(longer.drop_last() =~= all.subrange(0, i as int));
                    assert(longer.last() == parts@[i as int]@);
                    assert(part@ == lowered(trimmed(longer.last())));
                }
                if !part.as_str().is_empty() {
                    let ghost text = part@;
                    let ghost list = out@;
                    out.push(part);
                    proof {
                        assert(texts(out@) =~= before.push(text));
                        assert(before.push(text) =~= start + fragments(
                            all.subrange(0, i as int),
                        ).push(text));
                    }
                }
                i = i + 1;
            }
            proof {
                assert(all.subrange(0, all.len() as int) =~= all);
            }
        },
    }
    out
}

/// The fragments of classes that are no games, with those of `ST_GAME_MODE_EXCLUDE`.
pub fn excluded_classes(extra: Option<&str>) -> (out: Vec<String>)
    ensures
        texts(out@) == builtin_excluded() + extra_fragments(text_of(extra)),
{
    class_list(default_excluded(), extra)
}

/// The fragments of game classes, with those of `ST_GAME_MODE_CLASSES`.
pub fn game_classes(extra: Option<&str>) -> (out: Vec<String>)
    ensures
        texts(out@) == builtin_games() + extra_fragments(text_of(extra)),
{
    class_list(default_game_classes(), extra)
}

/// That one of the fragments occurs in a class.
pub open spec fn matches_any(class: Seq<char>, list: Seq<Seq<char>>) -> bool {
    exists|i: int| 0 <= i < list.len() && #[trigger] occurs_in(class, list[i])
}

fn any_occurs(class: &str, list: &Vec<String>) -> (yes: bool)
    ensures
        yes == matches_any(class@, texts(list@)),
{
    let mut i: usize = 0;
    while i < list.len()
        invariant
            i <= list@.len(),
            forall|k: int| 0 <= k < i ==> !#[trigger] occurs_in(class@, texts(list@)[k]),
        decreases list@.len() - i,
    {
        proof {
            assert(texts(list@)[i as int] == list@[i as int]@);
        }
        if contains(class, list[i].as_str()) {
            proof {
                assert(occurs_in(class@, texts(list@)[i as int]));
            }
            return true;
        }
        i = i + 1;
    }
    false
}

/// That a window is a game.
pub open spec fn judged_game(
    fullscreen: bool,
    class: Seq<char>,
    excluded: Seq<Seq<char>>,
    games: Seq<Seq<char>>,
) -> bool {
    let name = lowered(class);
    ||| name == "z3d"@
    ||| matches_any(name, games)
    ||| fullscreen && name.len() > 0 && !matches_any(name, excluded)
}

/// Whether a window is a game.
pub fn is_game(state: &FocusState, excluded: &Vec<String>, games: &Vec<String>) -> (yes: bool)
    ensures
        yes == judged_game(state.fullscreen, state.class@, texts(excluded@), texts(games@)),
{
    let name = to_ascii_lowercase(state.class.as_str());
    let name = name.as_str();
    if same_text(name, "z3d") || any_occurs(name, games) {
        return true;
    }
    if !state.fullscreen || name.is_empty() {
        return false;
    }
    !any_occurs(name, excluded)
}

/// A known game class makes a game, fullscreen or not, excluded or not.
pub proof fn game_class_wins(
    fullscreen: bool,
    class: Seq<char>,
    excluded: Seq<Seq<char>>,
    games: Seq<Seq<char>>,
)
    requires
        matches_any(lowered(class), games),
    ensures
        judged_game(fullscreen, class, excluded, games),
{
}

/// That no fragment of a list is empty.
pub open spec fn no_empty(list: Seq<Seq<char>>) -> bool {
    forall|i: int| 0 <= i < list.len() ==> (#[trigger] list[i]).len() > 0
}

/// A window of unknown identity is never a game, fullscreen or not.
pub proof fn unknown_identity_is_no_game(
    fullscreen: bool,
    excluded: Seq<Seq<char>>,
    games: Seq<Seq<char>>,
)
    requires
        no_empty(games),
    ensures
        !judged_game(fullscreen, Seq::empty(), excluded, games),
{
    let name = lowered(Seq::empty());
    assert(name =~= Seq::<char>::empty());
    reveal_strlit("z3d");
    if matches_any(name, games) {
        let i = choose|i: int| 0 <= i < games.len() && #[trigger] occurs_in(name, games[i]);
        assert(games[i].len() > 0);
    }
}

proof fn lemma_fragments_not_empty(parts: Seq<Seq<char>>)
    ensures
        no_empty(fragments(parts)),
    decreases parts.len(),
{
    if parts.len() > 0 {
        lemma_fragments_not_empty(parts.drop_last());
    }
}

/// The lists that are used hold no empty fragment, whatever the environment says.
pub proof fn game_classes_are_not_empty(extra: Option<Seq<char>>)
    ensures
        no_empty(builtin_games() + extra_fragments(extra)),
{
    if let Some(list) = extra {
        lemma_fragments_not_empty(split_parts(list, ','));
    }
    reveal_strlit("steam_app_");
    reveal_strlit("gamescope");
    reveal_strlit("lutris");
    let all = builtin_games() + extra_fragments(extra);
    assert forall|i: int| 0 <= i < all.len() implies (#[trigger] all[i]).len() > 0 by {
        if i >= 3 {
            assert(all[i] == extra_fragments(extra)[i - 3]);
        } else {
            assert(all[i] == builtin_games()[i]);
        }
    }
}

/// A compositor that can be watched.
#[derive(Clone, Copy, Debug, PartialEq, Eq, Structural)]
pub enum Compositor {
    Hyprland,
    Sway,
    Kwin,
}

/// Whether the session is one of KDE, by `XDG_CURRENT_DESKTOP` and `KDE_FULL_SESSION`.
pub fn is_kwin(desktop: Option<&str>, full_session: bool) -> (yes: bool)
    ensures
        yes == (full_session || (text_of(desktop) matches Some(d) && occurs_in(lowered(d), "kde"@))),
{
    match desktop {
        Some(d) => contains(to_ascii_lowercase(d).as_str(), "kde") || full_session,
        None => full_session,
    }
}

/// What the environment says about the session.
#[derive(Clone, Copy, Debug)]
pub struct SessionEnv<'a> {
    /// `ST_GAME_MODE`.
    pub game_mode: Option<&'a str>,
    /// That `HYPRLAND_INSTANCE_SIGNATURE` is set.
    pub hyprland: bool,
    /// That `SWAYSOCK` is set.
    pub sway: bool,
    /// `XDG_CURRENT_DESKTOP`.
    pub desktop: Option<&'a str>,
    /// That `KDE_FULL_SESSION` is set.
    pub kde_full_session: bool,
    /// `ST_GAME_MODE_EXCLUDE`.
    pub exclude: Option<&'a str>,
    /// `ST_GAME_MODE_CLASSES`.
    pub classes: Option<&'a str>,
}

impl<'a> SessionEnv<'a> {
    /// The compositor that is watched, where the detector is on and there is one.
    pub open spec fn watched(self) -> Option<Compositor> {
        if !on_by_default(text_of(self.game_mode)) {
            None
        } else if self.hyprland {
            Some(Compositor::Hyprland)
        } else if self.sway {
            Some(Compositor::Sway)
        } else if self.kde_full_session || (text_of(self.desktop) matches Some(d) && occurs_in(
            lowered(d),
            "kde"@,
        )) {
            Some(Compositor::Kwin)
        } else {
            None
        }
    }
}

/// A running detector.
#[derive(Debug)]
pub struct GameModeWatcher {
    pub compositor: Compositor,
    pub excluded: Vec<String>,
    pub games: Vec<String>,
    /// The verdict that was told last.
    pub last: Option<bool>,
}

/// Starts the detector for the compositor of the session; `None` where it is off or the
/// compositor cannot be watched.
pub fn start(env: SessionEnv<'_>) -> (out: Option<GameModeWatcher>)
    ensures
        match out {
            Some(w) => {
                &&& env.watched() == Some(w.compositor)
                &&& texts(w.excluded@) == builtin_excluded() + extra_fragments(text_of(env.exclude))
                &&& texts(w.games@) == builtin_games() + extra_fragments(text_of(env.classes))
                &&& w.last is None
            },
            None => env.watched() is None,
        },
{
    if !enabled(env.game_mode) {
        return None;
    }
    let compositor = if env.hyprland {
        Compositor::Hyprland
    } else if env.sway {
        Compositor::Sway
    } else if is_kwin(env.desktop, env.kde_full_session) {
        Compositor::Kwin
    } else {
        return None;
    };
    Some(
        GameModeWatcher {
            compositor,
            excluded: excluded_classes(env.exclude),
            games: game_classes(env.classes),
            last: None,
        },
    )
}

impl GameModeWatcher {
    /// The verdict on a window.
    pub open spec fn verdict(self, state: FocusState) -> bool {
        judged_game(state.fullscreen, state.class@, texts(self.excluded@), texts(self.games@))
    }

    /// The watcher after a window has been seen.
    pub open spec fn after(self, state: FocusState) -> GameModeWatcher {
        GameModeWatcher { last: Some(self.verdict(state)), ..self }
    }

    /// What is told of a window: its verdict, where it is not the one told last.
    pub open spec fn change(self, state: FocusState) -> Option<bool> {
        if self.last == Some(self.verdict(state)) {
            None
        } else {
            Some(self.verdict(state))
        }
    }

    /// The watcher after some answers of the compositor, and what was told meanwhile. An
    /// answer that says nothing of a window is passed over.
    pub open spec fn run(self, answers: Seq<Option<FocusState>>) -> (GameModeWatcher, Seq<bool>)
        decreases answers.len(),
    {
        if answers.len() == 0 {
            (self, Seq::empty())
        } else {
            let (watcher, told) = self.run(answers.drop_last());
            match answers.last() {
                None => (watcher, told),
                Some(state) => match watcher.change(state) {
                    None => (watcher.after(state), told),
                    Some(game) => (watcher.after(state), told.push(game)),
                },
            }
        }
    }

    /// The verdicts on the windows of some answers.
    pub open spec fn verdicts(self, answers: Seq<Option<FocusState>>) -> Seq<bool>
        decreases answers.len(),
    {
        if answers.len() == 0 {
            Seq::empty()
        } else {
            let before = self.verdicts(answers.drop_last());
            match answers.last() {
                None => before,
                Some(state) => before.push(self.verdict(state)),
            }
        }
    }

    /// Takes in the focused window; gives the verdict where it is not the one told last.
    pub fn observe(&mut self, state: &FocusState) -> (change: Option<bool>)
        ensures
            *final(self) == old(self).after(*state),
            change == old(self).change(*state),
    {
        let game: bool = is_game(state, &self.excluded, &self.games);
        let known: bool = match self.last {
            Some(last) => last == game,
            None => false,
        };
        if known {
            None
        } else {
            self.last = Some(game);
            Some(game)
        }
    }
}

/// A list without the items that are equal to the one before them.
pub open spec fn without_repeats(list: Seq<bool>) -> Seq<bool>
    decreases list.len(),
{
    if list.len() == 0 {
        Seq::empty()
    } else {
        let before = without_repeats(list.drop_last());
        if list.len() > 1 && list[list.len() - 2] == list.last() {
            before
        } else {
            before.push(list.last())
        }
    }
}

/// What a watcher tells over time is the verdict on each window it sees, without repeats.
/// Answers without a window change nothing, and the verdict that was told last stands.
pub proof fn verdicts_are_told_once(watcher: GameModeWatcher, answers: Seq<Option<FocusState>>)
    requires
        watcher.last is None,
    ensures
        watcher.run(answers).1 == without_repeats(watcher.verdicts(answers)),
        ({
            let (end, told) = watcher.run(answers);
            let verdicts = watcher.verdicts(answers);
            &&& end == GameModeWatcher { last: end.last, ..watcher }
            &&& end.last == if verdicts.len() == 0 {
                None
            } else {
                Some(verdicts.last())
            }
            &&& end.last == if told.len() == 0 {
                None
            } else {
                Some(told.last())
            }
            &&& forall|i: int|
                0 < i < told.len() ==> #[trigger] told[i] != told[i - 1]
        }),
    decreases answers.len(),
{
    if answers.len() > 0 {
        let before = answers.drop_last();
        verdicts_are_told_once(watcher, before);
        let verdicts = watcher.verdicts(answers);
        if answers.last() is Some {
            assert(verdicts.drop_last() =~= watcher.verdicts(before));
        }
    }
}

/// `n` as a process number, where it is one.
pub open spec fn process_number(n: Option<u64>) -> Option<u32> {
    match n {
        Some(v) => if v <= u32::MAX {
            Some(v as u32)
        } else {
            None
        },
        None => None,
    }
}

fn to_pid(n: Option<u64>) -> (out: Option<u32>)
    ensures
        out == process_number(n),
{
    match n {
        Some(v) => if v <= 0xffff_ffff {
            Some(v as u32)
        } else {
            None
        },
        None => None,
    }
}

/// That a field holds a positive integer.
pub open spec fn is_positive(value: JsonTree) -> bool {
    value.unsigned() matches Some(n) && n > 0
}

fn positive_field(node: &Json, name: &str) -> (yes: bool)
    ensures
        yes == is_positive(node@.field(name@)),
{
    match node.unsigned_field(name) {
        Some(n) => n > 0,
        None => false,
    }
}

/// A text, and the empty one where there is none.
pub open spec fn text_or_empty(text: Option<Seq<char>>) -> Seq<char> {
    match text {
        Some(s) => s,
        None => Seq::empty(),
    }
}

/// The window that Hyprland describes.
pub open spec fn hyprland_view(window: JsonTree) -> WindowView {
    WindowView {
        fullscreen: is_positive(window.field("fullscreen"@)),
        class: text_or_empty(window.field("class"@).text()),
        pid: process_number(window.field("pid"@).unsigned()),
    }
}

/// Reads the description of the active window of Hyprland.
pub fn hyprland_window(window: &Json) -> (out: FocusedWindow)
    ensures
        out@ == hyprland_view(window@),
{
    let class = match window.text_field("class") {
        Some(class) => class.to_owned(),
        None => String::new(),
    };
    FocusedWindow {
        fullscreen: positive_field(window, "fullscreen"),
        class,
        pid: to_pid(window.unsigned_field("pid")),
    }
}

/// Reads what `hyprctl -j activewindow` prints; `None` where that is no JSON.
pub fn parse_hyprland_focus(text: &str) -> (out: Option<FocusedWindow>)
    ensures
        match (out, parsed_json(text@)) {
            (Some(window), Some(tree)) => window@ == hyprland_view(tree),
            (None, None) => true,
            _ => false,
        },
{
    match parse_json(text) {
        Some(window) => Some(hyprland_window(&window)),
        None => None,
    }
}

/// The window of a node of Sway's tree: its application id, or else its X11 class.
pub open spec fn sway_view(node: JsonTree, fullscreen: bool) -> WindowView {
    WindowView {
        fullscreen,
        class: match node.field("app_id"@).text() {
            Some(id) if id.len() > 0 => id,
            _ => text_or_empty(node.field("window_properties"@).field("class"@).text()),
        },
        pid: process_number(node.field("pid"@).unsigned()),
    }
}

/// The focused window of a tree of Sway, depth first, tiled windows before floating ones.
/// A window is fullscreen if it is or a node above it is.
pub open spec fn sway_focus(node: JsonTree, above: bool) -> Option<WindowView>
    decreases node, 1int, 0int,
{
    let fullscreen = above || is_positive(node.field("fullscreen_mode"@));
    if node.field("focused"@) == JsonTree::Bool(true) {
        Some(sway_view(node, fullscreen))
    } else {
        let tiled = sway_focus_among(node, "nodes"@, 0, fullscreen);
        if tiled is Some {
            tiled
        } else {
            sway_focus_among(node, "floating_nodes"@, 0, fullscreen)
        }
    }
}

/// The focused window in the children of a node, from the one at `from` on.
pub open spec fn sway_focus_among(node: JsonTree, name: Seq<char>, from: int, above: bool) -> Option<
    WindowView,
>
    decreases node, 0int, node.field(name).elements().len() - from,
{
    let children = node.field(name).elements();
    if from < 0 || from >= children.len() {
        None
    } else {
        proof {
            crate::json::element_is_smaller(node, name, from);
        }
        let found = sway_focus(children[from], above);
        if found is Some {
            found
        } else {
            sway_focus_among(node, name, from + 1, above)
        }
    }
}

fn sway_node_class(node: &Json) -> (class: String)
    ensures
        class@ == sway_view(node@, false).class,
{
    if let Some(id) = node.text_field("app_id") {
        if !id.is_empty() {
            return id.to_owned();
        }
    }
    match node.get("window_properties") {
        Some(properties) => match properties.text_field("class") {
            Some(class) => class.to_owned(),
            None => String::new(),
        },
        None => String::new(),
    }
}

/// Finds the focused window in a tree of Sway; `above` says whether a node above the tree
/// is fullscreen.
pub fn sway_focused_window(node: &Json, above: bool) -> (out: Option<FocusedWindow>)
    ensures
        match out {
            Some(window) => sway_focus(node@, above) == Some(window@),
            None => sway_focus(node@, above) is None,
        },
    decreases node@, 1int, 0int,
{
    let fullscreen: bool = above || positive_field(node, "fullscreen_mode");
    if node.is_true("focused") {
        return Some(
            FocusedWindow {
                fullscreen,
                class: sway_node_class(node),
                pid: to_pid(node.unsigned_field("pid")),
            },
        );
    }
    if let Some(window) = sway_focused_child(node, "nodes", 0, fullscreen) {
        return Some(window);
    }
    sway_focused_child(node, "floating_nodes", 0, fullscreen)
}

fn sway_focused_child(node: &Json, name: &str, from: usize, above: bool) -> (out: Option<
    FocusedWindow,
>)
    ensures
        match out {
            Some(window) => sway_focus_among(node@, name@, from as int, above) == Some(window@),
            None => sway_focus_among(node@, name@, from as int, above) is None,
        },
    decreases node@, 0int, node@.field(name@).elements().len() - from,
{
    match node.array_field(name) {
        Some(children) => {
            if from >= children.len() {
                return None;
            }
            proof {
                crate::json::element_is_smaller(node@, name@, from as int);
                assert(node@.field(name@).elements()[from as int] == children@[from as int]@);
            }
            if let Some(window) = sway_focused_window(&children[from], above) {
                return Some(window);
            }
            sway_focused_child(node, name, from + 1, above)
        },
        None => None,
    }
}

/// The focused window of a tree of Sway, or none at all.
pub open spec fn sway_focus_or_none(tree: JsonTree) -> WindowView {
    match sway_focus(tree, false) {
        Some(window) => window,
        None => WindowView { fullscreen: false, class: Seq::empty(), pid: None },
    }
}

/// Reads what `swaymsg -t get_tree` prints; `None` where that is no JSON. A tree without a
/// focused node has no window in front.
pub fn parse_sway_focus(text: &str) -> (out: Option<FocusedWindow>)
    ensures
        match (out, parsed_json(text@)) {
            (Some(window), Some(tree)) => window@ == sway_focus_or_none(tree),
            (None, None) => true,
            _ => false,
        },
{
    match parse_json(text) {
        Some(tree) => match sway_focused_window(&tree, false) {
            Some(window) => Some(window),
            None => Some(FocusedWindow { fullscreen: false, class: String::new(), pid: None }),
        },
        None => None,
    }
}

/// The state of a window of Hyprland once its executable was looked up.
pub fn hyprland_state(window: &FocusedWindow, executable: Option<&str>) -> (out: FocusState)
    ensures
        out.class@ == identity(window.class@, text_of(executable)),
        out.fullscreen == window.fullscreen,
{
    FocusState {
        fullscreen: window.fullscreen,
        class: window_identity(window.class.as_str(), executable),
    }
}

/// The state of a window of Sway once its executable was looked up. A focused workspace
/// without a window is not a fullscreen application.
pub fn sway_state(window: &FocusedWindow, executable: Option<&str>) -> (out: FocusState)
    ensures
        out.class@ == identity(window.class@, text_of(executable)),
        out.fullscreen == (window.fullscreen && out.class@.len() > 0),
{
    let class = window_identity(window.class.as_str(), executable);
    let fullscreen: bool = window.fullscreen && !class.as_str().is_empty();
    FocusState { fullscreen, class }
}

/// What the KWin script reported.
#[derive(Debug)]
pub struct KwinReceiver {
    pub shared: FocusState,
    /// That it was not looked at yet.
    pub dirty: bool,
}

/// The process to look up for a report, whose process number is a text.
pub fn kwin_report_pid(class: &str, pid: &str) -> (out: Option<u32>)
    ensures
        out == naming_process(
            class@,
            match parsed_unsigned(pid@, u32::MAX as nat) {
                Some(n) => Some(n as u32),
                None => None,
            },
        ),
{
    match parse_unsigned(pid, 0xffff_ffff) {
        Some(n) => identity_pid(class, Some(n as u32)),
        None => None,
    }
}

impl KwinReceiver {
    pub fn new() -> (out: Self)
        ensures
            !out.dirty,
            !out.shared.fullscreen,
            out.shared.class@ == Seq::<char>::empty(),
    {
        KwinReceiver { shared: FocusState::none(), dirty: false }
    }

    /// Takes in a report, with the name of the executable where one was looked up.
    pub fn report(&mut self, fullscreen: bool, class: &str, executable: Option<&str>)
        ensures
            final(self).dirty,
            final(self).shared.fullscreen == fullscreen,
            final(self).shared.class@ == identity(class@, text_of(executable)),
    {
        self.shared = FocusState { fullscreen, class: window_identity(class, executable) };
        self.dirty = true;
    }

    /// Whether there is a report that was not looked at; it counts as looked at from now.
    pub fn take_dirty(&mut self) -> (was: bool)
        ensures
            was == old(self).dirty,
            !final(self).dirty,
            final(self).shared == old(self).shared,
    {
        let was: bool = self.dirty;
        self.dirty = false;
        was
    }
}

/// What to do after a try to load the KWin script.
#[derive(Clone, Copy, Debug, PartialEq, Eq, Structural)]
pub enum KwinLoad {
    Start,
    /// After a pause: the script of before is still being removed.
    Retry,
    Fail,
}

/// Decides what to do after the `attempt`-th try to load the KWin script, counted from
/// one, gave the number `id`; a negative number is a refusal.
pub fn kwin_load_step(attempt: u32, id: i32) -> (step: KwinLoad)
    ensures
        step == if id >= 0 {
            KwinLoad::Start
        } else if attempt < KWIN_LOAD_ATTEMPTS {
            KwinLoad::Retry
        } else {
            KwinLoad::Fail
        },
{
    if id >= 0 {
        KwinLoad::Start
    } else if attempt < KWIN_LOAD_ATTEMPTS {
        KwinLoad::Retry
    } else {
        KwinLoad::Fail
    }
}

} // verus!
