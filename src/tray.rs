//! The tray menu's mirror of the playback state, and what clicks on its
//! items ask of the shell.
use vstd::prelude::*;

use crate::text::same_text;

verus! {

/// How playback repeats; exactly one is selected in the menu at any time.
#[derive(Clone, Copy, Debug, PartialEq, Eq, Structural)]
pub enum RepeatMode {
    Single,
    List,
    Random,
}

/// The mode that a shell tag names.
pub open spec fn mode_of_tag(tag: Seq<char>) -> Option<RepeatMode> {
    if tag == "single"@ {
        Some(RepeatMode::Single)
    } else if tag == "list"@ {
        Some(RepeatMode::List)
    } else if tag == "random"@ {
        Some(RepeatMode::Random)
    } else {
        None
    }
}

pub open spec fn tag_of_mode(m: RepeatMode) -> Seq<char> {
    match m {
        RepeatMode::Single => "single"@,
        RepeatMode::List => "list"@,
        RepeatMode::Random => "random"@,
    }
}

impl RepeatMode {
    /// The mode that a shell tag (`single`, `list`, `random`) names.
    pub fn from_tag(tag: &str) -> (r: Option<RepeatMode>)
        ensures
            r == mode_of_tag(tag@),
    {
        if same_text(tag, "single") {
            Some(RepeatMode::Single)
        } else if same_text(tag, "list") {
            Some(RepeatMode::List)
        } else if same_text(tag, "random") {
            Some(RepeatMode::Random)
        } else {
            None
        }
    }

    /// The tag by which the shell knows this mode.
    pub fn tag(&self) -> (r: &'static str)
        ensures
            r@ == tag_of_mode(*self),
    {
        match self {
            RepeatMode::Single => "single",
            RepeatMode::List => "list",
            RepeatMode::Random => "random",
        }
    }
}

/// A playback request that the tray hands to the shell.
#[derive(Clone, Copy, Debug, PartialEq, Eq, Structural)]
pub enum PlaybackControl {
    Toggle,
    Prev,
    Next,
}

impl PlaybackControl {
    /// The payload by which the shell knows this request.
    pub fn tag(&self) -> (r: &'static str)
        ensures
            r@ == match *self {
                PlaybackControl::Toggle => "toggle"@,
                PlaybackControl::Prev => "prev"@,
                PlaybackControl::Next => "next"@,
            },
    {
        match self {
            PlaybackControl::Toggle => "toggle",
            PlaybackControl::Prev => "prev",
            PlaybackControl::Next => "next",
        }
    }
}

/// A request about the desktop lyrics.
#[derive(Clone, Copy, Debug, PartialEq, Eq, Structural)]
pub enum LyricControl {
    Toggle,
    Lock,
}

impl LyricControl {
    /// The payload by which the shell knows this request.
    pub fn tag(&self) -> (r: &'static str)
        ensures
            r@ == match *self {
                LyricControl::Toggle => "toggle"@,
                LyricControl::Lock => "lock"@,
            },
    {
        match self {
            LyricControl::Toggle => "toggle",
            LyricControl::Lock => "lock",
        }
    }
}

/// The items of the tray menu.
#[derive(Clone, Copy, Debug, PartialEq, Eq, Structural)]
pub enum TrayItem {
    SongInfo,
    Platform,
    Play,
    Prev,
    Next,
    SingleLoop,
    ListLoop,
    Random,
    DesktopLyric,
    LockLyric,
    Settings,
    Quit,
}

pub open spec fn item_id(item: TrayItem) -> Seq<char> {
    match item {
        TrayItem::SongInfo => "songInfo"@,
        TrayItem::Platform => "platform"@,
        TrayItem::Play => "play"@,
        TrayItem::Prev => "prev"@,
        TrayItem::Next => "next"@,
        TrayItem::SingleLoop => "singleLoop"@,
        TrayItem::ListLoop => "listLoop"@,
        TrayItem::Random => "random"@,
        TrayItem::DesktopLyric => "desktopLyric"@,
        TrayItem::LockLyric => "lockLyric"@,
        TrayItem::Settings => "settings"@,
        TrayItem::Quit => "quit"@,
    }
}

pub open spec fn item_of_id(id: Seq<char>) -> Option<TrayItem> {
    if id == "songInfo"@ {
        Some(TrayItem::SongInfo)
    } else if id == "platform"@ {
        Some(TrayItem::Platform)
    } else if id == "play"@ {
        Some(TrayItem::Play)
    } else if id == "prev"@ {
        Some(TrayItem::Prev)
    } else if id == "next"@ {
        Some(TrayItem::Next)
    } else if id == "singleLoop"@ {
        Some(TrayItem::SingleLoop)
    } else if id == "listLoop"@ {
        Some(TrayItem::ListLoop)
    } else if id == "random"@ {
        Some(TrayItem::Random)
    } else if id == "desktopLyric"@ {
        Some(TrayItem::DesktopLyric)
    } else if id == "lockLyric"@ {
        Some(TrayItem::LockLyric)
    } else if id == "settings"@ {
        Some(TrayItem::Settings)
    } else if id == "quit"@ {
        Some(TrayItem::Quit)
    } else {
        None
    }
}

impl TrayItem {
    /// The menu's identifier for this item.
    pub fn id(&self) -> (r: &'static str)
        ensures
            r@ == item_id(*self),
    {
        match self {
            TrayItem::SongInfo => "songInfo",
            TrayItem::Platform => "platform",
            TrayItem::Play => "play",
            TrayItem::Prev => "prev",
            TrayItem::Next => "next",
            TrayItem::SingleLoop => "singleLoop",
            TrayItem::ListLoop => "listLoop",
            TrayItem::Random => "random",
            TrayItem::DesktopLyric => "desktopLyric",
            TrayItem::LockLyric => "lockLyric",
            TrayItem::Settings => "settings",
            TrayItem::Quit => "quit",
        }
    }

    /// The item with menu identifier `id`, if any.
    pub fn from_id(id: &str) -> (r: Option<TrayItem>)
        ensures
            r == item_of_id(id@),
    {
        if same_text(id, "songInfo") {
            Some(TrayItem::SongInfo)
        } else if same_text(id, "platform") {
            Some(TrayItem::Platform)
        } else if same_text(id, "play") {
            Some(TrayItem::Play)
        } else if same_text(id, "prev") {
            Some(TrayItem::Prev)
        } else if same_text(id, "next") {
            Some(TrayItem::Next)
        } else if same_text(id, "singleLoop") {
            Some(TrayItem::SingleLoop)
        } else if same_text(id, "listLoop") {
            Some(TrayItem::ListLoop)
        } else if same_text(id, "random") {
            Some(TrayItem::Random)
        } else if same_text(id, "desktopLyric") {
            Some(TrayItem::DesktopLyric)
        } else if same_text(id, "lockLyric") {
            Some(TrayItem::LockLyric)
        } else if same_text(id, "settings") {
            Some(TrayItem::Settings)
        } else if same_text(id, "quit") {
            Some(TrayItem::Quit)
        } else {
            None
        }
    }
}

/// What the tray asks of the shell after an event.
#[derive(Clone, Copy, Debug, PartialEq, Eq, Structural)]
pub enum TrayAction {
    /// Nothing to do.
    Nothing,
    /// Show and focus the main window, then switch it to the lyric view.
    ShowLyricView,
    /// Show the main window and open its settings.
    OpenSettings,
    /// Emit a playback-control request.
    Playback(PlaybackControl),
    /// Emit a playback-mode change.
    PlaybackMode(RepeatMode),
    /// Emit a lyric-control request.
    Lyric(LyricControl),
    /// End the process.
    Quit,
}

/// An event on the tray icon.
pub enum TrayEvent {
    LeftClick,
    MenuItemClick(String),
    Other,
}

/// The playback state that the tray shows.
#[derive(Clone, Debug)]
pub struct TrayState {
    pub play_state: bool,
    pub repeat_mode: RepeatMode,
    pub song_title: Option<String>,
    pub platform: Option<String>,
}

/// The abstract tray state.
pub struct TrayView {
    pub play_state: bool,
    pub repeat_mode: RepeatMode,
    pub song_title: Option<Seq<char>>,
    pub platform: Option<Seq<char>>,
}

pub open spec fn opt_text(s: Option<String>) -> Option<Seq<char>> {
    match s {
        Some(t) => Some(t@),
        None => None,
    }
}

impl View for TrayState {
    type V = TrayView;

    open spec fn view(&self) -> TrayView {
        TrayView {
            play_state: self.play_state,
            repeat_mode: self.repeat_mode,
            song_title: opt_text(self.song_title),
            platform: opt_text(self.platform),
        }
    }
}

/// Nothing playing, list repeat selected.
pub open spec fn initial_view() -> TrayView {
    TrayView {
        play_state: false,
        repeat_mode: RepeatMode::List,
        song_title: None,
        platform: None,
    }
}

/// The state after an update from the shell: the play state is replaced, a
/// title or platform only where one is given, and the repeat mode only where
/// the tag names one.
pub open spec fn updated_view(
    v: TrayView,
    play_state: bool,
    repeat_tag: Seq<char>,
    song_title: Option<Seq<char>>,
    platform: Option<Seq<char>>,
) -> TrayView {
    TrayView {
        play_state,
        repeat_mode: match mode_of_tag(repeat_tag) {
            Some(m) => m,
            None => v.repeat_mode,
        },
        song_title: if song_title is Some {
            song_title
        } else {
            v.song_title
        },
        platform: if platform is Some {
            platform
        } else {
            v.platform
        },
    }
}

/// What a click on `item` asks of the shell.
pub open spec fn click_action(item: TrayItem) -> TrayAction {
    match item {
        TrayItem::SongInfo => TrayAction::ShowLyricView,
        TrayItem::Settings => TrayAction::OpenSettings,
        TrayItem::Quit => TrayAction::Quit,
        TrayItem::Play => TrayAction::Playback(PlaybackControl::Toggle),
        TrayItem::Prev => TrayAction::Playback(PlaybackControl::Prev),
        TrayItem::Next => TrayAction::Playback(PlaybackControl::Next),
        TrayItem::SingleLoop => TrayAction::PlaybackMode(RepeatMode::Single),
        TrayItem::ListLoop => TrayAction::PlaybackMode(RepeatMode::List),
        TrayItem::Random => TrayAction::PlaybackMode(RepeatMode::Random),
        TrayItem::DesktopLyric => TrayAction::Lyric(LyricControl::Toggle),
        TrayItem::LockLyric => TrayAction::Lyric(LyricControl::Lock),
        TrayItem::Platform => TrayAction::Nothing,
    }
}

/// The state after a click on `item`: a repeat-mode item selects its mode at
/// once; every other click leaves the state for the shell to report back.
pub open spec fn clicked_view(v: TrayView, item: TrayItem) -> TrayView {
    match click_action(item) {
        TrayAction::PlaybackMode(m) => TrayView { repeat_mode: m, ..v },
        _ => v,
    }
}

/// What an event asks of the shell.
pub open spec fn event_action(e: TrayEvent) -> TrayAction {
    match e {
        TrayEvent::MenuItemClick(id) => match item_of_id(id@) {
            Some(item) => click_action(item),
            None => TrayAction::Nothing,
        },
        _ => TrayAction::Nothing,
    }
}

/// The state after an event.
pub open spec fn event_view(v: TrayView, e: TrayEvent) -> TrayView {
    match e {
        TrayEvent::MenuItemClick(id) => match item_of_id(id@) {
            Some(item) => clicked_view(v, item),
            None => v,
        },
        _ => v,
    }
}

/// The labels and selections that the menu shows.
pub struct TrayLabels {
    pub play: String,
    pub song_info: String,
    pub platform: String,
    pub single_selected: bool,
    pub list_selected: bool,
    pub random_selected: bool,
}

pub open spec fn play_label(play_state: bool) -> Seq<char> {
    if play_state {
        "暂停"@
    } else {
        "播放"@
    }
}

pub open spec fn song_label(title: Option<Seq<char>>) -> Seq<char> {
    match title {
        Some(t) => t,
        None => "未播放"@,
    }
}

pub open spec fn platform_label(platform: Option<Seq<char>>) -> Seq<char> {
    match platform {
        Some(p) => "来源: "@ + p,
        None => "来源: 未知"@,
    }
}

/// The menu shows exactly what the state `v` holds.
pub open spec fn shows(l: TrayLabels, v: TrayView) -> bool {
    &&& l.play@ == play_label(v.play_state)
    &&& l.song_info@ == song_label(v.song_title)
    &&& l.platform@ == platform_label(v.platform)
    &&& l.single_selected == (v.repeat_mode == RepeatMode::Single)
    &&& l.list_selected == (v.repeat_mode == RepeatMode::List)
    &&& l.random_selected == (v.repeat_mode == RepeatMode::Random)
}

/// How many repeat-mode items the menu shows selected for `v`.
pub open spec fn selected_count(v: TrayView) -> int {
    (if v.repeat_mode == RepeatMode::Single { 1int } else { 0int }) + (if v.repeat_mode
        == RepeatMode::List {
        1int
    } else {
        0int
    }) + (if v.repeat_mode == RepeatMode::Random { 1int } else { 0int })
}

fn copy_text(s: &Option<String>) -> (r: Option<String>)
    ensures
        opt_text(r) == opt_text(*s),
{
    match s {
        Some(t) => Some(String::from_str(t.as_str())),
        None => None,
    }
}

impl TrayState {
    /// The state at startup: nothing playing, list repeat.
    pub fn new() -> (r: TrayState)
        ensures
            r@ == initial_view(),
    {
        TrayState { play_state: false, repeat_mode: RepeatMode::List, song_title: None, platform: None }
    }

    /// Applies an update from the shell. An unknown repeat tag leaves the
    /// selection as it was.
    pub fn update(
        &mut self,
        play_state: bool,
        repeat_mode: &str,
        song_title: Option<String>,
        platform: Option<String>,
    )
        ensures
            final(self)@ == updated_view(
                old(self)@,
                play_state,
                repeat_mode@,
                opt_text(song_title),
                opt_text(platform),
            ),
    {
        self.play_state = play_state;
        if song_title.is_some() {
            self.song_title = song_title;
        }
        if platform.is_some() {
            self.platform = platform;
        }
        match RepeatMode::from_tag(repeat_mode) {
            Some(m) => {
                self.repeat_mode = m;
            },
            None => {},
        }
    }

    /// Handles a click on the menu item with identifier `id`, and says what
    /// to ask of the shell. Repeat-mode items select their mode at once;
    /// playback items leave the play state for the shell to report back.
    pub fn click(&mut self, id: &str) -> (r: TrayAction)
        ensures
            r == match item_of_id(id@) {
                Some(item) => click_action(item),
                None => TrayAction::Nothing,
            },
            final(self)@ == match item_of_id(id@) {
                Some(item) => clicked_view(old(self)@, item),
                None => old(self)@,
            },
    {
        let item = match TrayItem::from_id(id) {
            Some(item) => item,
            None => {
                return TrayAction::Nothing;
            },
        };
        match item {
            TrayItem::SongInfo => TrayAction::ShowLyricView,
            TrayItem::Settings => TrayAction::OpenSettings,
            TrayItem::Quit => TrayAction::Quit,
            TrayItem::Play => TrayAction::Playback(PlaybackControl::Toggle),
            TrayItem::Prev => TrayAction::Playback(PlaybackControl::Prev),
            TrayItem::Next => TrayAction::Playback(PlaybackControl::Next),
            TrayItem::SingleLoop => {
                self.repeat_mode = RepeatMode::Single;
                TrayAction::PlaybackMode(RepeatMode::Single)
            },
            TrayItem::ListLoop => {
                self.repeat_mode = RepeatMode::List;
                TrayAction::PlaybackMode(RepeatMode::List)
            },
            TrayItem::Random => {
                self.repeat_mode = RepeatMode::Random;
                TrayAction::PlaybackMode(RepeatMode::Random)
            },
            TrayItem::DesktopLyric => TrayAction::Lyric(LyricControl::Toggle),
            TrayItem::LockLyric => TrayAction::Lyric(LyricControl::Lock),
            TrayItem::Platform => TrayAction::Nothing,
        }
    }

    /// The labels and selections that the menu shows for this state.
    pub fn render(&self) -> (r: TrayLabels)
        ensures
            shows(r, self@),
    {
        let play = if self.play_state {
            String::from_str("暂停")
        } else {
            String::from_str("播放")
        };
        let song_info = match &self.song_title {
            Some(t) => String::from_str(t.as_str()),
            None => String::from_str("未播放"),
        };
        let platform = match &self.platform {
            Some(p) => {
                let mut l = String::from_str("来源: ");
                l.append(p.as_str());
                l
            },
            None => String::from_str("来源: 未知"),
        };
        TrayLabels {
            play,
            song_info,
            platform,
            single_selected: matches!(self.repeat_mode, RepeatMode::Single),
            list_selected: matches!(self.repeat_mode, RepeatMode::List),
            random_selected: matches!(self.repeat_mode, RepeatMode::Random),
        }
    }
}

/// The tray's state at startup, from which the menu is built.
pub fn create_tray() -> (r: TrayState)
    ensures
        r@ == initial_view(),
{
    TrayState::new()
}

/// Applies an update from the shell to the tray state and gives the labels
/// that the menu is to show after it.
pub fn update_tray_state(
    state: &mut TrayState,
    play_state: bool,
    repeat_mode: &str,
    song_title: Option<String>,
    platform: Option<String>,
) -> (r: TrayLabels)
    ensures
        final(state)@ == updated_view(
            old(state)@,
            play_state,
            repeat_mode@,
            opt_text(song_title),
            opt_text(platform),
        ),
        shows(r, final(state)@),
{
    state.update(play_state, repeat_mode, song_title, platform);
    state.render()
}

/// Handles an event on the tray icon: a menu click as `TrayState::click`
/// does; any other event asks for nothing and changes nothing.
pub fn handle_tray_event(state: &mut TrayState, event: TrayEvent) -> (r: TrayAction)
    ensures
        r == event_action(event),
        final(state)@ == event_view(old(state)@, event),
{
    match event {
        TrayEvent::MenuItemClick(id) => state.click(id.as_str()),
        _ => TrayAction::Nothing,
    }
}

/// Updating twice with the same arguments leaves the state, and so the menu,
/// as updating once does.
pub proof fn lemma_update_idempotent(
    v: TrayView,
    play_state: bool,
    repeat_tag: Seq<char>,
    song_title: Option<Seq<char>>,
    platform: Option<Seq<char>>,
)
    ensures
        updated_view(
            updated_view(v, play_state, repeat_tag, song_title, platform),
            play_state,
            repeat_tag,
            song_title,
            platform,
        ) == updated_view(v, play_state, repeat_tag, song_title, platform),
{
}

/// An update with tag `single` leaves exactly the single-repeat item
/// selected, and a following one with tag `list` exactly the list-repeat
/// item; no state ever shows two selected.
pub proof fn lemma_repeat_selection_exclusive(
    v: TrayView,
    play1: bool,
    title1: Option<Seq<char>>,
    platform1: Option<Seq<char>>,
    play2: bool,
    title2: Option<Seq<char>>,
    platform2: Option<Seq<char>>,
)
    ensures
        ({
            let a = updated_view(v, play1, "single"@, title1, platform1);
            let b = updated_view(a, play2, "list"@, title2, platform2);
            &&& a.repeat_mode == RepeatMode::Single
            &&& selected_count(a) == 1
            &&& b.repeat_mode == RepeatMode::List
            &&& selected_count(b) == 1
        }),
        selected_count(v) == 1,
{
    reveal_strlit("single");
    reveal_strlit("list");
    assert("list"@.len() != "single"@.len());
    assert(mode_of_tag("single"@) == Some(RepeatMode::Single));
    assert(mode_of_tag("list"@) == Some(RepeatMode::List));
}

} // verus!
