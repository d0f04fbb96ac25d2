//! The window: its keys, its events and its life.

use vstd::prelude::*;

use crate::clock::MediaTime;
use crate::media::{CodecParameters, PlayerEvent, SeekDir};
use crate::text::{chars_of, lower_one, push_decimal};
#[allow(unused_imports)]
use crate::engine::{EngineModel, Reaction};
#[allow(unused_imports)]
use crate::text::{decimal, lower_char};

verus! {

// ───────────────────── keys ─────────────────────

/// A key that has a name rather than a character.
#[derive(Clone, Copy, Debug, PartialEq, Eq, Structural)]
pub enum NamedKey {
    Escape,
    Space,
    ArrowLeft,
    ArrowRight,
    ArrowUp,
    ArrowDown,
    PageUp,
    PageDown,
    Other,
}

/// What a key means in the user's keyboard layout.
#[derive(Debug)]
pub enum LogicalKey {
    Character(String),
    Named(NamedKey),
    Other,
}

/// Where a key is on the keyboard.
#[derive(Clone, Copy, Debug, PartialEq, Eq, Structural)]
pub enum KeyCode {
    Escape,
    Space,
    ArrowLeft,
    ArrowRight,
    ArrowUp,
    ArrowDown,
    PageUp,
    PageDown,
    NumpadMultiply,
    NumpadDivide,
    Other,
}

/// A key that went down or up.
#[derive(Debug)]
pub struct KeyEvent {
    pub logical_key: LogicalKey,
    /// `None` where the system does not tell.
    pub physical_key: Option<KeyCode>,
    pub pressed: bool,
    pub repeat: bool,
}

/// The key's character, as far as it counts: the first.
pub open spec fn key_char(ev: KeyEvent) -> Option<char> {
    match ev.logical_key {
        LogicalKey::Character(s) => if s@.len() > 0 {
            Some(s@[0])
        } else {
            None
        },
        _ => None,
    }
}

/// Whether the key means the character `c`, in either case.
pub open spec fn means(ev: KeyEvent, c: char) -> bool {
    key_char(ev) matches Some(k) && lower_char(k) == lower_char(c)
}

/// A seek by `secs` seconds.
pub open spec fn seek(secs: u64, dir: SeekDir) -> Option<PlayerEvent> {
    Some(PlayerEvent::SeekRelative(MediaTime { secs, sub_nanos: 0 }, dir))
}

/// What a named key does.
pub open spec fn named_action(key: NamedKey) -> Option<PlayerEvent> {
    match key {
        NamedKey::Escape => Some(PlayerEvent::Quit),
        NamedKey::Space => Some(PlayerEvent::TogglePause),
        NamedKey::ArrowLeft => seek(10, SeekDir::Back),
        NamedKey::ArrowRight => seek(10, SeekDir::Forward),
        NamedKey::ArrowUp => seek(60, SeekDir::Forward),
        NamedKey::ArrowDown => seek(60, SeekDir::Back),
        NamedKey::PageUp => seek(600, SeekDir::Forward),
        NamedKey::PageDown => seek(600, SeekDir::Back),
        NamedKey::Other => None,
    }
}

/// What a key does by its place.
pub open spec fn code_action(code: KeyCode) -> Option<PlayerEvent> {
    match code {
        KeyCode::Escape => Some(PlayerEvent::Quit),
        KeyCode::Space => Some(PlayerEvent::TogglePause),
        KeyCode::ArrowLeft => seek(10, SeekDir::Back),
        KeyCode::ArrowRight => seek(10, SeekDir::Forward),
        KeyCode::ArrowUp => seek(60, SeekDir::Forward),
        KeyCode::ArrowDown => seek(60, SeekDir::Back),
        KeyCode::PageUp => seek(600, SeekDir::Forward),
        KeyCode::PageDown => seek(600, SeekDir::Back),
        KeyCode::NumpadMultiply => Some(PlayerEvent::VolumeDelta(5)),
        KeyCode::NumpadDivide => Some(PlayerEvent::VolumeDelta((-5) as i32)),
        KeyCode::Other => None,
    }
}

/// What a key does: by its character, else by its name, else by its place.
pub open spec fn key_action(ev: KeyEvent) -> Option<PlayerEvent> {
    let by_name = match ev.logical_key {
        LogicalKey::Named(n) => named_action(n),
        _ => None,
    };
    if means(ev, 'q') {
        Some(PlayerEvent::Quit)
    } else if means(ev, '*') {
        Some(PlayerEvent::VolumeDelta(5))
    } else if means(ev, '/') {
        Some(PlayerEvent::VolumeDelta((-5) as i32))
    } else if by_name is Some {
        by_name
    } else {
        match ev.physical_key {
            Some(c) => code_action(c),
            None => None,
        }
    }
}

/// Whether the key means the character `expected`, in either case.
pub fn is_logical_char(ev: &KeyEvent, expected: char) -> (b: bool)
    ensures
        b == means(*ev, expected),
{
    match &ev.logical_key {
        LogicalKey::Character(s) => {
            let chars = chars_of(s.as_str());
            chars.len() > 0 && lower_one(chars[0]) == lower_one(expected)
        },
        _ => false,
    }
}

/// A seek by `secs` seconds.
fn seek_event(secs: u64, dir: SeekDir) -> (ev: Option<PlayerEvent>)
    ensures
        ev == seek(secs, dir),
{
    Some(PlayerEvent::SeekRelative(MediaTime::from_secs(secs), dir))
}

/// What a key does, if it does anything.
pub fn map_key(ev: &KeyEvent) -> (r: Option<PlayerEvent>)
    ensures
        r == key_action(*ev),
{
    if is_logical_char(ev, 'q') {
        return Some(PlayerEvent::Quit);
    }
    if is_logical_char(ev, '*') {
        return Some(PlayerEvent::VolumeDelta(5));
    }
    if is_logical_char(ev, '/') {
        return Some(PlayerEvent::VolumeDelta(-5));
    }
    if let LogicalKey::Named(named) = &ev.logical_key {
        match named {
            NamedKey::Escape => {
                return Some(PlayerEvent::Quit);
            },
            NamedKey::Space => {
                return Some(PlayerEvent::TogglePause);
            },
            NamedKey::ArrowLeft => {
                return seek_event(10, SeekDir::Back);
            },
            NamedKey::ArrowRight => {
                return seek_event(10, SeekDir::Forward);
            },
            NamedKey::ArrowUp => {
                return seek_event(60, SeekDir::Forward);
            },
            NamedKey::ArrowDown => {
                return seek_event(60, SeekDir::Back);
            },
            NamedKey::PageUp => {
                return seek_event(600, SeekDir::Forward);
            },
            NamedKey::PageDown => {
                return seek_event(600, SeekDir::Back);
            },
            NamedKey::Other => {},
        }
    }
    match ev.physical_key {
        Some(code) => match code {
            KeyCode::Escape => Some(PlayerEvent::Quit),
            KeyCode::Space => Some(PlayerEvent::TogglePause),
            KeyCode::ArrowLeft => seek_event(10, SeekDir::Back),
            KeyCode::ArrowRight => seek_event(10, SeekDir::Forward),
            KeyCode::ArrowUp => seek_event(60, SeekDir::Forward),
            KeyCode::ArrowDown => seek_event(60, SeekDir::Back),
            KeyCode::PageUp => seek_event(600, SeekDir::Forward),
            KeyCode::PageDown => seek_event(600, SeekDir::Back),
            KeyCode::NumpadMultiply => Some(PlayerEvent::VolumeDelta(5)),
            KeyCode::NumpadDivide => Some(PlayerEvent::VolumeDelta(-5)),
            KeyCode::Other => None,
        },
        None => None,
    }
}

// ───────────────────── the window's life ─────────────────────

/// What the window system reports.
#[derive(Debug)]
pub enum WindowEvent {
    CloseRequested,
    Resized(u32, u32),
    Key(KeyEvent),
    Other,
}

/// What to do about it.
#[derive(Clone, Copy, Debug, PartialEq, Eq, Structural)]
pub enum WindowAction {
    Nothing,
    /// Resize the renderer's surface.
    Resize(u32, u32),
    /// Go to full screen, or back.
    ToggleFullscreen,
}

/// What to do when the application comes to the foreground.
#[derive(Clone, Copy, Debug, PartialEq, Eq, Structural)]
pub enum ResumeAction {
    Nothing,
    /// Make the window, at the system's choice of size.
    CreateWindow,
    /// Make the window, at this size.
    CreateWindowSized(u32, u32),
}

/// The window's state.
pub struct WinitApp {
    /// Whether there is a window.
    pub window: bool,
    /// Whether there is a renderer.
    pub video: bool,
    pub video_dims: Option<(u32, u32)>,
    /// The user's actions that the player has not seen yet, oldest first.
    pub pending: Vec<PlayerEvent>,
    pub quit: bool,
    /// What the stream says of its pictures, for a renderer that comes later.
    pub pending_video_params: Option<CodecParameters>,
}

/// What the window's state is, apart from how it is stored.
#[verifier::ext_equal]
pub struct AppModel {
    pub window: bool,
    pub video: bool,
    pub dims: Option<(u32, u32)>,
    pub pending: Seq<PlayerEvent>,
    pub quit: bool,
    pub params: Option<CodecParameters>,
}

impl View for WinitApp {
    type V = AppModel;

    open spec fn view(&self) -> AppModel {
        AppModel {
            window: self.window,
            video: self.video,
            dims: self.video_dims,
            pending: self.pending@,
            quit: self.quit,
            params: self.pending_video_params,
        }
    }
}

/// `x`, or one for zero.
pub open spec fn at_least_one(x: u32) -> u32 {
    if x < 1 {
        1
    } else {
        x
    }
}

impl AppModel {
    /// After the user, or a failure, has ended the player.
    pub open spec fn ended(self) -> AppModel {
        AppModel { quit: true, pending: self.pending.push(PlayerEvent::Quit), ..self }
    }

    /// After an event, and what to do about it. Keys that the overlay has used do
    /// nothing else; a held key counts once.
    pub open spec fn after(self, ev: WindowEvent, overlay_consumed: bool) -> (
        AppModel,
        WindowAction,
    ) {
        match ev {
            WindowEvent::CloseRequested => (self.ended(), WindowAction::Nothing),
            WindowEvent::Resized(w, h) => (
                self,
                if self.video {
                    WindowAction::Resize(w, h)
                } else {
                    WindowAction::Nothing
                },
            ),
            WindowEvent::Key(key) => if !key.pressed || key.repeat || overlay_consumed {
                (self, WindowAction::Nothing)
            } else if means(key, 'f') {
                (
                    self,
                    if self.window {
                        WindowAction::ToggleFullscreen
                    } else {
                        WindowAction::Nothing
                    },
                )
            } else {
                match key_action(key) {
                    Some(e) => (
                        AppModel { pending: self.pending.push(e), ..self },
                        WindowAction::Nothing,
                    ),
                    None => (self, WindowAction::Nothing),
                }
            },
            WindowEvent::Other => (self, WindowAction::Nothing),
        }
    }
}

impl AppModel {
    /// What to do when the application comes to the foreground.
    pub open spec fn on_resume(self) -> ResumeAction {
        if self.window {
            ResumeAction::Nothing
        } else {
            match self.dims {
                Some((w, h)) => ResumeAction::CreateWindowSized(at_least_one(w), at_least_one(h)),
                None => ResumeAction::CreateWindow,
            }
        }
    }

    /// After handing over the user's actions, and the actions.
    pub open spec fn handed_over(self, exited: bool, overlay: Seq<PlayerEvent>) -> (
        AppModel,
        Seq<PlayerEvent>,
    ) {
        (
            AppModel { pending: Seq::empty(), quit: self.quit || exited, ..self },
            (if exited {
                self.ended().pending
            } else {
                self.pending
            }) + overlay,
        )
    }
}

impl WinitApp {
    /// An application without a window, for a source of dimensions `video_dims`.
    pub fn new(video_dims: Option<(u32, u32)>) -> (a: Self)
        ensures
            a@ == (AppModel {
                window: false,
                video: false,
                dims: video_dims,
                pending: Seq::empty(),
                quit: false,
                params: None,
            }),
    {
        WinitApp {
            window: false,
            video: false,
            video_dims,
            pending: Vec::new(),
            quit: false,
            pending_video_params: None,
        }
    }

    /// Ends the player.
    fn end(&mut self)
        ensures
            final(self)@ == old(self)@.ended(),
    {
        self.quit = true;
        self.pending.push(PlayerEvent::Quit);
    }

    /// What to do when the application comes to the foreground: the first time a
    /// window is made.
    pub fn resumed(&self) -> (a: ResumeAction)
        ensures
            a == (if self@.window {
                ResumeAction::Nothing
            } else {
                match self@.dims {
                    Some((w, h)) => ResumeAction::CreateWindowSized(
                        at_least_one(w),
                        at_least_one(h),
                    ),
                    None => ResumeAction::CreateWindow,
                }
            }),
            a == self@.on_resume(),
    {
        if self.window {
            return ResumeAction::Nothing;
        }
        match self.video_dims {
            Some((w, h)) => ResumeAction::CreateWindowSized(
                if w < 1 {
                    1
                } else {
                    w
                },
                if h < 1 {
                    1
                } else {
                    h
                },
            ),
            None => ResumeAction::CreateWindow,
        }
    }

    /// Takes note that the window could not be made: the player ends.
    pub fn on_window_failed(&mut self)
        ensures
            final(self)@ == old(self)@.ended(),
    {
        self.end();
    }

    /// Takes note that there is a window, and whether it got a renderer; without
    /// one the player ends. What the stream says of its pictures comes back, if a
    /// renderer is there to be told.
    pub fn on_window_created(&mut self, renderer: bool) -> (tell: Option<CodecParameters>)
        ensures
            final(self)@ == (if renderer {
                AppModel { window: true, video: true, ..old(self)@ }
            } else {
                AppModel { window: true, video: false, ..old(self)@.ended() }
            }),
            tell == (if renderer {
                old(self)@.params
            } else {
                None
            }),
    {
        if !renderer {
            self.end();
        }
        self.window = true;
        self.video = renderer;
        if !renderer {
            return None;
        }
        match &self.pending_video_params {
            Some(p) => Some(p.duplicate()),
            None => None,
        }
    }

    /// Takes in an event of the window system. `overlay_consumed` says whether the
    /// overlay has used it.
    pub fn window_event(&mut self, ev: WindowEvent, overlay_consumed: bool) -> (a: WindowAction)
        ensures
            (final(self)@, a) == old(self)@.after(ev, overlay_consumed),
    {
        match ev {
            WindowEvent::CloseRequested => {
                self.end();
                WindowAction::Nothing
            },
            WindowEvent::Resized(w, h) => if self.video {
                WindowAction::Resize(w, h)
            } else {
                WindowAction::Nothing
            },
            WindowEvent::Key(key) => {
                if !key.pressed || key.repeat || overlay_consumed {
                    return WindowAction::Nothing;
                }
                if is_logical_char(&key, 'f') {
                    return if self.window {
                        WindowAction::ToggleFullscreen
                    } else {
                        WindowAction::Nothing
                    };
                }
                if let Some(e) = map_key(&key) {
                    self.pending.push(e);
                }
                WindowAction::Nothing
            },
            WindowEvent::Other => WindowAction::Nothing,
        }
    }

    /// The user's actions since the last call, oldest first, and behind them those
    /// that the overlay reports. `exited` says whether the window system has ended
    /// the application, which ends the player.
    pub fn poll_events(&mut self, exited: bool, overlay: Vec<PlayerEvent>) -> (events: Vec<
        PlayerEvent,
    >)
        ensures
            final(self)@ == (AppModel {
                pending: Seq::empty(),
                quit: old(self)@.quit || exited,
                ..old(self)@
            }),
            events@ == (if exited {
                old(self)@.ended().pending
            } else {
                old(self)@.pending
            }) + overlay@,
            (final(self)@, events@) == old(self)@.handed_over(exited, overlay@),
    {
        if exited {
            self.end();
        }
        let mut events: Vec<PlayerEvent> = Vec::new();
        let mut i: usize = 0;
        let ghost all = self@.pending;
        while i < self.pending.len()
            invariant
                i <= all.len(),
                self.pending@ == all,
                events@ == all.take(i as int),
            decreases all.len() - i,
        {
            events.push(self.pending[i]);
            assert(all.take(i + 1) == all.take(i as int).push(all[i as int]));
            i += 1;
        }
        assert(all.take(all.len() as int) == all);
        let mut i: usize = 0;
        assert(all + overlay@.take(0) == all);
        while i < overlay.len()
            invariant
                i <= overlay@.len(),
                events@ == all + overlay@.take(i as int),
            decreases overlay@.len() - i,
        {
            events.push(overlay[i]);
            assert((all + overlay@.take(i as int)).push(overlay@[i as int]) == all + overlay@.take(
                i + 1,
            ));
            i += 1;
        }
        assert(overlay@.take(overlay@.len() as int) == overlay@);
        self.pending = Vec::new();
        events
    }

    /// Whether the overlay is to be drawn by itself: while paused no frame brings
    /// it along.
    pub fn overlay_alone(&self, playing: bool) -> (b: bool)
        ensures
            b == (self@.video && !playing),
    {
        self.video && !playing
    }

    /// Takes note of what the stream says of its pictures. `true` comes back when a
    /// renderer is there to be told at once.
    pub fn set_source_video_params(&mut self, params: &CodecParameters) -> (tell: bool)
        ensures
            tell == old(self)@.video,
            final(self)@ == (AppModel { params: Some(*params), ..old(self)@ }),
    {
        self.pending_video_params = Some(params.duplicate());
        self.video
    }
}

/// The window's description of itself.
pub open spec fn window_text(
    adapter: Option<Seq<char>>,
    requested: Option<(u32, u32)>,
) -> Seq<char> {
    match adapter {
        Some(s) => "winit+wgpu  "@ + s,
        None => match requested {
            Some((w, h)) => "winit+wgpu  requested: "@ + decimal(w as nat) + "x"@ + decimal(
                h as nat,
            ) + " (renderer not up yet)"@,
            None => "winit+wgpu  (no dims, renderer not up yet)"@,
        },
    }
}

/// The window's description of itself: the renderer's, and without a renderer the
/// size that was asked for.
pub fn window_info(adapter: Option<&str>, requested: Option<(u32, u32)>) -> (s: String)
    ensures
        s@ == window_text(
            match adapter {
                Some(a) => Some(a@),
                None => None,
            },
            requested,
        ),
{
    let mut s = String::new();
    match adapter {
        Some(a) => {
            s.append("winit+wgpu  ");
            s.append(a);
        },
        None => match requested {
            Some((w, h)) => {
                s.append("winit+wgpu  requested: ");
                push_decimal(&mut s, w as u64);
                s.append("x");
                push_decimal(&mut s, h as u64);
                s.append(" (renderer not up yet)");
            },
            None => s.append("winit+wgpu  (no dims, renderer not up yet)"),
        },
    }
    s
}

// ───────────────────── laws ─────────────────────

/// A key that the overlay has used, that is held down, or that goes up does
/// nothing.
pub proof fn law_idle_keys_do_nothing(m: AppModel, key: KeyEvent, overlay_consumed: bool)
    requires
        overlay_consumed || key.repeat || !key.pressed,
    ensures
        m.after(WindowEvent::Key(key), overlay_consumed) == (m, WindowAction::Nothing),
{
}

/// No event takes back what the user did before it: the actions that wait keep
/// their order, and at most one joins them.
pub proof fn law_actions_wait_in_order(m: AppModel, ev: WindowEvent, overlay_consumed: bool)
    ensures
        ({
            let next = m.after(ev, overlay_consumed).0;
            &&& m.pending.is_prefix_of(next.pending)
            &&& next.pending.len() <= m.pending.len() + 1
        }),
{
}

/// A key of a letter counts in either case, by its first character.
pub proof fn law_letters_count_in_either_case(ev: KeyEvent, c: char, capital: char)
    requires
        'a' <= c <= 'z',
        capital as int + 32 == c as int,
    ensures
        means(ev, c) <==> key_char(ev) == Some(c) || key_char(ev) == Some(capital),
        means(ev, c) <==> means(ev, capital),
        ev.logical_key matches LogicalKey::Character(s) ==> (key_char(ev) == Some(c) <==> s@.len()
            > 0 && s@[0] == c),
        ev.logical_key !is Character ==> !means(ev, c),
{
}

/// What a key does by its character does not depend on where it is, or on anything else
/// of it.
pub proof fn law_characters_come_first(ev: KeyEvent)
    ensures
        key_char(ev) == Some('q') || key_char(ev) == Some('Q') ==> key_action(ev) == Some(
            PlayerEvent::Quit,
        ),
        key_char(ev) == Some('*') ==> key_action(ev) == Some(PlayerEvent::VolumeDelta(5)),
        key_char(ev) == Some('/') ==> key_action(ev) == Some(PlayerEvent::VolumeDelta((-5) as i32)),
        ev.logical_key matches LogicalKey::Named(n) && named_action(n) is Some ==> key_action(ev)
            == (match ev.logical_key {
            LogicalKey::Named(n) => named_action(n),
            _ => None,
        }),
        key_char(ev) is None && ev.logical_key !is Named ==> key_action(ev) == (
        match ev.physical_key {
            Some(c) => code_action(c),
            None => None,
        }),
{
}

/// The seek keys move the player by ten seconds, a minute and ten minutes, to the right, up
/// and page-up ahead and to the others back, wherever it plays and whether the key is told
/// by its name or by its place.
pub proof fn law_seek_keys_move_by_their_spans<V>(
    m: EngineModel<V>,
    ahead: NamedKey,
    back: NamedKey,
    ahead_code: KeyCode,
    back_code: KeyCode,
    secs: int,
    to: MediaTime,
    raw: int,
)
    requires
        ahead is ArrowRight && back is ArrowLeft && ahead_code is ArrowRight && back_code is ArrowLeft
            && secs == 10 || ahead is ArrowUp && back is ArrowDown && ahead_code is ArrowUp
            && back_code is ArrowDown && secs == 60 || ahead is PageUp && back is PageDown
            && ahead_code is PageUp && back_code is PageDown && secs == 600,
    ensures
        named_action(ahead) is Some && named_action(back) is Some,
        code_action(ahead_code) == named_action(ahead),
        code_action(back_code) == named_action(back),
        to.nanos() == m.position(raw) + secs * 1_000_000_000 ==> m.after_event(
            named_action(ahead)->0,
            raw,
        ) == m.after_event(PlayerEvent::SeekAbsolute(to), raw),
        to.nanos() + secs * 1_000_000_000 == m.position(raw) ==> m.after_event(
            named_action(back)->0,
            raw,
        ) == m.after_event(PlayerEvent::SeekAbsolute(to), raw),
        to.nanos() == 0 && m.position(raw) < secs * 1_000_000_000 ==> m.after_event(
            named_action(back)->0,
            raw,
        ) == m.after_event(PlayerEvent::SeekAbsolute(to), raw),
{
}

/// The other keys: Escape leaves the player, the space bar pauses and resumes it, and the
/// keypad's volume keys move the volume by five points up and down.
pub proof fn law_control_keys_control<V>(m: EngineModel<V>, raw: int)
    requires
        5 * 16_777_216 <= m.volume <= 95 * 16_777_216,
    ensures
        named_action(NamedKey::Escape) is Some && named_action(NamedKey::Space) is Some,
        code_action(KeyCode::Escape) == named_action(NamedKey::Escape),
        code_action(KeyCode::Space) == named_action(NamedKey::Space),
        code_action(KeyCode::NumpadMultiply) is Some && code_action(KeyCode::NumpadDivide) is Some,
        m.after_event(named_action(NamedKey::Escape)->0, raw).1 == Reaction::Quit,
        m.after_event(named_action(NamedKey::Space)->0, raw).0.paused != m.paused,
        m.after_event(code_action(KeyCode::NumpadMultiply)->0, raw).0.volume == m.volume + 5
            * 16_777_216,
        m.after_event(code_action(KeyCode::NumpadDivide)->0, raw).0.volume == m.volume - 5
            * 16_777_216,
        named_action(NamedKey::Other) is None && code_action(KeyCode::Other) is None,
{
}

/// A key that goes down does what it does, once: it joins the actions that wait. The one
/// for full screen goes to the window, if there is one, and to the player never.
pub proof fn law_a_pressed_key_acts(m: AppModel, key: KeyEvent)
    requires
        key.pressed,
        !key.repeat,
    ensures
        ({
            let (next, a) = m.after(WindowEvent::Key(key), false);
            let full_screen = key_char(key) == Some('f') || key_char(key) == Some('F');
            &&& full_screen ==> next == m && a == (if m.window {
                WindowAction::ToggleFullscreen
            } else {
                WindowAction::Nothing
            })
            &&& !full_screen ==> a == WindowAction::Nothing
            &&& !full_screen && key_action(key) is Some ==> next.pending == m.pending.push(
                key_action(key)->0,
            )
            &&& !full_screen && key_action(key) is None ==> next == m
            &&& next == AppModel { pending: next.pending, ..m }
        }),
{
}

/// Closing the window ends the player, which is told so behind all that waits; a resize
/// goes to the renderer, if there is one, as it is.
pub proof fn law_the_window_is_heard(m: AppModel, w: u32, h: u32, overlay_consumed: bool)
    ensures
        ({
            let closed = m.after(WindowEvent::CloseRequested, overlay_consumed).0;
            let (resized, a) = m.after(WindowEvent::Resized(w, h), overlay_consumed);
            &&& closed.quit
            &&& closed.pending == m.pending.push(PlayerEvent::Quit)
            &&& closed == AppModel { quit: true, pending: closed.pending, ..m }
            &&& resized == m
            &&& m.video ==> a == WindowAction::Resize(w, h)
            &&& !m.video ==> a == WindowAction::Nothing
            &&& m.after(WindowEvent::Other, overlay_consumed) == (m, WindowAction::Nothing)
        }),
{
}

/// The user's actions are handed over once each and in order, those of the overlay last:
/// none waits afterwards. A window that is gone quits the player behind what waited.
pub proof fn law_actions_are_handed_over_once(
    m: AppModel,
    exited: bool,
    overlay: Seq<PlayerEvent>,
)
    ensures
        ({
            let (next, events) = m.handed_over(exited, overlay);
            &&& next.pending.len() == 0
            &&& next.quit == (m.quit || exited)
            &&& next == AppModel { pending: next.pending, quit: next.quit, ..m }
            &&& m.pending.is_prefix_of(events)
            &&& overlay.is_suffix_of(events)
            &&& events.len() == m.pending.len() + overlay.len() + (if exited {
                1int
            } else {
                0
            })
            &&& exited ==> events[m.pending.len() as int] == PlayerEvent::Quit
            &&& next.handed_over(false, Seq::empty()).1.len() == 0
        }),
{
    let events = m.handed_over(exited, overlay).1;
    assert(m.pending =~= events.subrange(0, m.pending.len() as int));
    assert(overlay =~= events.subrange(events.len() - overlay.len(), events.len() as int));
}

/// A window is made once, at the size of the source where that is known; no side is empty.
pub proof fn law_the_window_is_made_once(m: AppModel, w: u32, h: u32)
    ensures
        m.on_resume() == ResumeAction::Nothing <==> m.window,
        !m.window && m.dims is None ==> m.on_resume() == ResumeAction::CreateWindow,
        !m.window && m.dims == Some((w, h)) && w > 0 && h > 0 ==> m.on_resume()
            == ResumeAction::CreateWindowSized(w, h),
        m.on_resume() matches ResumeAction::CreateWindowSized(a, b) ==> a > 0 && b > 0 && (m.dims
            == Some((w, h)) ==> (w > 0 ==> a == w) && (h > 0 ==> b == h) && a <= w + 1 && b <= h + 1),
{
}

} // verus!
