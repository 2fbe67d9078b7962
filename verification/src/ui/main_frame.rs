//! The tray window's state and how it answers each message.
//!
//! The window itself lives with the caller: each answer here is an [`Effect`]
//! that the caller carries out against the system, handing back what it
//! observed where the next decision needs it.

use vstd::prelude::*;

use crate::helper::{fixed_buffer, utf16_encode, wide_of, ToWide, WideString};
use crate::ui::{cracked, WM};
use crate::win32::{
    ES_CONTINUOUS, ES_DISPLAY_REQUIRED, ES_SYSTEM_REQUIRED, KEYEVENTF_KEYUP, MF_CHECKED,
    MF_ENABLED, MF_SEPARATOR, NIF_ICON, NIF_MESSAGE, NIF_SHOWTIP, NIF_TIP, NOTIFYICON_VERSION_4,
    VK_SHIFT, WM_APP, WM_CONTEXTMENU,
};

verus! {

/// Command id of the "Exit" menu item.
pub const CMD_EXIT: i16 = 0;

/// Command id of the "Keep awake" menu item.
pub const CMD_KEEP_AWAKE: i16 = 1;

/// Command id of the "Prohibit screen saver" menu item.
pub const CMD_PROHIBIT_SCREEN_SAVER: i16 = 2;

/// Id of the timer that watches for idleness.
pub const IDLE_TIMER_ID: usize = 0;

/// How often, in milliseconds, the idle timer fires.
pub const IDLE_TIMER_INTERVAL_MS: u32 = 1000;

/// How long, in milliseconds, the user must have been idle before a key press
/// is simulated.
pub const IDLE_THRESHOLD_MS: u32 = 60_000;

/// The name of the window class, which is also the window title and the
/// tooltip of the tray icon.
pub const APP_NAME: &'static str = "Mocha";

/// The state of the tray window.
#[derive(Debug)]
pub struct MainFrame {
    awake: bool,
    prohibit_ss: bool,
}

/// The abstract state of the tray window.
pub struct FrameState {
    /// The system and the display are kept on.
    pub awake: bool,
    /// The screen saver is kept away by a simulated key press when idle.
    pub prohibit_ss: bool,
}

impl View for MainFrame {
    type V = FrameState;

    closed spec fn view(&self) -> FrameState {
        FrameState { awake: self.awake, prohibit_ss: self.prohibit_ss }
    }
}

/// One item of the tray icon's context menu.
#[derive(Debug, Clone, PartialEq, Eq)]
pub struct MenuItem {
    /// The `MF_*` flags of the item.
    pub flags: u32,
    /// The command id the item sends when chosen.
    pub id: usize,
    /// The NUL-terminated text of the item; a separator has none.
    pub label: Option<WideString>,
}

/// The abstract form of a [`MenuItem`].
pub struct MenuItemView {
    /// The `MF_*` flags of the item.
    pub flags: u32,
    /// The command id the item sends when chosen.
    pub id: usize,
    /// The units of the item's text, if it has one.
    pub label: Option<Seq<u16>>,
}

impl View for MenuItem {
    type V = MenuItemView;

    open spec fn view(&self) -> MenuItemView {
        MenuItemView {
            flags: self.flags,
            id: self.id,
            label: match self.label {
                Some(w) => Some(w@),
                None => None,
            },
        }
    }
}

/// A context menu to show at a point of the screen.
#[derive(Debug, Clone, PartialEq, Eq)]
pub struct PopupMenu {
    /// Screen x coordinate of the menu's corner.
    pub x: i32,
    /// Screen y coordinate of the menu's corner.
    pub y: i32,
    /// The items, top to bottom.
    pub items: Vec<MenuItem>,
}

/// A simulated keyboard event.
#[derive(Debug, Clone, Copy, PartialEq, Eq)]
pub struct KeyStroke {
    /// The virtual-key code.
    pub vk: u16,
    /// The `KEYEVENTF_*` flags.
    pub flags: u32,
}

/// The tray icon the window installs.
#[derive(Debug, Clone, PartialEq, Eq)]
pub struct TrayIcon {
    /// The `NIF_*` flags saying which fields are set.
    pub flags: u32,
    /// The message the icon sends to the window.
    pub callback_message: u32,
    /// The notification icon protocol version.
    pub version: u32,
    /// The NUL-terminated tooltip.
    pub tip: [u16; 128],
}

/// How window creation ends: the value to answer `WM_CREATE` with, and the
/// commands the window then sends itself, in order.
#[derive(Debug, Clone, PartialEq, Eq)]
pub struct CreateReply {
    /// 0 to go on with creation, -1 to make it fail.
    pub result: isize,
    /// The command ids to send, in order.
    pub commands: Vec<i16>,
}

/// A request to the shell while installing the tray icon. Installing starts
/// with [`IconRequest::Add`].
#[derive(Debug, Clone, Copy, PartialEq, Eq)]
pub enum IconRequest {
    /// `NIM_ADD`: add the icon.
    Add,
    /// `NIM_SETVERSION`: set the icon's protocol version.
    SetVersion,
}

/// Where installing the tray icon stands after a request was answered.
#[derive(Debug, Clone, Copy, PartialEq, Eq)]
pub enum IconProgress {
    /// Make this request next.
    Next(IconRequest),
    /// The icon is in place.
    Installed,
    /// Installing failed.
    Failed,
}

/// What the caller must do in answer to a message.
#[derive(Debug, Clone, PartialEq, Eq)]
pub enum Effect {
    /// Install the tray icon, step by step as [`MainFrame::icon_install_next`]
    /// says, then answer as [`MainFrame::after_icon_install`] says.
    Create,
    /// Remove the tray icon and end the message loop.
    Destroy,
    /// Destroy the window.
    CloseWindow,
    /// Set the thread's execution state to these `ES_*` flags.
    SetExecutionState(u32),
    /// Start the timer with this id and interval in milliseconds.
    SetTimer(usize, u32),
    /// Stop the timer with this id.
    KillTimer(usize),
    /// Read the time of the last input and the tick count, and hand them to
    /// [`MainFrame::idle_keystrokes`].
    CheckIdle,
    /// Show this menu.
    ShowMenu(PopupMenu),
    /// Install the tray icon again; a failure is ignored.
    AddIcon,
    /// The message is handled and nothing is to be done.
    Nothing,
    /// Hand the message to the default window procedure.
    Default,
}

/// The `ES_*` flags for the given "keep awake" setting.
pub open spec fn execution_flags(awake: bool) -> u32 {
    if awake {
        ES_CONTINUOUS | ES_SYSTEM_REQUIRED | ES_DISPLAY_REQUIRED
    } else {
        ES_CONTINUOUS
    }
}

/// The state after the command with id `id`.
pub open spec fn after_command(s: FrameState, id: i16) -> FrameState {
    if id == CMD_KEEP_AWAKE {
        FrameState { awake: !s.awake, prohibit_ss: s.prohibit_ss }
    } else if id == CMD_PROHIBIT_SCREEN_SAVER {
        FrameState { awake: s.awake, prohibit_ss: !s.prohibit_ss }
    } else {
        s
    }
}

/// The effect of the command with id `id`, given the state `post` it leads to.
pub open spec fn command_effect(post: FrameState, id: i16, e: Effect) -> bool {
    if id == CMD_EXIT {
        e is CloseWindow
    } else if id == CMD_KEEP_AWAKE {
        e == Effect::SetExecutionState(execution_flags(post.awake))
    } else if id == CMD_PROHIBIT_SCREEN_SAVER {
        if post.prohibit_ss {
            e == Effect::SetTimer(IDLE_TIMER_ID, IDLE_TIMER_INTERVAL_MS)
        } else {
            e == Effect::KillTimer(IDLE_TIMER_ID)
        }
    } else {
        e is Nothing
    }
}

/// The flags of a menu item that shows a setting.
pub open spec fn check_flags(on: bool) -> u32 {
    if on {
        MF_CHECKED
    } else {
        MF_ENABLED
    }
}

/// The items of the context menu in state `s`.
pub open spec fn menu_items(s: FrameState) -> Seq<MenuItemView> {
    seq![
        MenuItemView {
            flags: check_flags(s.awake),
            id: CMD_KEEP_AWAKE as usize,
            label: Some(wide_of("&Keep awake"@)),
        },
        MenuItemView {
            flags: check_flags(s.prohibit_ss),
            id: CMD_PROHIBIT_SCREEN_SAVER as usize,
            label: Some(wide_of("&Prohibit screen saver"@)),
        },
        MenuItemView { flags: MF_SEPARATOR, id: 0, label: None },
        MenuItemView { flags: MF_ENABLED, id: CMD_EXIT as usize, label: Some(wide_of("E&xit"@)) },
    ]
}

/// `menu` is the context menu of state `s` at the point packed into `wp`:
/// x in the low word, y in the bits above it.
pub open spec fn is_context_menu(s: FrameState, wp: usize, menu: PopupMenu) -> bool {
    &&& menu.x == (wp & 0xFFFFusize) as i32
    &&& menu.y == (wp >> 16usize) as i32
    &&& menu.items@.len() == 4
    &&& forall|i: int| 0 <= i < 4 ==> #[trigger] menu.items@[i]@ == menu_items(s)[i]
}

/// The effect of an application message with parameters `wp` and `lp` in state `s`.
pub open spec fn app_effect(s: FrameState, wp: usize, lp: isize, e: Effect) -> bool {
    if lp == WM_CONTEXTMENU as isize {
        e matches Effect::ShowMenu(menu) && is_context_menu(s, wp, menu)
    } else {
        e is Nothing
    }
}

/// The state after message `msg` in state `s`.
pub open spec fn after_message(s: FrameState, msg: u32, wp: usize, lp: isize) -> FrameState {
    match cracked(msg, wp, lp) {
        WM::Command(_, id, _) => after_command(s, id),
        _ => s,
    }
}

/// The effect of message `msg` in state `s`, given the state `post` it leads to
/// and the number registered for the "TaskbarCreated" message.
pub open spec fn message_effect(
    s: FrameState,
    post: FrameState,
    msg: u32,
    wp: usize,
    lp: isize,
    taskbar_created: u32,
    e: Effect,
) -> bool {
    match cracked(msg, wp, lp) {
        WM::Create(_) => e is Create,
        WM::Destroy => e is Destroy,
        WM::Command(_, id, _) => command_effect(post, id, e),
        WM::Timer(_) => e is CheckIdle,
        WM::App(_, wp2, lp2) => app_effect(s, wp2, lp2, e),
        WM::Registered(m, _, _) => if m == taskbar_created {
            e is AddIcon
        } else {
            e is Default
        },
        _ => e is Default,
    }
}

/// Milliseconds from tick count `last` to tick count `now`, where the
/// 32-bit tick count may have wrapped around once in between.
pub open spec fn elapsed_ms(last: u32, now: u32) -> int {
    if last <= now {
        now - last
    } else {
        now + 0x1_0000_0000 - last
    }
}

/// The key strokes that tell the system the user is still there: Shift pressed
/// and released.
pub open spec fn shift_tap() -> Seq<KeyStroke> {
    seq![KeyStroke { vk: VK_SHIFT, flags: 0 }, KeyStroke { vk: VK_SHIFT, flags: KEYEVENTF_KEYUP }]
}

/// Where installing the tray icon stands after `req` was answered with
/// `succeeded`: the version is set only once the icon was added, and the icon
/// is in place only once both succeeded.
pub open spec fn icon_progress(req: IconRequest, succeeded: bool) -> IconProgress {
    if !succeeded {
        IconProgress::Failed
    } else {
        match req {
            IconRequest::Add => IconProgress::Next(IconRequest::SetVersion),
            IconRequest::SetVersion => IconProgress::Installed,
        }
    }
}

impl MainFrame {
    /// A window with both settings off.
    pub fn new() -> (res: MainFrame)
        ensures
            !res@.awake,
            !res@.prohibit_ss,
    {
        MainFrame { awake: false, prohibit_ss: false }
    }

    /// Whether the system and display are kept on.
    pub fn awake(&self) -> (res: bool)
        ensures
            res == self@.awake,
    {
        self.awake
    }

    /// Whether the screen saver is kept away.
    pub fn prohibit_ss(&self) -> (res: bool)
        ensures
            res == self@.prohibit_ss,
    {
        self.prohibit_ss
    }

    /// Answers a window message. `taskbar_created` is the number registered
    /// for the "TaskbarCreated" message, which the shell sends when it restarts.
    pub fn handle(&mut self, msg: u32, wp: usize, lp: isize, taskbar_created: u32) -> (res: Effect)
        ensures
            final(self)@ == after_message(old(self)@, msg, wp, lp),
            message_effect(old(self)@, final(self)@, msg, wp, lp, taskbar_created, res),
    {
        match WM::crack(msg, wp, lp) {
            WM::Create(_) => Effect::Create,
            WM::Destroy => Effect::Destroy,
            WM::Command(_, id, _) => self.handle_command(id),
            WM::Timer(_) => Effect::CheckIdle,
            WM::App(_, wp2, lp2) => self.handle_app(wp2, lp2),
            WM::Registered(m, _, _) => {
                if m == taskbar_created {
                    Effect::AddIcon
                } else {
                    Effect::Default
                }
            },
            _ => Effect::Default,
        }
    }

    /// How window creation ends once installing the tray icon was tried: if
    /// the icon is in place, creation goes on (result 0) and the window sends
    /// itself the commands that switch both settings on; otherwise creation
    /// fails (result -1) and no command is sent.
    pub fn after_icon_install(installed: bool) -> (res: CreateReply)
        ensures
            installed ==> res.result == 0 && res.commands@ == seq![
                CMD_KEEP_AWAKE,
                CMD_PROHIBIT_SCREEN_SAVER,
            ],
            !installed ==> res.result == -1 && res.commands@.len() == 0,
    {
        let mut commands: Vec<i16> = Vec::new();
        if installed {
            commands.push(CMD_KEEP_AWAKE);
            commands.push(CMD_PROHIBIT_SCREEN_SAVER);
            CreateReply { result: 0, commands }
        } else {
            CreateReply { result: -1, commands }
        }
    }

    /// The next step of installing the tray icon, after the shell answered
    /// `req` with `succeeded`.
    pub fn icon_install_next(req: IconRequest, succeeded: bool) -> (res: IconProgress)
        ensures
            res == icon_progress(req, succeeded),
    {
        if !succeeded {
            IconProgress::Failed
        } else {
            match req {
                IconRequest::Add => IconProgress::Next(IconRequest::SetVersion),
                IconRequest::SetVersion => IconProgress::Installed,
            }
        }
    }

    /// Answers a menu command.
    pub fn handle_command(&mut self, id: i16) -> (res: Effect)
        ensures
            final(self)@ == after_command(old(self)@, id),
            command_effect(final(self)@, id, res),
    {
        if id == CMD_EXIT {
            Effect::CloseWindow
        } else if id == CMD_KEEP_AWAKE {
            self.awake = !self.awake;
            let flags: u32 = if self.awake {
                ES_CONTINUOUS | ES_SYSTEM_REQUIRED | ES_DISPLAY_REQUIRED
            } else {
                ES_CONTINUOUS
            };
            Effect::SetExecutionState(flags)
        } else if id == CMD_PROHIBIT_SCREEN_SAVER {
            self.prohibit_ss = !self.prohibit_ss;
            if self.prohibit_ss {
                Effect::SetTimer(IDLE_TIMER_ID, IDLE_TIMER_INTERVAL_MS)
            } else {
                Effect::KillTimer(IDLE_TIMER_ID)
            }
        } else {
            Effect::Nothing
        }
    }

    /// Answers a message from the tray icon: a request for the context menu
    /// shows it at the point packed into `wp`.
    pub fn handle_app(&self, wp: usize, lp: isize) -> (res: Effect)
        ensures
            app_effect(self@, wp, lp, res),
    {
        if lp == WM_CONTEXTMENU as isize {
            Effect::ShowMenu(self.context_menu(wp))
        } else {
            Effect::Nothing
        }
    }

    /// The context menu at the point packed into `wp`.
    pub fn context_menu(&self, wp: usize) -> (res: PopupMenu)
        ensures
            is_context_menu(self@, wp, res),
    {
        let x: i32 = (wp & 0xFFFFusize) as i32;
        let y: i32 = (wp >> 16usize) as i32;
        let mut items: Vec<MenuItem> = Vec::new();
        items.push(
            MenuItem {
                flags: if self.awake { MF_CHECKED } else { MF_ENABLED },
                id: CMD_KEEP_AWAKE as usize,
                label: Some("&Keep awake".to_wide()),
            },
        );
        items.push(
            MenuItem {
                flags: if self.prohibit_ss { MF_CHECKED } else { MF_ENABLED },
                id: CMD_PROHIBIT_SCREEN_SAVER as usize,
                label: Some("&Prohibit screen saver".to_wide()),
            },
        );
        items.push(MenuItem { flags: MF_SEPARATOR, id: 0, label: None });
        items.push(MenuItem { flags: MF_ENABLED, id: CMD_EXIT as usize, label: Some("E&xit".to_wide()) });
        PopupMenu { x, y, items }
    }

    /// The key strokes to simulate when the idle timer fires, given the tick
    /// count of the last input and the current tick count: a Shift tap once
    /// the user has been idle for a minute, nothing before.
    pub fn idle_keystrokes(last_input: u32, now: u32) -> (res: Vec<KeyStroke>)
        ensures
            elapsed_ms(last_input, now) >= IDLE_THRESHOLD_MS ==> res@ == shift_tap(),
            elapsed_ms(last_input, now) < IDLE_THRESHOLD_MS ==> res@.len() == 0,
            last_input <= now ==> (res@.len() == 2 <==> now - last_input >= 60_000),
            last_input > now ==> (res@.len() == 2 <==> now + 0x1_0000_0000 - last_input
                >= 60_000),
    {
        let idle_time: u32 = now.wrapping_sub(last_input);
        let mut res: Vec<KeyStroke> = Vec::new();
        if IDLE_THRESHOLD_MS <= idle_time {
            res.push(KeyStroke { vk: VK_SHIFT, flags: 0 });
            res.push(KeyStroke { vk: VK_SHIFT, flags: KEYEVENTF_KEYUP });
        }
        res
    }

    /// The tray icon to install: it reports to the window with `WM_APP`,
    /// speaks version 4 of the protocol and shows the application's name as
    /// its tooltip.
    pub fn tray_icon() -> (res: TrayIcon)
        ensures
            res.flags == NIF_MESSAGE | NIF_ICON | NIF_TIP | NIF_SHOWTIP,
            res.callback_message == WM_APP,
            res.version == NOTIFYICON_VERSION_4,
            res.tip@ == fixed_buffer(wide_of(APP_NAME@), 128),
            res.flags == 0x0087,
            res.callback_message == 0x8000,
            res.tip@.take(6) == seq![0x4Du16, 0x6Fu16, 0x63u16, 0x68u16, 0x61u16, 0u16],
            forall|i: int| 6 <= i < 128 ==> #[trigger] res.tip@[i] == 0u16,
    {
        proof {
            reveal_strlit("Mocha");
            assert(NIF_MESSAGE | NIF_ICON | NIF_TIP | NIF_SHOWTIP == 0x0087u32) by (bit_vector);
            let name = APP_NAME@;
            assert(name =~= seq!['M', 'o', 'c', 'h', 'a']);
            reveal_with_fuel(utf16_encode, 6);
            assert(wide_of(name) =~= seq![0x4Du16, 0x6Fu16, 0x63u16, 0x68u16, 0x61u16, 0u16]);
        }
        let tip = APP_NAME.to_wide();
        TrayIcon {
            flags: NIF_MESSAGE | NIF_ICON | NIF_TIP | NIF_SHOWTIP,
            callback_message: WM_APP,
            version: NOTIFYICON_VERSION_4,
            tip: tip.to_array::<128>(),
        }
    }
}

/// Giving the same command twice leaves the window as it was.
pub proof fn lemma_command_involution(s: FrameState, id: i16)
    ensures
        after_command(after_command(s, id), id) == s,
{
}

/// Each toggling command changes its own setting and nothing else; every
/// other command changes nothing.
pub proof fn lemma_command_touches_one_setting(s: FrameState, id: i16)
    ensures
        after_command(s, id).awake == (if id == CMD_KEEP_AWAKE { !s.awake } else { s.awake }),
        after_command(s, id).prohibit_ss == (if id == CMD_PROHIBIT_SCREEN_SAVER {
            !s.prohibit_ss
        } else {
            s.prohibit_ss
        }),
{
}

/// Only `WM_COMMAND` messages change the window's state.
pub proof fn lemma_only_commands_change_state(s: FrameState, msg: u32, wp: usize, lp: isize)
    requires
        msg != crate::win32::WM_COMMAND,
    ensures
        after_message(s, msg, wp, lp) == s,
{
}

/// A fresh window that receives its startup commands keeps the system and
/// the display on and arms the idle timer.
pub proof fn lemma_startup(s0: FrameState, e1: Effect, e2: Effect)
    requires
        !s0.awake,
        !s0.prohibit_ss,
        command_effect(after_command(s0, CMD_KEEP_AWAKE), CMD_KEEP_AWAKE, e1),
        command_effect(
            after_command(after_command(s0, CMD_KEEP_AWAKE), CMD_PROHIBIT_SCREEN_SAVER),
            CMD_PROHIBIT_SCREEN_SAVER,
            e2,
        ),
    ensures
        after_command(after_command(s0, CMD_KEEP_AWAKE), CMD_PROHIBIT_SCREEN_SAVER).awake,
        after_command(after_command(s0, CMD_KEEP_AWAKE), CMD_PROHIBIT_SCREEN_SAVER).prohibit_ss,
        e1 == Effect::SetExecutionState(0x8000_0003u32),
        e2 == Effect::SetTimer(IDLE_TIMER_ID, IDLE_TIMER_INTERVAL_MS),
{
    assert(ES_CONTINUOUS | ES_SYSTEM_REQUIRED | ES_DISPLAY_REQUIRED == 0x8000_0003u32)
        by (bit_vector);
}

/// The check mark of each setting's menu item shows the setting, and choosing
/// the item flips its own check mark and leaves the other one alone.
pub proof fn lemma_menu_tracks_commands(s: FrameState, i: int)
    requires
        0 <= i < 2,
    ensures
        menu_items(s)[0].flags == MF_CHECKED <==> s.awake,
        menu_items(s)[1].flags == MF_CHECKED <==> s.prohibit_ss,
        menu_items(after_command(s, menu_items(s)[i].id as i16))[i].flags != menu_items(s)[i].flags,
        menu_items(after_command(s, menu_items(s)[i].id as i16))[1 - i].flags == menu_items(
            s,
        )[1 - i].flags,
{
}

/// A point packed into a `WPARAM` the way the tray icon packs it (x in the
/// low word, y in the next) is unpacked into the same point.
pub proof fn lemma_menu_point_round_trip(s: FrameState, x: u16, y: u16, menu: PopupMenu)
    requires
        is_context_menu(s, ((y as u32) << 16u32 | x as u32) as usize, menu),
    ensures
        menu.x == x,
        menu.y == y,
{
    let wp = ((y as u32) << 16u32 | x as u32) as usize;
    assert((wp & 0xFFFFusize) as i32 == x && (wp >> 16usize) as i32 == y) by (bit_vector)
        requires
            wp == ((y as u32) << 16u32 | x as u32) as usize,
    ;
}

/// Installing the tray icon, started with `Add`, ends in `Installed` exactly
/// when adding it and then setting its version both succeed; a failed `Add`
/// ends it at once, without a `SetVersion` request.
pub proof fn lemma_icon_install(added: bool, version_set: bool)
    ensures
        !added ==> icon_progress(IconRequest::Add, added) == IconProgress::Failed,
        added ==> icon_progress(IconRequest::Add, added) == IconProgress::Next(
            IconRequest::SetVersion,
        ),
        added ==> (icon_progress(IconRequest::SetVersion, version_set) == IconProgress::Installed
            <==> version_set),
{
}

/// The state after the commands `ids`, given in order from state `s`.
pub open spec fn after_commands(s: FrameState, ids: Seq<i16>) -> FrameState
    decreases ids.len(),
{
    if ids.len() == 0 {
        s
    } else {
        after_command(after_commands(s, ids.drop_last()), ids.last())
    }
}

/// `effects` are the effects of the commands `ids`, given in order from state `s`.
pub open spec fn command_effects(s: FrameState, ids: Seq<i16>, effects: Seq<Effect>) -> bool {
    &&& effects.len() == ids.len()
    &&& forall|i: int|
        0 <= i < ids.len() ==> command_effect(
            after_commands(s, ids.take(i + 1)),
            ids[i],
            #[trigger] effects[i],
        )
}

/// The flags of the last execution-state request among `effects`, if any.
pub open spec fn last_execution_request(effects: Seq<Effect>) -> Option<u32>
    decreases effects.len(),
{
    if effects.len() == 0 {
        None
    } else {
        match effects.last() {
            Effect::SetExecutionState(flags) => Some(flags),
            _ => last_execution_request(effects.drop_last()),
        }
    }
}

/// The last timer request among `effects`, if any.
pub open spec fn last_timer_request(effects: Seq<Effect>) -> Option<Effect>
    decreases effects.len(),
{
    if effects.len() == 0 {
        None
    } else {
        match effects.last() {
            Effect::SetTimer(id, ms) => Some(Effect::SetTimer(id, ms)),
            Effect::KillTimer(id) => Some(Effect::KillTimer(id)),
            _ => last_timer_request(effects.drop_last()),
        }
    }
}

/// After any run of commands on a fresh window, the last execution-state
/// request asks for the system and the display exactly when "keep awake" is
/// on, and the last timer request starts the idle timer exactly when
/// "prohibit screen saver" is on and stops it otherwise. A setting that was
/// never requested is still off.
pub proof fn lemma_requests_follow_settings(s0: FrameState, ids: Seq<i16>, effects: Seq<Effect>)
    requires
        !s0.awake,
        !s0.prohibit_ss,
        command_effects(s0, ids, effects),
    ensures
        last_execution_request(effects) matches Some(flags) ==> flags == execution_flags(
            after_commands(s0, ids).awake,
        ),
        last_execution_request(effects) matches Some(flags) ==> ((flags & (ES_SYSTEM_REQUIRED
            | ES_DISPLAY_REQUIRED)) == (ES_SYSTEM_REQUIRED | ES_DISPLAY_REQUIRED) <==> after_commands(
            s0,
            ids,
        ).awake),
        last_execution_request(effects) is None ==> !after_commands(s0, ids).awake,
        last_timer_request(effects) is None ==> !after_commands(s0, ids).prohibit_ss,
        last_timer_request(effects) is Some ==> last_timer_request(effects) == Some(
            if after_commands(s0, ids).prohibit_ss {
                Effect::SetTimer(IDLE_TIMER_ID, IDLE_TIMER_INTERVAL_MS)
            } else {
                Effect::KillTimer(IDLE_TIMER_ID)
            },
        ),
    decreases ids.len(),
{
    let post = after_commands(s0, ids);
    if ids.len() > 0 {
        let n = ids.len() - 1;
        let ids2 = ids.drop_last();
        let effects2 = effects.drop_last();
        assert forall|i: int| 0 <= i < ids2.len() implies command_effect(
            after_commands(s0, ids2.take(i + 1)),
            ids2[i],
            #[trigger] effects2[i],
        ) by {
            assert(ids2.take(i + 1) =~= ids.take(i + 1));
            assert(effects2[i] == effects[i]);
        }
        lemma_requests_follow_settings(s0, ids2, effects2);
        assert(ids.take(n + 1) =~= ids);
        assert(command_effect(post, ids[n], effects[n]));
        assert(effects.drop_last() =~= effects2);
    }
    if let Some(flags) = last_execution_request(effects) {
        if post.awake {
            assert(flags & (ES_SYSTEM_REQUIRED | ES_DISPLAY_REQUIRED) == (ES_SYSTEM_REQUIRED
                | ES_DISPLAY_REQUIRED)) by (bit_vector)
                requires
                    flags == ES_CONTINUOUS | ES_SYSTEM_REQUIRED | ES_DISPLAY_REQUIRED,
            ;
        } else {
            assert(flags & (ES_SYSTEM_REQUIRED | ES_DISPLAY_REQUIRED) != (ES_SYSTEM_REQUIRED
                | ES_DISPLAY_REQUIRED)) by (bit_vector)
                requires
                    flags == ES_CONTINUOUS,
            ;
        }
    }
}

/// What each menu command does, in terms of the state before it: "Exit"
/// (0) closes the window whatever the settings; "Keep awake" (1) asks for the
/// system and display (`0x8000_0003`) when it switches the setting on and
/// only for continuity (`0x8000_0000`) when it switches it off; "Prohibit
/// screen saver" (2) starts the one-second idle timer 0 when it switches the
/// setting on and stops it when it switches it off; any other id does
/// nothing. Only commands 1 and 2 change the state.
pub proof fn lemma_command_outcomes(s: FrameState, id: i16, e: Effect)
    requires
        command_effect(after_command(s, id), id, e),
    ensures
        id == 0 ==> e == Effect::CloseWindow && after_command(s, id) == s,
        id == 1 ==> e == Effect::SetExecutionState(
            if !s.awake {
                0x8000_0003u32
            } else {
                0x8000_0000u32
            },
        ),
        id == 2 ==> e == (if !s.prohibit_ss {
            Effect::SetTimer(0, 1000)
        } else {
            Effect::KillTimer(0)
        }),
        id != 0 && id != 1 && id != 2 ==> e == Effect::Nothing && after_command(s, id) == s,
{
    assert(ES_CONTINUOUS | ES_SYSTEM_REQUIRED | ES_DISPLAY_REQUIRED == 0x8000_0003u32)
        by (bit_vector);
}

/// What each kind of message is answered with, whatever the settings:
/// creation asks for the icon, destruction tears down, every timer tick asks
/// for an idle check, a command is answered as that command (its id is the low
/// word of `wp`), the "TaskbarCreated" number reinstalls the icon, and every
/// other message below `WM_USER`, every message private to the window class,
/// every other registered number and every number above `0xFFFF` goes to the
/// default procedure. Only a command changes the state.
pub proof fn lemma_message_outcomes(
    s: FrameState,
    post: FrameState,
    msg: u32,
    wp: usize,
    lp: isize,
    tc: u32,
    e: Effect,
)
    requires
        post == after_message(s, msg, wp, lp),
        message_effect(s, post, msg, wp, lp, tc, e),
    ensures
        msg == 0x0001 ==> e == Effect::Create && post == s,
        msg == 0x0002 ==> e == Effect::Destroy && post == s,
        msg == 0x0113 ==> e == Effect::CheckIdle && post == s,
        msg == 0x0111 ==> post == after_command(s, wp as i16) && command_effect(
            post,
            wp as i16,
            e,
        ),
        0xC000 <= msg <= 0xFFFF && msg == tc ==> e == Effect::AddIcon && post == s,
        0xC000 <= msg <= 0xFFFF && msg != tc ==> e == Effect::Default && post == s,
        msg < 0x0400 && msg != 0x0001 && msg != 0x0002 && msg != 0x0111 && msg != 0x0113
            ==> e == Effect::Default && post == s,
        0x0400 <= msg <= 0x7FFF ==> e == Effect::Default && post == s,
        msg > 0xFFFF ==> e == Effect::Default && post == s,
        0x8000 <= msg <= 0xBFFF && lp != 0x007B ==> e == Effect::Nothing && post == s,
        0x8000 <= msg <= 0xBFFF && lp == 0x007B ==> e is ShowMenu && post == s,
{
}

/// The context menu always has four items: "Keep awake" (id 1) checked
/// exactly when that setting is on, "Prohibit screen saver" (id 2) checked
/// exactly when that setting is on, a separator, and "Exit" (id 0), enabled
/// and unchecked. Only the check marks depend on the state.
pub proof fn lemma_menu_layout(s: FrameState, t: FrameState)
    ensures
        menu_items(s).len() == 4,
        menu_items(s)[0].id == 1 && menu_items(s)[0].label == Some(wide_of("&Keep awake"@)),
        menu_items(s)[0].flags == (if s.awake { 0x0008u32 } else { 0x0000u32 }),
        menu_items(s)[1].id == 2 && menu_items(s)[1].label == Some(
            wide_of("&Prohibit screen saver"@),
        ),
        menu_items(s)[1].flags == (if s.prohibit_ss { 0x0008u32 } else { 0x0000u32 }),
        menu_items(s)[2].flags == 0x0800 && menu_items(s)[2].id == 0,
        menu_items(s)[2].label is None,
        menu_items(s)[3].flags == 0x0000 && menu_items(s)[3].id == 0,
        menu_items(s)[3].label == Some(wide_of("E&xit"@)),
        forall|i: int|
            0 <= i < 4 ==> #[trigger] menu_items(s)[i].id == menu_items(t)[i].id
                && menu_items(s)[i].label == menu_items(t)[i].label,
        menu_items(s)[2] == menu_items(t)[2] && menu_items(s)[3] == menu_items(t)[3],
{
}

/// The menu opens at the point the tray icon packs into `wp`: x is its low
/// 16 bits and y the 16 bits above them.
pub proof fn lemma_menu_point(s: FrameState, wp: usize, menu: PopupMenu)
    requires
        is_context_menu(s, wp, menu),
        wp <= 0xFFFF_FFFF,
    ensures
        menu.x == wp % 0x10000,
        menu.y == wp / 0x10000,
{
    assert((wp & 0xFFFFusize) as i32 == wp % 0x10000 && (wp >> 16usize) as i32 == wp / 0x10000)
        by (bit_vector)
        requires
            wp <= 0xFFFF_FFFF,
    ;
}

/// The elapsed time is the true 32-bit distance between the tick counts: it
/// lies in `0 .. 2^32` and adding it to `last` gives `now` modulo `2^32`; with
/// no wraparound it is just `now - last`.
pub proof fn lemma_elapsed_is_tick_distance(last: u32, now: u32)
    ensures
        0 <= elapsed_ms(last, now) < 0x1_0000_0000,
        (last + elapsed_ms(last, now)) % 0x1_0000_0000 == now,
        last <= now ==> elapsed_ms(last, now) == now - last,
{
}

/// The simulated input is Shift pressed and then Shift released.
pub proof fn lemma_shift_tap_is_press_release()
    ensures
        shift_tap().len() == 2,
        shift_tap()[0].vk == 0x10 && shift_tap()[1].vk == 0x10,
        shift_tap()[0].flags & 0x0002 == 0,
        shift_tap()[1].flags & 0x0002 == 0x0002,
{
    assert(0u32 & 0x0002u32 == 0u32) by (bit_vector);
    assert(0x0002u32 & 0x0002u32 == 0x0002u32) by (bit_vector);
}

} // verus!
