//! The Win32 numbers that the window logic decides with: message codes,
//! flag bits and virtual-key codes, as the Windows SDK defines them.

use vstd::prelude::*;

verus! {

/// `WM_CREATE`: the window is being created.
pub const WM_CREATE: u32 = 0x0001;

/// `WM_DESTROY`: the window is being destroyed.
pub const WM_DESTROY: u32 = 0x0002;

/// `WM_CONTEXTMENU`: the user asked for a context menu.
pub const WM_CONTEXTMENU: u32 = 0x007B;

/// `WM_COMMAND`: a menu item was chosen.
pub const WM_COMMAND: u32 = 0x0111;

/// `WM_TIMER`: a timer elapsed.
pub const WM_TIMER: u32 = 0x0113;

/// `WM_USER`: the first message number private to a window class.
pub const WM_USER: u32 = 0x0400;

/// `WM_APP`: the first message number private to an application.
pub const WM_APP: u32 = 0x8000;

/// The first message number that `RegisterWindowMessage` hands out.
pub const REGISTERED_FIRST: u32 = 0xC000;

/// The last message number that `RegisterWindowMessage` hands out.
pub const REGISTERED_LAST: u32 = 0xFFFF;

/// `ES_CONTINUOUS`: the execution state stays in effect until it is changed.
pub const ES_CONTINUOUS: u32 = 0x8000_0000;

/// `ES_SYSTEM_REQUIRED`: keeps the system from sleeping.
pub const ES_SYSTEM_REQUIRED: u32 = 0x0000_0001;

/// `ES_DISPLAY_REQUIRED`: keeps the display on.
pub const ES_DISPLAY_REQUIRED: u32 = 0x0000_0002;

/// `MF_ENABLED`: a plain, enabled menu item.
pub const MF_ENABLED: u32 = 0x0000;

/// `MF_CHECKED`: a menu item with a check mark.
pub const MF_CHECKED: u32 = 0x0008;

/// `MF_SEPARATOR`: a separator line in a menu.
pub const MF_SEPARATOR: u32 = 0x0800;

/// `VK_SHIFT`: the virtual-key code of the Shift key.
pub const VK_SHIFT: u16 = 0x10;

/// `KEYEVENTF_KEYUP`: the key is being released.
pub const KEYEVENTF_KEYUP: u32 = 0x0002;

/// `NIF_MESSAGE`: the notification icon data carries a callback message.
pub const NIF_MESSAGE: u32 = 0x0001;

/// `NIF_ICON`: the notification icon data carries an icon.
pub const NIF_ICON: u32 = 0x0002;

/// `NIF_TIP`: the notification icon data carries a tooltip.
pub const NIF_TIP: u32 = 0x0004;

/// `NIF_SHOWTIP`: the tooltip is shown with version 4 of the icon protocol.
pub const NIF_SHOWTIP: u32 = 0x0080;

/// `NOTIFYICON_VERSION_4`: the notification icon protocol used.
pub const NOTIFYICON_VERSION_4: u32 = 4;

} // verus!
