//! Window messages, sorted into the kinds the main window handles.

pub mod main_frame;

pub use main_frame::MainFrame;

use vstd::prelude::*;

use crate::win32::{
    REGISTERED_FIRST, REGISTERED_LAST, WM_APP, WM_COMMAND, WM_CREATE, WM_DESTROY, WM_TIMER,
    WM_USER,
};

verus! {

/// A window message, with its parameters taken apart where the kind says how.
/// `WPARAM` values are `usize`, `LPARAM` values `isize`, as Win32 defines them.
#[derive(Debug, Clone, Copy, PartialEq, Eq)]
pub enum WM {
    /// `WM_CREATE`, with the address of the creation parameters.
    Create(isize),
    /// `WM_DESTROY`.
    Destroy,
    /// `WM_COMMAND`: notification code, command id, and the control's window.
    Command(u16, i16, isize),
    /// `WM_TIMER`, with the timer id.
    Timer(usize),
    /// A message in the range private to the window class.
    User(u32, usize, isize),
    /// A message in the range private to the application.
    App(u32, usize, isize),
    /// A message number handed out by `RegisterWindowMessage`.
    Registered(u32, usize, isize),
    /// Any other message.
    Unknown(u32, usize, isize),
}

/// The kind of message `msg` is, with its parameters taken apart.
pub open spec fn cracked(msg: u32, wp: usize, lp: isize) -> WM {
    if msg == WM_CREATE {
        WM::Create(lp)
    } else if msg == WM_DESTROY {
        WM::Destroy
    } else if msg == WM_COMMAND {
        WM::Command((wp >> 16usize) as u16, wp as i16, lp)
    } else if msg == WM_TIMER {
        WM::Timer(wp)
    } else if WM_USER <= msg <= 0x7FFF {
        WM::User(msg, wp, lp)
    } else if WM_APP <= msg <= 0xBFFF {
        WM::App(msg, wp, lp)
    } else if REGISTERED_FIRST <= msg <= REGISTERED_LAST {
        WM::Registered(msg, wp, lp)
    } else {
        WM::Unknown(msg, wp, lp)
    }
}

impl WM {
    /// Sorts a message into its kind.
    pub fn crack(msg: u32, wp: usize, lp: isize) -> (res: WM)
        ensures
            res == cracked(msg, wp, lp),
    {
        if msg == WM_CREATE {
            WM::Create(lp)
        } else if msg == WM_DESTROY {
            WM::Destroy
        } else if msg == WM_COMMAND {
            WM::Command((wp >> 16usize) as u16, wp as i16, lp)
        } else if msg == WM_TIMER {
            WM::Timer(wp)
        } else if WM_USER <= msg && msg <= 0x7FFF {
            WM::User(msg, wp, lp)
        } else if WM_APP <= msg && msg <= 0xBFFF {
            WM::App(msg, wp, lp)
        } else if REGISTERED_FIRST <= msg && msg <= REGISTERED_LAST {
            WM::Registered(msg, wp, lp)
        } else {
            WM::Unknown(msg, wp, lp)
        }
    }
}

/// The `WPARAM` of a `WM_COMMAND` message: notification code in the high word,
/// command id in the low word.
pub open spec fn command_wparam(code: u16, id: i16) -> usize {
    (((code as u32) << 16u32) | (id as u16 as u32)) as usize
}

/// A `WM_COMMAND` message built from a notification code and a command id is
/// taken apart into that same code and id.
pub proof fn lemma_command_round_trip(code: u16, id: i16, lp: isize)
    ensures
        cracked(WM_COMMAND, command_wparam(code, id), lp) == WM::Command(code, id, lp),
{
    let wp = command_wparam(code, id);
    assert((wp >> 16usize) as u16 == code && wp as i16 == id) by (bit_vector)
        requires
            wp == (((code as u32) << 16u32) | (id as u16 as u32)) as usize,
    ;
}

/// Each kind names exactly the messages it stands for: `Create` only
/// message 1, `Destroy` only message 2, `Command` only `0x0111`, `Timer` only
/// `0x0113`; `User` is exactly `0x0400 ..= 0x7FFF`, `App` exactly
/// `0x8000 ..= 0xBFFF` and `Registered` exactly `0xC000 ..= 0xFFFF`, each
/// keeping the message and its parameters; every other message, including
/// every other one below `0x0400`, is `Unknown` with its parameters kept.
pub proof fn lemma_crack_kinds(msg: u32, wp: usize, lp: isize)
    ensures
        cracked(msg, wp, lp) is Create <==> msg == 0x0001,
        cracked(msg, wp, lp) is Destroy <==> msg == 0x0002,
        cracked(msg, wp, lp) is Command <==> msg == 0x0111,
        cracked(msg, wp, lp) is Timer <==> msg == 0x0113,
        msg == 0x0001 ==> cracked(msg, wp, lp) == WM::Create(lp),
        msg == 0x0113 ==> cracked(msg, wp, lp) == WM::Timer(wp),
        msg == 0x0111 ==> (cracked(msg, wp, lp) matches WM::Command(_, _, h) && h == lp),
        0x0400 <= msg <= 0x7FFF <==> cracked(msg, wp, lp) == WM::User(msg, wp, lp),
        0x8000 <= msg <= 0xBFFF <==> cracked(msg, wp, lp) == WM::App(msg, wp, lp),
        0xC000 <= msg <= 0xFFFF <==> cracked(msg, wp, lp) == WM::Registered(msg, wp, lp),
        (msg < 0x0400 && msg != 0x0001 && msg != 0x0002 && msg != 0x0111 && msg != 0x0113)
            || msg > 0xFFFF <==> cracked(msg, wp, lp) == WM::Unknown(msg, wp, lp),
{
}

/// A command's id is the low 16 bits of `wp` read as signed, and its
/// notification code the next 16 bits.
pub proof fn lemma_command_fields(wp: usize, lp: isize)
    requires
        wp <= 0xFFFF_FFFF,
    ensures
        (cracked(WM_COMMAND, wp, lp) matches WM::Command(code, id, _) && code == wp / 0x10000
            && (id as u16) == wp % 0x10000),
{
    assert((wp >> 16usize) as u16 == wp / 0x10000 && ((wp as i16) as u16) == wp % 0x10000)
        by (bit_vector)
        requires
            wp <= 0xFFFF_FFFF,
    ;
}

} // verus!
