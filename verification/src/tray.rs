//! Tray icon bookkeeping: decoding tray notifications, the context menu's
//! entries, the tooltip buffer, and whether the icon is registered with the
//! shell. The application makes the `Shell_NotifyIconW` calls this module
//! asks for and reports their outcome.
use vstd::prelude::*;

use crate::ids::{IDM_TRAY_EXIT, IDM_TRAY_OPEN, IDM_TRAY_START, IDM_TRAY_STOP};
use crate::util::{to_wide, utf16};

verus! {

/// Win32 `WM_LBUTTONDBLCLK`.
pub const WM_LBUTTONDBLCLK: u32 = 0x0203;

/// Win32 `WM_RBUTTONUP`.
pub const WM_RBUTTONUP: u32 = 0x0205;

/// Capacity of the shell's tooltip buffer in UTF-16 units, terminator
/// included.
pub const TIP_CAPACITY: usize = 128;

#[derive(Copy, Clone, Debug, PartialEq, Eq, Structural)]
pub enum TrayEvent {
    Restore,
    ContextMenu,
    Other,
}

/// The mouse message carried in the low word of a tray notification's
/// `lParam`.
pub open spec fn low_word(lparam: isize) -> u32 {
    (lparam & 0xFFFFisize) as u32
}

pub open spec fn tray_event_of(msg: u32) -> TrayEvent {
    if msg == WM_LBUTTONDBLCLK {
        TrayEvent::Restore
    } else if msg == WM_RBUTTONUP {
        TrayEvent::ContextMenu
    } else {
        TrayEvent::Other
    }
}

/// Decode the lParam of a WM_APP_TRAY notification.
pub fn classify_tray_event(lparam: isize) -> (r: TrayEvent)
    ensures
        r == tray_event_of(low_word(lparam)),
{
    assert(0 <= (lparam & 0xFFFFisize) <= 0xFFFF) by (bit_vector);
    let msg = (lparam & 0xFFFF) as u32;
    if msg == WM_LBUTTONDBLCLK {
        TrayEvent::Restore
    } else if msg == WM_RBUTTONUP {
        TrayEvent::ContextMenu
    } else {
        TrayEvent::Other
    }
}

/// A double click with the left button restores the window, releasing the
/// right button opens the context menu, and every other mouse message is
/// ignored.
pub proof fn lemma_tray_events(msg: u32)
    ensures
        tray_event_of(0x0203) == TrayEvent::Restore,
        tray_event_of(0x0205) == TrayEvent::ContextMenu,
        msg != 0x0203 && msg != 0x0205 ==> tray_event_of(msg) == TrayEvent::Other,
{
}

/// The mouse message is read from the low word of the notification's
/// `lParam`, whatever its high word holds.
pub proof fn lemma_low_word(high: isize, msg: isize)
    requires
        0 <= high < 0x8000,
        0 <= msg < 0x10000,
    ensures
        low_word((high << 16isize) | msg) == msg,
{
    assert(((high << 16isize) | msg) & 0xFFFFisize == msg) by (bit_vector)
        requires
            0 <= high < 0x8000,
            0 <= msg < 0x10000,
    ;
}

/// One entry of the tray's context menu.
#[derive(Copy, Clone, Debug, PartialEq, Eq, Structural)]
pub enum MenuEntry {
    /// A command item with its menu id.
    Item(u32),
    Separator,
}

/// The context menu: Open, then Start or Stop depending on whether the
/// mouse is being jiggled, then Exit, with separators between.
pub open spec fn context_menu_spec(jiggling: bool) -> Seq<MenuEntry> {
    seq![
        MenuEntry::Item(IDM_TRAY_OPEN),
        MenuEntry::Separator,
        MenuEntry::Item(if jiggling { IDM_TRAY_STOP } else { IDM_TRAY_START }),
        MenuEntry::Separator,
        MenuEntry::Item(IDM_TRAY_EXIT),
    ]
}

pub fn context_menu(jiggling: bool) -> (r: Vec<MenuEntry>)
    ensures
        r@ == context_menu_spec(jiggling),
{
    let mut v: Vec<MenuEntry> = Vec::new();
    v.push(MenuEntry::Item(IDM_TRAY_OPEN));
    v.push(MenuEntry::Separator);
    if !jiggling {
        v.push(MenuEntry::Item(IDM_TRAY_START));
    } else {
        v.push(MenuEntry::Item(IDM_TRAY_STOP));
    }
    v.push(MenuEntry::Separator);
    v.push(MenuEntry::Item(IDM_TRAY_EXIT));
    assert(v@ =~= context_menu_spec(jiggling));
    v
}

pub open spec fn menu_label_spec(id: u32) -> Seq<char> {
    if id == IDM_TRAY_OPEN {
        "&Open Mouse Jiggler Neo"@
    } else if id == IDM_TRAY_START {
        "&Start Jiggling"@
    } else if id == IDM_TRAY_STOP {
        "S&top Jiggling"@
    } else if id == IDM_TRAY_EXIT {
        "E&xit"@
    } else {
        Seq::empty()
    }
}

/// The text of a context-menu command (empty for an unknown id).
pub fn menu_label(id: u32) -> (r: &'static str)
    ensures
        r@ == menu_label_spec(id),
{
    if id == IDM_TRAY_OPEN {
        "&Open Mouse Jiggler Neo"
    } else if id == IDM_TRAY_START {
        "&Start Jiggling"
    } else if id == IDM_TRAY_STOP {
        "S&top Jiggling"
    } else if id == IDM_TRAY_EXIT {
        "E&xit"
    } else {
        proof {
            reveal_strlit("");
        }
        ""
    }
}

/// The tooltip as the shell's buffer holds it: at most 127 UTF-16 units of
/// the text, then a terminating zero.
pub open spec fn tip_units_spec(tip: Seq<char>) -> Seq<u16> {
    let w = utf16(tip);
    let n = if w.len() < TIP_CAPACITY - 1 {
        w.len() as int
    } else {
        TIP_CAPACITY - 1
    };
    w.take(n).push(0u16)
}

pub fn tip_units(tip: &str) -> (r: Vec<u16>)
    ensures
        r@ == tip_units_spec(tip@),
        r@.len() <= TIP_CAPACITY,
{
    let wide = to_wide(tip);
    let n = if wide.len() - 1 < TIP_CAPACITY - 1 {
        wide.len() - 1
    } else {
        TIP_CAPACITY - 1
    };
    let mut out: Vec<u16> = Vec::new();
    let mut i: usize = 0;
    while i < n
        invariant
            wide@ == utf16(tip@).push(0u16),
            n <= wide.len() - 1,
            i <= n,
            out@ == utf16(tip@).take(i as int),
        decreases n - i,
    {
        out.push(wide[i]);
        assert(out@ =~= utf16(tip@).take(i + 1));
        i += 1;
    }
    out.push(0u16);
    out
}

/// The tooltip buffer always ends in its terminating zero and fits the
/// shell's buffer; a tip that fits is kept whole, a longer one is cut after
/// its first 127 units.
pub proof fn lemma_tip_buffer(tip: Seq<char>)
    ensures
        tip_units_spec(tip).len() <= 128,
        tip_units_spec(tip).last() == 0u16,
        utf16(tip).len() < 128 ==> tip_units_spec(tip).drop_last() == utf16(tip),
        utf16(tip).len() >= 128 ==> tip_units_spec(tip).drop_last() == utf16(tip).take(127),
{
    let w = utf16(tip);
    let n = if w.len() < TIP_CAPACITY - 1 {
        w.len() as int
    } else {
        TIP_CAPACITY - 1
    };
    assert(tip_units_spec(tip).drop_last() =~= w.take(n));
    if w.len() == 127 {
        assert(w.take(127) =~= w);
    }
    if w.len() < 127 {
        assert(w.take(n) =~= w);
    }
}

/// A call to `Shell_NotifyIconW`.
#[derive(Copy, Clone, Debug, PartialEq, Eq, Structural)]
pub enum ShellRequest {
    /// `NIM_ADD` with icon, callback message and tip.
    Add,
    /// `NIM_MODIFY` of the tip.
    Modify,
    /// `NIM_DELETE`.
    Delete,
}

/// Whether the tray icon is currently registered with the shell.
#[derive(Copy, Clone)]
pub struct Tray {
    pub registered: bool,
}

impl Tray {
    pub fn new() -> (r: Tray)
        ensures
            !r.registered,
    {
        Tray { registered: false }
    }

    /// Show the icon with the given tip: modify the tip when the icon is
    /// registered, add it otherwise.
    pub fn ensure_added(&self) -> (r: ShellRequest)
        ensures
            r == if self.registered { ShellRequest::Modify } else { ShellRequest::Add },
    {
        if self.registered {
            ShellRequest::Modify
        } else {
            ShellRequest::Add
        }
    }

    /// Change the tip: only a registered icon is modified.
    pub fn update_tip(&self) -> (r: Option<ShellRequest>)
        ensures
            r == if self.registered { Some(ShellRequest::Modify) } else { None },
    {
        if !self.registered {
            return None;
        }
        Some(ShellRequest::Modify)
    }

    /// Remove the icon: only a registered icon is deleted, and it counts as
    /// unregistered from then on, whatever the shell answers.
    pub fn remove(&mut self) -> (r: Option<ShellRequest>)
        ensures
            r == if old(self).registered { Some(ShellRequest::Delete) } else { None },
            !final(self).registered,
    {
        if !self.registered {
            return None;
        }
        self.registered = false;
        Some(ShellRequest::Delete)
    }

    /// Records the shell's answer `ok` to `request` and returns it: an add
    /// registers the icon when it succeeds, a failed modify means the icon
    /// is gone, a delete leaves it unregistered.
    pub fn record(&mut self, request: ShellRequest, ok: bool) -> (r: bool)
        ensures
            r == ok,
            final(self).registered == match request {
                ShellRequest::Add => ok,
                ShellRequest::Modify => old(self).registered && ok,
                ShellRequest::Delete => false,
            },
    {
        match request {
            ShellRequest::Add => {
                self.registered = ok;
            },
            ShellRequest::Modify => {
                if !ok {
                    self.registered = false;
                }
            },
            ShellRequest::Delete => {
                self.registered = false;
            },
        }
        ok
    }
}

} // verus!
