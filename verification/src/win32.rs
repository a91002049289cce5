//! Win32 values and the text conversions that the Windows calls need.
use vstd::prelude::*;
use crate::text::{encode_utf16, utf16_encode};

verus! {

pub type BOOL = i32;
pub type HWND = isize;
pub type HINSTANCE = isize;
pub type HICON = isize;
pub type HCURSOR = isize;
pub type HBRUSH = isize;
pub type HDC = isize;
pub type HGDIOBJ = isize;
pub type HBITMAP = isize;
pub type HMENU = isize;
pub type HANDLE = isize;
pub type WPARAM = usize;
pub type LPARAM = isize;
pub type LRESULT = isize;

/// A COM class or interface identifier.
#[derive(Clone, Copy, Debug, PartialEq, Eq)]
pub struct GUID {
    pub data1: u32,
    pub data2: u16,
    pub data3: u16,
    pub data4: [u8; 8],
}

impl GUID {
    pub fn new(data1: u32, data2: u16, data3: u16, data4: [u8; 8]) -> (g: Self)
        ensures
            g.data1 == data1,
            g.data2 == data2,
            g.data3 == data3,
            g.data4 == data4,
    {
        GUID { data1, data2, data3, data4 }
    }
}

pub const WM_DESTROY: u32 = 0x0002;
pub const WM_DRAWITEM: u32 = 0x002B;
pub const WM_MEASUREITEM: u32 = 0x002C;
pub const WM_NULL: u32 = 0x0000;
pub const WM_TIMER: u32 = 0x0113;
pub const WM_HOTKEY: u32 = 0x0312;
pub const WM_APP: u32 = 0x8000;
pub const WM_LBUTTONUP: u32 = 0x0202;
pub const WM_RBUTTONUP: u32 = 0x0205;

pub const MOD_ALT: u32 = 0x0001;
pub const MOD_CONTROL: u32 = 0x0002;
pub const MOD_SHIFT: u32 = 0x0004;
pub const MOD_WIN: u32 = 0x0008;
pub const MOD_NOREPEAT: u32 = 0x4000;

pub const VK_F1: u32 = 0x70;
pub const VK_F2: u32 = 0x71;
pub const VK_F3: u32 = 0x72;
pub const VK_F4: u32 = 0x73;
pub const VK_F5: u32 = 0x74;
pub const VK_F6: u32 = 0x75;
pub const VK_F7: u32 = 0x76;
pub const VK_F8: u32 = 0x77;
pub const VK_F9: u32 = 0x78;
pub const VK_F10: u32 = 0x79;
pub const VK_F11: u32 = 0x7A;
pub const VK_F12: u32 = 0x7B;

pub const MF_STRING: u32 = 0x0000;
pub const MF_GRAYED: u32 = 0x0001;
pub const MF_DISABLED: u32 = 0x0002;
pub const MF_CHECKED: u32 = 0x0008;
pub const MF_POPUP: u32 = 0x0010;
pub const MF_SEPARATOR: u32 = 0x0800;
pub const MIIM_FTYPE: u32 = 0x00000100;
pub const MIIM_ID: u32 = 0x00000002;
pub const MFT_OWNERDRAW: u32 = 0x00000100;
pub const ODT_MENU: u32 = 1;

pub const TPM_RIGHTBUTTON: u32 = 0x0002;
pub const TPM_NONOTIFY: u32 = 0x0080;
pub const TPM_RETURNCMD: u32 = 0x0100;

pub const NIM_ADD: u32 = 0x00000000;
pub const NIM_MODIFY: u32 = 0x00000001;
pub const NIM_DELETE: u32 = 0x00000002;
pub const NIF_MESSAGE: u32 = 0x00000001;
pub const NIF_ICON: u32 = 0x00000002;
pub const NIF_TIP: u32 = 0x00000004;
pub const NIF_INFO: u32 = 0x00000010;
pub const NIIF_INFO: u32 = 0x00000001;
pub const NIIF_WARNING: u32 = 0x00000002;
pub const NIIF_ERROR: u32 = 0x00000003;

pub const IDI_APPLICATION: u16 = 32512;
pub const IMAGE_ICON: u32 = 1;
pub const IMAGE_BITMAP: u32 = 0;
pub const LR_DEFAULTSIZE: u32 = 0x00000040;
pub const LR_SHARED: u32 = 0x00008000;
pub const LR_CREATEDIBSECTION: u32 = 0x00002000;
pub const SRCCOPY: u32 = 0x00CC0020;
pub const COLOR_MENU: i32 = 4;
pub const APP_ICON_RESOURCE_ID: u16 = 101;
pub const APP_BANNER_RESOURCE_ID: u16 = 102;

pub const MB_OK: u32 = 0x00000000;
pub const MB_ICONERROR: u32 = 0x00000010;
pub const MB_ICONINFORMATION: u32 = 0x00000040;

pub const STD_INPUT_HANDLE: i32 = -10;
pub const ENABLE_QUICK_EDIT_MODE: u32 = 0x0040;
pub const ENABLE_EXTENDED_FLAGS: u32 = 0x0080;

pub const HALFTONE: i32 = 4;

/// The UTF-16 code units of `s` followed by a terminating zero, as the wide
/// Windows calls take them.
pub fn to_wide(s: &str) -> (w: Vec<u16>)
    ensures
        w@ == utf16_encode(s@).push(0),
{
    let mut w = encode_utf16(s);
    w.push(0);
    w
}

/// What a fixed wide-character field of `n` units holds after `text` was copied
/// into it: the first `n - 1` code units of `text` at most, then zeros up to the end,
/// so that the field always ends in a zero.
pub open spec fn wide_field(text: Seq<char>, n: nat) -> Seq<u16> {
    let units = utf16_encode(text);
    let kept = if n == 0 { 0 } else if units.len() < n - 1 { units.len() as int } else { n - 1 };
    Seq::new(n, |i: int| if i < kept { units[i] } else { 0u16 })
}

/// Copies `text` into the fixed wide-character field `dst`, truncated so that a
/// terminating zero always fits, with the rest of the field cleared.
pub fn copy_wide<const N: usize>(dst: &mut [u16; N], text: &str)
    ensures
        final(dst)@ == wide_field(text@, N as nat),
{
    let units = encode_utf16(text);
    let kept: usize = if N == 0 { 0 } else if units.len() < N - 1 { units.len() } else { N - 1 };
    let mut i: usize = 0;
    while i < N
        invariant
            kept <= units@.len(),
            kept == (if N == 0 { 0 } else if units@.len() < N - 1 { units@.len() as int } else { N - 1 }),
            units@ == utf16_encode(text@),
            i <= N,
            dst@.len() == N,
            forall|j: int| 0 <= j < i ==> dst@[j] == (if j < kept { units@[j] } else { 0u16 }),
        decreases N - i,
    {
        let value = if i < kept { units[i] } else { 0 };
        dst[i] = value;
        i += 1;
    }
    assert(dst@ =~= wide_field(text@, N as nat));
}

/// A copied field ends in a zero, and before the zeros it holds the start of the
/// text's code units.
pub proof fn lemma_wide_field_terminated(text: Seq<char>, n: nat)
    requires
        n > 0,
    ensures
        wide_field(text, n)[n - 1] == 0,
        forall|i: int| 0 <= i < n - 1 && i < utf16_encode(text).len()
            ==> #[trigger] wide_field(text, n)[i] == utf16_encode(text)[i],
{
}

/// Whether a handle that `GetStdHandle` returned can be used: neither null nor
/// `INVALID_HANDLE_VALUE`.
pub fn is_usable_handle(handle: HANDLE) -> (r: bool)
    ensures
        r == (handle != 0 && handle != -1),
{
    handle != 0 && handle != -1
}

/// The console input mode with QuickEdit off: extended flags on, so that the
/// QuickEdit bit is taken into account, and the QuickEdit bit cleared.
pub fn quick_edit_off(mode: u32) -> (r: u32)
    ensures
        r == (mode | ENABLE_EXTENDED_FLAGS) & !ENABLE_QUICK_EDIT_MODE,
        r & ENABLE_QUICK_EDIT_MODE == 0,
        r & ENABLE_EXTENDED_FLAGS == ENABLE_EXTENDED_FLAGS,
{
    let r = (mode | ENABLE_EXTENDED_FLAGS) & !ENABLE_QUICK_EDIT_MODE;
    assert(r & 0x0040u32 == 0 && r & 0x0080u32 == 0x0080u32) by (bit_vector)
        requires
            r == (mode | 0x0080u32) & !0x0040u32,
    ;
    r
}

/// The integer form of a numeric resource identifier (`MAKEINTRESOURCEW`): the
/// address that Windows reads as the identifier itself.
pub fn make_int_resource(id: u16) -> (r: usize)
    ensures
        r == id,
{
    id as usize
}

/// The message reported when a Windows call that returns `BOOL` fails.
pub fn last_bool_error(operation: &str) -> (r: String)
    ensures
        r@ == operation@ + " failed"@,
{
    let mut r = String::from_str(operation);
    r.append(" failed");
    r
}

} // verus!
