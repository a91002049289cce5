//! Capture devices and the COM results that the audio calls report.
use vstd::prelude::*;
use crate::text::{hex_digits, push_hex_digits};
use crate::win32::GUID;

verus! {

/// A COM result code.
pub type HRESULT = i32;

pub const S_FALSE: HRESULT = 1;
pub const COINIT_APARTMENTTHREADED: u32 = 0x2;
pub const CLSCTX_ALL: u32 = 0x17;
pub const STGM_READ: u32 = 0x00000000;
pub const DEVICE_STATE_ACTIVE: u32 = 0x00000001;
pub const E_CAPTURE: i32 = 1;
pub const VT_LPWSTR: u16 = 31;
pub const PKEY_DEVICE_FRIENDLY_NAME_PID: u32 = 14;

/// An active capture endpoint: its endpoint identifier and its friendly name.
#[derive(Debug, Clone, PartialEq, Eq)]
pub struct AudioDevice {
    pub id: String,
    pub name: String,
}

/// Records that COM was initialised on this thread, so that it is shut down again
/// exactly when it was brought up.
#[derive(Debug)]
pub struct ComGuard {
    initialized: bool,
}

/// Whether a COM `HRESULT` reports failure: failure codes are negative.
pub fn failed(hr: HRESULT) -> (r: bool)
    ensures
        r == (hr < 0),
{
    hr < 0
}

/// The message that reports a failed COM operation: its name and the result code in
/// eight upper-case hexadecimal digits of its unsigned form.
pub open spec fn hresult_message(operation: Seq<char>, hr: HRESULT) -> Seq<char> {
    operation + " failed (HRESULT 0x"@ + hex_digits((hr as u32) as nat, 8) + ")"@
}

/// Formats the message that reports a failed COM operation.
pub fn format_hresult(operation: &str, hr: HRESULT) -> (r: String)
    ensures
        r@ == hresult_message(operation@, hr),
{
    let mut r = String::from_str(operation);
    r.append(" failed (HRESULT 0x");
    push_hex_digits(&mut r, (hr as u32) as u64, 8);
    r.append(")");
    r
}

/// `S_FALSE` is a success code.
pub fn _s_false_is_success() -> (r: bool)
    ensures
        r,
{
    !failed(S_FALSE)
}

impl ComGuard {
    /// Takes the result of `CoInitializeEx`: a guard when it succeeded, else the
    /// message that reports the failure.
    pub fn new(hr: HRESULT) -> (r: Result<Self, String>)
        ensures
            hr >= 0 ==> (r matches Ok(g) && g.is_initialized()),
            hr < 0 ==> (r matches Err(e) && e@ == hresult_message("CoInitializeEx"@, hr)),
    {
        if failed(hr) {
            return Err(format_hresult("CoInitializeEx", hr));
        }
        Ok(ComGuard { initialized: true })
    }

    pub closed spec fn is_initialized(&self) -> bool {
        self.initialized
    }

    /// Whether COM has to be shut down when this guard is dropped.
    pub fn initialized(&self) -> (r: bool)
        ensures
            r == self.is_initialized(),
    {
        self.initialized
    }
}

/// The class of the system's device enumerator (`MMDeviceEnumerator`).
pub fn clsid_mmdevice_enumerator() -> (g: GUID)
    ensures
        g.data1 == 0xbcde0395 && g.data2 == 0xe52f && g.data3 == 0x467c,
        g.data4 == [0x8eu8, 0x3d, 0xc4, 0x57, 0x92, 0x91, 0x69, 0x2e],
{
    let data4: [u8; 8] = [0x8e, 0x3d, 0xc4, 0x57, 0x92, 0x91, 0x69, 0x2e];
    GUID::new(0xbcde0395, 0xe52f, 0x467c, data4)
}

/// The interface of the device enumerator (`IMMDeviceEnumerator`).
pub fn iid_immdevice_enumerator() -> (g: GUID)
    ensures
        g.data1 == 0xa95664d2 && g.data2 == 0x9614 && g.data3 == 0x4f35,
        g.data4 == [0xa7u8, 0x46, 0xde, 0x8d, 0xb6, 0x36, 0x17, 0xe6],
{
    let data4: [u8; 8] = [0xa7, 0x46, 0xde, 0x8d, 0xb6, 0x36, 0x17, 0xe6];
    GUID::new(0xa95664d2, 0x9614, 0x4f35, data4)
}

/// The class of the audio policy configuration client.
pub fn clsid_policy_config_client() -> (g: GUID)
    ensures
        g.data1 == 0x870af99c && g.data2 == 0x171d && g.data3 == 0x4f9e,
        g.data4 == [0xafu8, 0x0d, 0xe6, 0x3d, 0xf4, 0x0c, 0x2b, 0xc9],
{
    let data4: [u8; 8] = [0xaf, 0x0d, 0xe6, 0x3d, 0xf4, 0x0c, 0x2b, 0xc9];
    GUID::new(0x870af99c, 0x171d, 0x4f9e, data4)
}

/// The interface that sets the default audio endpoint (`IPolicyConfig`).
pub fn iid_ipolicy_config() -> (g: GUID)
    ensures
        g.data1 == 0xf8679f50 && g.data2 == 0x850a && g.data3 == 0x41cf,
        g.data4 == [0x9cu8, 0x72, 0x43, 0x0f, 0x29, 0x02, 0x90, 0xc8],
{
    let data4: [u8; 8] = [0x9c, 0x72, 0x43, 0x0f, 0x29, 0x02, 0x90, 0xc8];
    GUID::new(0xf8679f50, 0x850a, 0x41cf, data4)
}

/// The property set of a device's friendly name (`PKEY_Device_FriendlyName`).
pub fn pkey_device_friendly_name_fmtid() -> (g: GUID)
    ensures
        g.data1 == 0xa45c254e && g.data2 == 0xdf1c && g.data3 == 0x4efd,
        g.data4 == [0x80u8, 0x20, 0x67, 0xd1, 0x46, 0xa8, 0x50, 0xe0],
{
    let data4: [u8; 8] = [0x80, 0x20, 0x67, 0xd1, 0x46, 0xa8, 0x50, 0xe0];
    GUID::new(0xa45c254e, 0xdf1c, 0x4efd, data4)
}

/// Whether the friendly-name property that a device store returned can be read as
/// a string: the read succeeded and the value is a non-null wide string.
pub fn has_friendly_name(hr: HRESULT, vt: u16, data: usize) -> (r: bool)
    ensures
        r == (hr >= 0 && vt == VT_LPWSTR && data != 0),
{
    !failed(hr) && vt == VT_LPWSTR && data != 0
}

/// The device with endpoint identifier `id`, named by its friendly name where one
/// was read and by its identifier otherwise.
pub fn audio_device(id: String, friendly_name: Option<String>) -> (d: AudioDevice)
    ensures
        d.id == id,
        d.name == (match friendly_name {
            Some(n) => n,
            None => id,
        }),
{
    let name = match friendly_name {
        Some(n) => n,
        None => id.clone(),
    };
    AudioDevice { id, name }
}

/// Whether no device before position `end` of `devices` has the identifier `id`.
pub open spec fn id_absent_before(devices: Seq<AudioDevice>, id: Seq<char>, end: int) -> bool {
    forall|j: int| 0 <= j < end ==> (#[trigger] devices[j]).id@ != id
}

/// Looks up the active device with identifier `device_id` in the result of
/// enumerating the active capture devices: an enumeration error is passed on,
/// else the first device with that identifier, or `None` where none has it.
pub fn find_active_device_by_id(
    enumerated: Result<Vec<AudioDevice>, String>,
    device_id: &str,
) -> (r: Result<Option<AudioDevice>, String>)
    ensures
        enumerated matches Err(e) ==> r == Err::<Option<AudioDevice>, String>(e),
        enumerated matches Ok(devices) ==> (r matches Ok(found) && (match found {
            None => id_absent_before(devices@, device_id@, devices@.len() as int),
            Some(d) => exists|i: int|
                0 <= i < devices@.len() && #[trigger] devices@[i] == d && d.id@ == device_id@
                    && id_absent_before(devices@, device_id@, i),
        })),
{
    match enumerated {
        Err(e) => Err(e),
        Ok(devices) => {
            let mut devices = devices;
            let ghost all = devices@;
            let target = String::from_str(device_id);
            let mut i: usize = 0;
            #[verifier::loop_isolation(false)]
            while i < devices.len()
                invariant
                    devices@ == all,
                    target@ == device_id@,
                    i <= devices@.len(),
                    id_absent_before(all, device_id@, i as int),
                decreases devices@.len() - i,
            {
                if devices[i].id == target {
                    let d = devices.remove(i);
                    assert(all[i as int] == d);
                    return Ok(Some(d));
                }
                i += 1;
            }
            Ok(None)
        },
    }
}

} // verus!
