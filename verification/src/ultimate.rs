//! The C64 Ultimate on the LAN: which endpoint of its REST service takes a
//! file, and what its drives report looks like.

use vstd::prelude::*;
use std::collections::HashMap;
use crate::discovery::{judge, payload_version, Probe};
use crate::text::same_text;

verus! {

/// What `str::to_lowercase` makes of a text.
pub uninterp spec fn lowercase_of(text: Seq<char>) -> Seq<char>;

/// What `Path::extension` finds in a path that is given as text.
pub uninterp spec fn extension_of(path: Seq<char>) -> Option<Seq<char>>;

/// `str::to_lowercase`: the lower-case form of the text by Unicode's rules,
/// which depends on the text alone.
#[verifier::external_body]
fn lowercase(text: &str) -> (lower: String)
    ensures
        lower@ == lowercase_of(text@),
{
    text.to_lowercase()
}

/// `Path::extension` on the text read as a path: the part of the file name
/// behind its last dot, where the path has a file name with a dot that is
/// not its first character. It depends on the text alone, and being cut
/// out of a `str` it is text again.
#[verifier::external_body]
fn extension(path: &str) -> (ext: Option<String>)
    ensures
        match ext {
            Some(e) => extension_of(path@) == Some(e@),
            None => extension_of(path@) is None,
        },
{
    let ext = std::path::Path::new(path).extension()?;
    Some(ext.to_str()?.to_owned())
}

/// The services of the device that run a file.
#[derive(Clone, Copy, Debug, PartialEq, Eq, Structural)]
pub enum Runner {
    /// Loads and runs a program.
    Prg,
    /// Starts a cartridge image.
    Crt,
    /// Plays a SID tune.
    Sid,
    /// Plays a MOD tune.
    Mod,
}

/// Why a file is not sent to the device.
#[derive(Clone, Copy, Debug, PartialEq, Eq, Structural)]
pub enum Rejection {
    /// The program does not fit below the end of memory from its load
    /// address.
    TooLarge,
    /// The file's extension names nothing that the device runs.
    UnknownExtension,
    /// The file's extension names no disk image.
    UnknownImage,
}

/// What to do next with a file that is to be loaded.
#[derive(Clone, Copy, Debug, PartialEq, Eq, Structural)]
pub enum LoadStep {
    /// Read the file's size and its first two bytes, and go on with
    /// `load_prg`.
    ReadHeader,
    /// Post the file to this service.
    Post(Runner),
    /// Give up.
    Reject(Rejection),
}

impl Runner {
    /// The path of the service.
    pub open spec fn path_text(self) -> Seq<char> {
        match self {
            Runner::Prg => "/v1/runners:run_prg"@,
            Runner::Crt => "/v1/runners:run_crt"@,
            Runner::Sid => "/v1/runners:sidplay"@,
            Runner::Mod => "/v1/runners:modplay"@,
        }
    }

    /// The path of the service.
    pub fn path(&self) -> (p: &'static str)
        ensures
            p@ == self.path_text(),
    {
        match self {
            Runner::Prg => "/v1/runners:run_prg",
            Runner::Crt => "/v1/runners:run_crt",
            Runner::Sid => "/v1/runners:sidplay",
            Runner::Mod => "/v1/runners:modplay",
        }
    }
}

impl Rejection {
    /// The text shown for the rejection.
    pub open spec fn message_text(self) -> Seq<char> {
        match self {
            Rejection::TooLarge => "PRG file is too large"@,
            Rejection::UnknownExtension => "File extension not recognized"@,
            Rejection::UnknownImage => "Unrecognized disk image file type/"@,
        }
    }

    /// The text to show for the rejection.
    pub fn message(&self) -> (m: &'static str)
        ensures
            m@ == self.message_text(),
    {
        match self {
            Rejection::TooLarge => "PRG file is too large",
            Rejection::UnknownExtension => "File extension not recognized",
            Rejection::UnknownImage => "Unrecognized disk image file type/",
        }
    }
}

/// The service that runs a file with this lower-case extension. A file
/// without extension counts as a program.
pub open spec fn runner_of(ext: Option<Seq<char>>) -> Option<Runner> {
    match ext {
        None => Some(Runner::Prg),
        Some(e) => if e == "crt"@ {
            Some(Runner::Crt)
        } else if e == "sid"@ {
            Some(Runner::Sid)
        } else if e == "mod"@ {
            Some(Runner::Mod)
        } else if e == "prg"@ {
            Some(Runner::Prg)
        } else {
            None
        },
    }
}

/// The first step for a file with this lower-case extension: only a
/// program has its header read, every other kind is decided by the
/// extension alone.
pub open spec fn first_step(ext: Option<Seq<char>>) -> LoadStep {
    match runner_of(ext) {
        Some(Runner::Prg) => LoadStep::ReadHeader,
        Some(r) => LoadStep::Post(r),
        None => LoadStep::Reject(Rejection::UnknownExtension),
    }
}

/// Whether a program of `size` bytes, loaded at `start`, ends below 64 KiB.
pub open spec fn fits_memory(size: u64, start: u16) -> bool {
    size + start < 65536
}

/// The load address that the first two bytes of a program give, low byte
/// first.
pub open spec fn address_of(low: u8, high: u8) -> u16 {
    (low + 256 * high) as u16
}

/// The path that mounts an image of type `ext` on drive `device`.
pub open spec fn mount_path(device: Seq<char>, ext: Seq<char>) -> Seq<char> {
    "/v1/drives/"@ + device + "mount?type="@ + ext
}

/// Whether a lower-case extension names a disk image.
pub open spec fn is_image_type(ext: Seq<char>) -> bool {
    ext == "d64"@ || ext == "g64"@ || ext == "d71"@ || ext == "g71"@ || ext == "d81"@
}

/// The path that mounts a file with this lower-case extension on `device`,
/// where the extension names a disk image.
pub open spec fn mount_target(device: Seq<char>, ext: Option<Seq<char>>) -> Result<
    Seq<char>,
    Rejection,
> {
    match ext {
        Some(e) => if is_image_type(e) {
            Ok(mount_path(device, e))
        } else {
            Err(Rejection::UnknownImage)
        },
        None => Err(Rejection::UnknownImage),
    }
}

/// The URL of a service of the device at `ip`.
pub open spec fn url_text(ip: Seq<char>, endpoint: Seq<char>) -> Seq<char> {
    "http://"@ + ip + endpoint
}

/// The path of the drives report.
pub const DRIVES: &'static str = "/v1/drives";

/// Reads a load address from the first two bytes of a program.
pub fn load_address(low: u8, high: u8) -> (start: u16)
    ensures
        start == address_of(low, high),
        start == low + 256 * high,
{
    let h: u16 = high as u16;
    let l: u16 = low as u16;
    h * 256 + l
}

/// Decides the first step for a file from its lower-case extension.
pub fn load_step(ext: Option<&str>) -> (step: LoadStep)
    ensures
        step == first_step(
            match ext {
                Some(e) => Some(e@),
                None => None,
            },
        ),
{
    match ext {
        None => LoadStep::ReadHeader,
        Some(e) => {
            if same_text(e, "crt") {
                LoadStep::Post(Runner::Crt)
            } else if same_text(e, "sid") {
                LoadStep::Post(Runner::Sid)
            } else if same_text(e, "mod") {
                LoadStep::Post(Runner::Mod)
            } else if same_text(e, "prg") {
                LoadStep::ReadHeader
            } else {
                LoadStep::Reject(Rejection::UnknownExtension)
            }
        },
    }
}

/// Decides on a program from its size and load address: it runs where it
/// ends below 64 KiB, and is too large otherwise.
pub fn load_prg(size: u64, start: u16) -> (r: Result<Runner, Rejection>)
    ensures
        r == if fits_memory(size, start) {
            Ok::<Runner, Rejection>(Runner::Prg)
        } else {
            Err(Rejection::TooLarge)
        },
{
    if size < 65536 && size + (start as u64) < 65536 {
        Ok(Runner::Prg)
    } else {
        Err(Rejection::TooLarge)
    }
}

/// Builds the path that mounts an image on `device`, from the lower-case
/// extension of the image's name.
pub fn mount_endpoint(device: &str, ext: Option<&str>) -> (r: Result<String, Rejection>)
    ensures
        match mount_target(
            device@,
            match ext {
                Some(e) => Some(e@),
                None => None,
            },
        ) {
            Ok(p) => r matches Ok(path) && path@ == p,
            Err(why) => r == Err::<String, Rejection>(why),
        },
{
    match ext {
        None => Err(Rejection::UnknownImage),
        Some(e) => {
            if same_text(e, "d64") || same_text(e, "g64") || same_text(e, "d71") || same_text(
                e,
                "g71",
            ) || same_text(e, "d81") {
                let mut path = String::from_str("/v1/drives/");
                path.append(device);
                path.append("mount?type=");
                path.append(e);
                assert(path@ =~= mount_path(device@, e@));
                Ok(path)
            } else {
                Err(Rejection::UnknownImage)
            }
        },
    }
}

/// The text shown when a request to `endpoint` failed on the way.
pub open spec fn request_failure_text(endpoint: Seq<char>) -> Seq<char> {
    "C64 Ultimate web request fail: "@ + endpoint
}

/// The text to show when a request to `endpoint` failed on the way.
pub fn request_failure(endpoint: &str) -> (m: String)
    ensures
        m@ == request_failure_text(endpoint@),
{
    let mut m = String::from_str("C64 Ultimate web request fail: ");
    m.append(endpoint);
    m
}

/// One IEC device as the drives report gives it.
pub struct Device {
    pub enabled: bool,
    pub bus_id: u8,
    /// Not every device has a type.
    pub device_type: Option<String>,
    pub rom: Option<String>,
    pub image_file: Option<String>,
    pub image_path: Option<String>,
}

/// One entry of the drives report: devices by their slot.
pub struct DriveEntry {
    pub devices: HashMap<String, Device>,
}

/// The drives report.
pub struct UltiDrives {
    pub drives: Vec<DriveEntry>,
}

/// A C64 Ultimate reached through its network service. The device must
/// have its web remote control service and its ident service switched on.
pub struct C64Ultimate {
    service_ip: Option<String>,
}

impl C64Ultimate {
    /// The address of the device, where one is known.
    pub closed spec fn address(&self) -> Option<String> {
        self.service_ip
    }

    /// A configured address is taken as it is, and `detected` is then not
    /// looked at; without one, the device is where discovery found it, if
    /// it found one.
    pub fn new(configured: Option<String>, detected: Option<String>) -> (u: Self)
        ensures
            u.address() == match configured {
                Some(ip) => Some(ip),
                None => detected,
            },
    {
        match configured {
            Some(v) => C64Ultimate { service_ip: Some(v) },
            None => C64Ultimate { service_ip: detected },
        }
    }

    /// The address of the device, or nothing where none was found.
    pub fn ip(&self) -> (ip: &Option<String>)
        ensures
            *ip == self.address(),
    {
        &self.service_ip
    }

    /// The URL of a service of the device, where the device's address is
    /// known.
    pub fn url(&self, endpoint: &str) -> (u: Option<String>)
        ensures
            match self.address() {
                Some(ip) => u matches Some(text) && text@ == url_text(ip@, endpoint@),
                None => u is None,
            },
    {
        match &self.service_ip {
            Some(ip) => {
                let mut req = String::from_str("http://");
                req.append(ip.as_str());
                req.append(endpoint);
                Some(req)
            },
            None => None,
        }
    }

    /// Decides the first step of loading a file from its name: the name is
    /// put in lower case and its extension looked at. PRG, CRT, SID and MOD
    /// files are taken.
    pub fn load(&self, filenm: &String) -> (step: LoadStep)
        ensures
            step == first_step(extension_of(lowercase_of(filenm@))),
    {
        let lcase = lowercase(filenm.as_str());
        match extension(lcase.as_str()) {
            Some(e) => load_step(Some(e.as_str())),
            None => load_step(None),
        }
    }

    /// Builds the path that mounts a disk image on floppy `device`. The
    /// image's name, put in lower case, must end in one of the extensions
    /// of a disk image, by which the device picks the drive type.
    pub fn mount(&self, device: &String, dimage: &String) -> (r: Result<String, Rejection>)
        ensures
            match mount_target(device@, extension_of(lowercase_of(dimage@))) {
                Ok(p) => r matches Ok(path) && path@ == p,
                Err(why) => r == Err::<String, Rejection>(why),
            },
    {
        let lcase = lowercase(dimage.as_str());
        match extension(lcase.as_str()) {
            Some(e) => mount_endpoint(device.as_str(), Some(e.as_str())),
            None => mount_endpoint(device.as_str(), None),
        }
    }

    /// The address that a probe found: that of the sender of a valid
    /// banner. Every other outcome is "not found".
    pub fn detect(probe: Probe) -> (ip: Option<String>)
        ensures
            match probe {
                Probe::Reply { payload, sender } => if payload_version(payload@) is Some {
                    ip == Some(sender)
                } else {
                    ip is None
                },
                _ => ip is None,
            },
    {
        judge(probe).address()
    }
}

} // verus!
