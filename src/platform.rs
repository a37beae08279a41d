use vstd::prelude::*;
use vstd::string::StringExecFns;

verus! {

/// The operating-system family of the host.
#[derive(Clone, Copy, Debug, PartialEq, Eq, Structural)]
pub enum HostOs {
    MacOs,
    Linux,
    Windows,
    Other,
}

/// The vendor's platform tag, as it appears in archive names.
#[derive(Clone, Copy, Debug, PartialEq, Eq, Structural)]
pub enum PlatformTag {
    MacX64,
    MacArm64,
    Win32,
    Win64,
    Linux64,
    Unknown,
}

/// The resolved host: its system family and its platform tag.
#[derive(Clone, Copy, Debug, PartialEq, Eq, Structural)]
pub struct Platform {
    pub os: HostOs,
    pub tag: PlatformTag,
}

/// Host family named by an OS name as Rust reports it (`std::env::consts::OS`).
pub open spec fn os_of(os: Seq<char>) -> HostOs {
    if os == "macos"@ {
        HostOs::MacOs
    } else if os == "linux"@ {
        HostOs::Linux
    } else if os == "windows"@ {
        HostOs::Windows
    } else {
        HostOs::Other
    }
}

/// Platform tag of an OS name and a CPU architecture name, as Rust reports them.
pub open spec fn tag_of(os: Seq<char>, arch: Seq<char>) -> PlatformTag {
    if os == "macos"@ && arch == "x86_64"@ {
        PlatformTag::MacX64
    } else if os == "macos"@ && arch == "aarch64"@ {
        PlatformTag::MacArm64
    } else if os == "windows"@ && arch == "x86"@ {
        PlatformTag::Win32
    } else if os == "windows"@ && arch == "x86_64"@ {
        PlatformTag::Win64
    } else if os == "linux"@ && arch == "x86_64"@ {
        PlatformTag::Linux64
    } else {
        PlatformTag::Unknown
    }
}

/// The text of a platform tag; empty for an unknown platform.
pub open spec fn tag_text(t: PlatformTag) -> Seq<char> {
    match t {
        PlatformTag::MacX64 => "mac-x64"@,
        PlatformTag::MacArm64 => "mac-arm64"@,
        PlatformTag::Win32 => "win32"@,
        PlatformTag::Win64 => "win64"@,
        PlatformTag::Linux64 => "linux64"@,
        PlatformTag::Unknown => Seq::empty(),
    }
}

/// Default install path of the driver on a host family; empty where there is none.
pub open spec fn default_driver_path_of(os: HostOs) -> Seq<char> {
    match os {
        HostOs::MacOs => "/usr/local/bin/chromedriver"@,
        HostOs::Linux => "/usr/bin/chromedriver"@,
        _ => Seq::empty(),
    }
}

/// Default path of the browser executable on a host family; empty where there is none.
pub open spec fn default_browser_path_of(os: HostOs) -> Seq<char> {
    match os {
        HostOs::MacOs => "/Applications/Google Chrome.app/Contents/MacOS/Google Chrome"@,
        HostOs::Linux => "/usr/bin/google-chrome"@,
        _ => Seq::empty(),
    }
}

/// Permission bits of an installed driver: `rwxr-xr-x` on POSIX hosts, none on Windows.
pub open spec fn executable_mode_of(os: HostOs) -> Option<u32> {
    if os == HostOs::Windows {
        None
    } else {
        Some(DRIVER_FILE_MODE)
    }
}

/// `rwxr-xr-x`: the mode an installed driver gets on a POSIX host.
pub const DRIVER_FILE_MODE: u32 = 0o755;

/// Text equality of two string slices.
pub fn str_eq(a: &str, b: &str) -> (r: bool)
    ensures
        r == (a@ == b@),
{
    String::from_str(a) == String::from_str(b)
}

impl HostOs {
    /// The host family of an OS name such as `"macos"`, `"linux"` or `"windows"`.
    pub fn from_name(os: &str) -> (r: HostOs)
        ensures
            r == os_of(os@),
    {
        if str_eq(os, "macos") {
            HostOs::MacOs
        } else if str_eq(os, "linux") {
            HostOs::Linux
        } else if str_eq(os, "windows") {
            HostOs::Windows
        } else {
            HostOs::Other
        }
    }

    /// Whether the host belongs to the Windows family.
    pub fn is_windows(&self) -> (r: bool)
        ensures
            r == (*self == HostOs::Windows),
    {
        match self {
            HostOs::Windows => true,
            _ => false,
        }
    }
}

impl PlatformTag {
    /// The platform tag of an OS name and an architecture name.
    pub fn resolve(os: &str, arch: &str) -> (r: PlatformTag)
        ensures
            r == tag_of(os@, arch@),
    {
        let mac = str_eq(os, "macos");
        let win = str_eq(os, "windows");
        let linux = str_eq(os, "linux");
        let x64 = str_eq(arch, "x86_64");
        if mac && x64 {
            PlatformTag::MacX64
        } else if mac && str_eq(arch, "aarch64") {
            PlatformTag::MacArm64
        } else if win && str_eq(arch, "x86") {
            PlatformTag::Win32
        } else if win && x64 {
            PlatformTag::Win64
        } else if linux && x64 {
            PlatformTag::Linux64
        } else {
            PlatformTag::Unknown
        }
    }

    /// The tag as the vendor writes it, such as `"mac-arm64"`.
    pub fn as_string(&self) -> (r: String)
        ensures
            r@ == tag_text(*self),
    {
        match self {
            PlatformTag::MacX64 => String::from_str("mac-x64"),
            PlatformTag::MacArm64 => String::from_str("mac-arm64"),
            PlatformTag::Win32 => String::from_str("win32"),
            PlatformTag::Win64 => String::from_str("win64"),
            PlatformTag::Linux64 => String::from_str("linux64"),
            PlatformTag::Unknown => String::new(),
        }
    }
}

impl Platform {
    /// Resolves the host from an OS name and an architecture name.
    pub fn resolve(os: &str, arch: &str) -> (r: Platform)
        ensures
            r.os == os_of(os@),
            r.tag == tag_of(os@, arch@),
    {
        Platform { os: HostOs::from_name(os), tag: PlatformTag::resolve(os, arch) }
    }

    /// Default install path of the driver on this host.
    pub fn default_driver_path(&self) -> (r: String)
        ensures
            r@ == default_driver_path_of(self.os),
    {
        match self.os {
            HostOs::MacOs => String::from_str("/usr/local/bin/chromedriver"),
            HostOs::Linux => String::from_str("/usr/bin/chromedriver"),
            _ => String::new(),
        }
    }

    /// The permission bits to give an installed driver on this host.
    pub fn executable_mode(&self) -> (r: Option<u32>)
        ensures
            r == executable_mode_of(self.os),
    {
        if self.os.is_windows() {
            None
        } else {
            Some(DRIVER_FILE_MODE)
        }
    }

    /// Default path of the browser executable on this host.
    pub fn default_browser_path(&self) -> (r: String)
        ensures
            r@ == default_browser_path_of(self.os),
    {
        match self.os {
            HostOs::MacOs => String::from_str(
                "/Applications/Google Chrome.app/Contents/MacOS/Google Chrome",
            ),
            HostOs::Linux => String::from_str("/usr/bin/google-chrome"),
            _ => String::new(),
        }
    }
}

} // verus!
