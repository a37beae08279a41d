use chromedriver_update::locator::{archive_entry_path, archive_url};
use chromedriver_update::platform::{HostOs, Platform, PlatformTag, DRIVER_FILE_MODE};

#[test]
fn resolves_each_platform_tag() {
    assert_eq!(PlatformTag::resolve("macos", "x86_64"), PlatformTag::MacX64);
    assert_eq!(PlatformTag::resolve("macos", "aarch64"), PlatformTag::MacArm64);
    assert_eq!(PlatformTag::resolve("windows", "x86"), PlatformTag::Win32);
    assert_eq!(PlatformTag::resolve("windows", "x86_64"), PlatformTag::Win64);
    assert_eq!(PlatformTag::resolve("linux", "x86_64"), PlatformTag::Linux64);
}

#[test]
fn unknown_host_gives_unknown_tag() {
    assert_eq!(PlatformTag::resolve("linux", "aarch64"), PlatformTag::Unknown);
    assert_eq!(PlatformTag::resolve("freebsd", "x86_64"), PlatformTag::Unknown);
    assert_eq!(PlatformTag::Unknown.as_string(), "");
}

#[test]
fn tag_texts() {
    assert_eq!(PlatformTag::MacX64.as_string(), "mac-x64");
    assert_eq!(PlatformTag::MacArm64.as_string(), "mac-arm64");
    assert_eq!(PlatformTag::Win32.as_string(), "win32");
    assert_eq!(PlatformTag::Win64.as_string(), "win64");
    assert_eq!(PlatformTag::Linux64.as_string(), "linux64");
}

#[test]
fn host_families() {
    assert_eq!(HostOs::from_name("macos"), HostOs::MacOs);
    assert_eq!(HostOs::from_name("linux"), HostOs::Linux);
    assert_eq!(HostOs::from_name("windows"), HostOs::Windows);
    assert_eq!(HostOs::from_name("netbsd"), HostOs::Other);
    assert!(HostOs::Windows.is_windows());
    assert!(!HostOs::Linux.is_windows());
}

#[test]
fn default_paths_per_host() {
    let mac = Platform::resolve("macos", "aarch64");
    assert_eq!(mac.default_driver_path(), "/usr/local/bin/chromedriver");
    assert_eq!(
        mac.default_browser_path(),
        "/Applications/Google Chrome.app/Contents/MacOS/Google Chrome"
    );
    let linux = Platform::resolve("linux", "x86_64");
    assert_eq!(linux.default_driver_path(), "/usr/bin/chromedriver");
    assert_eq!(linux.default_browser_path(), "/usr/bin/google-chrome");
    let win = Platform::resolve("windows", "x86_64");
    assert_eq!(win.default_driver_path(), "");
    assert_eq!(win.default_browser_path(), "");
    let other = Platform::resolve("freebsd", "x86_64");
    assert_eq!(other.default_driver_path(), "");
    assert_eq!(other.tag, PlatformTag::Unknown);
}

#[test]
fn executable_mode_on_posix_only() {
    assert_eq!(DRIVER_FILE_MODE, 0o755);
    assert_eq!(Platform::resolve("linux", "x86_64").executable_mode(), Some(0o755));
    assert_eq!(Platform::resolve("macos", "x86_64").executable_mode(), Some(0o755));
    assert_eq!(Platform::resolve("windows", "x86_64").executable_mode(), None);
}

#[test]
fn archive_url_holds_version_and_tag() {
    let p = Platform::resolve("macos", "aarch64");
    assert_eq!(
        archive_url("120.0.6099.109", &p),
        "https://storage.googleapis.com/chrome-for-testing-public/120.0.6099.109/mac-arm64/chromedriver-mac-arm64.zip"
    );
}

#[test]
fn archive_entry_paths() {
    assert_eq!(
        archive_entry_path(&Platform::resolve("macos", "x86_64")),
        "chromedriver-mac-x64/chromedriver"
    );
    assert_eq!(
        archive_entry_path(&Platform::resolve("linux", "x86_64")),
        "chromedriver-linux64/chromedriver"
    );
    assert_eq!(
        archive_entry_path(&Platform::resolve("windows", "x86_64")),
        "chromedriver-win64/chromedriver.exe"
    );
    assert_eq!(
        archive_entry_path(&Platform::resolve("windows", "x86")),
        "chromedriver-win32/chromedriver.exe"
    );
}
