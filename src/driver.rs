use vstd::prelude::*;
use vstd::string::StringExecFns;

use crate::archive::{extracted_from, unpack_driver, zip_contents_of, zip_names_of};
use crate::error::DriverError;
use crate::locator::{archive_entry_path, archive_entry_path_of, archive_url, archive_url_of};
use crate::platform::{
    default_browser_path_of, default_driver_path_of, executable_mode_of, tag_text, HostOs,
    Platform, PlatformTag,
};
use crate::version::{first_version, get_version_from_output, lossy_text_of};

verus! {

/// Connect timeout of the download, in milliseconds, unless set otherwise.
pub const CONNECT_TIMEOUT: u64 = 5000;

/// Overall timeout of the download, in milliseconds, unless set otherwise.
pub const TIMEOUT: u64 = 10000;

/// A program to run, with its arguments, to learn the version of a binary.
pub struct VersionQuery {
    pub program: String,
    pub args: Vec<String>,
    /// Whether output counts only from a run that exits successfully.
    pub must_succeed: bool,
}

impl VersionQuery {
    /// The output that counts from a run of this query: `ran` is `None` where
    /// the program could not be spawned, else whether it exited successfully
    /// and what it wrote to standard output.
    pub fn output_of(&self, ran: Option<(bool, Vec<u8>)>) -> (r: Option<Vec<u8>>)
        ensures
            match ran {
                None => r is None,
                Some((ok, out)) => if self.must_succeed && !ok {
                    r is None
                } else {
                    r == Some(out)
                },
            },
    {
        match ran {
            None => None,
            Some((ok, out)) => if self.must_succeed && !ok {
                None
            } else {
                Some(out)
            },
        }
    }
}

/// One download attempt: where the archive is, how to fetch it, and which
/// entry of it is the driver.
pub struct DownloadSession {
    pub tag: PlatformTag,
    pub browser_version: String,
    pub url: String,
    pub entry_path: String,
    pub connect_timeout: u64,
    pub timeout: u64,
    pub accept_invalid_certs: bool,
}

/// What a run does once both versions are known.
pub enum Plan {
    /// The driver already matches the browser: nothing is fetched.
    UpToDate,
    /// The driver differs from the browser: fetch and install.
    Download(DownloadSession),
}

/// A driver binary ready to be written: where, what, and with which mode.
pub struct Install {
    pub path: String,
    pub contents: Vec<u8>,
    pub mode: Option<u32>,
}

/// The chromedriver of a host, its configuration, and the versions read from
/// the driver and the browser.
pub struct ChromeDriver {
    /// Chrome driver version; empty while none is known.
    pub version: String,
    /// Chrome browser version; empty while none is known.
    pub browser_version: String,
    /// Install path of the driver.
    pub path: String,
    /// Path of the browser executable.
    pub browser_path: String,
    /// Connect timeout of the download, in milliseconds.
    pub connect_timeout: u64,
    /// Overall timeout of the download, in milliseconds.
    pub timeout: u64,
    /// Whether the download accepts TLS certificates that do not verify.
    pub accept_invalid_certs: bool,
    /// The host the driver is for.
    pub platform: Platform,
}

/// The PowerShell expression that reads the product version of an executable.
pub open spec fn product_version_expr(path: Seq<char>) -> Seq<char> {
    "(Get-Item (Get-Command '"@ + path + "').Source).VersionInfo.ProductVersion"@
}

/// The driver version that a query's output gives: the version in it, or empty
/// where the query could not run or printed none.
pub open spec fn driver_version_of(output: Option<Seq<u8>>) -> Seq<char> {
    match output {
        Some(out) => match first_version(lossy_text_of(out)) {
            Some(v) => v,
            None => Seq::empty(),
        },
        None => Seq::empty(),
    }
}

/// Which error a failed download is: one that was still connecting when the
/// time ran out, one that timed out later, or another.
pub open spec fn fetch_error_of(is_connect: bool, is_timeout: bool) -> DriverError {
    if is_timeout && is_connect {
        DriverError::ConnectTimeout
    } else if is_timeout {
        DriverError::RequestTimeout
    } else {
        DriverError::TransportError
    }
}

/// Classifies a failed download from what the HTTP client reports of it.
pub fn fetch_error(is_connect: bool, is_timeout: bool) -> (r: DriverError)
    ensures
        r == fetch_error_of(is_connect, is_timeout),
{
    if is_timeout && is_connect {
        DriverError::ConnectTimeout
    } else if is_timeout {
        DriverError::RequestTimeout
    } else {
        DriverError::TransportError
    }
}

/// What a `ChromeDriver` holds, as plain values.
pub struct DriverView {
    pub version: Seq<char>,
    pub browser_version: Seq<char>,
    pub path: Seq<char>,
    pub browser_path: Seq<char>,
    pub connect_timeout: u64,
    pub timeout: u64,
    pub accept_invalid_certs: bool,
    pub platform: Platform,
}

impl View for ChromeDriver {
    type V = DriverView;

    open spec fn view(&self) -> DriverView {
        DriverView {
            version: self.version@,
            browser_version: self.browser_version@,
            path: self.path@,
            browser_path: self.browser_path@,
            connect_timeout: self.connect_timeout,
            timeout: self.timeout,
            accept_invalid_certs: self.accept_invalid_certs,
            platform: self.platform,
        }
    }
}

impl DriverView {
    /// Whether the driver differs from the browser.
    pub open spec fn needs_download(self) -> bool {
        self.version != self.browser_version
    }

    /// The archive address a run fetches, if it fetches one.
    pub open spec fn planned_url(self) -> Option<Seq<char>> {
        if self.needs_download() {
            Some(archive_url_of(self.browser_version, tag_text(self.platform.tag)))
        } else {
            None
        }
    }
}

impl ChromeDriver {
    /// A driver for the given host, with the host's default paths, the default
    /// timeouts, certificate checks on, and no version known yet.
    pub fn new(platform: Platform) -> (r: Self)
        ensures
            r@ == (DriverView {
                version: Seq::empty(),
                browser_version: Seq::empty(),
                path: default_driver_path_of(platform.os),
                browser_path: default_browser_path_of(platform.os),
                connect_timeout: CONNECT_TIMEOUT,
                timeout: TIMEOUT,
                accept_invalid_certs: false,
                platform,
            }),
    {
        ChromeDriver {
            version: String::new(),
            browser_version: String::new(),
            path: platform.default_driver_path(),
            browser_path: platform.default_browser_path(),
            connect_timeout: CONNECT_TIMEOUT,
            timeout: TIMEOUT,
            accept_invalid_certs: false,
            platform,
        }
    }

    /// Sets the install path of the driver.
    pub fn set_driver_path(&mut self, path: &str) -> (r: &mut Self)
        ensures
            r@ == (DriverView { path: path@, ..old(self)@ }),
            final(self)@ == final(r)@,
    {
        self.path = String::from_str(path);
        self
    }

    /// Sets the path of the browser executable.
    pub fn set_browser_path(&mut self, path: &str) -> (r: &mut Self)
        ensures
            r@ == (DriverView { browser_path: path@, ..old(self)@ }),
            final(self)@ == final(r)@,
    {
        self.browser_path = String::from_str(path);
        self
    }

    /// Sets the connect timeout of the download, in milliseconds.
    pub fn set_connect_timeout(&mut self, timeout: u64) -> (r: &mut Self)
        ensures
            r@ == (DriverView { connect_timeout: timeout, ..old(self)@ }),
            final(self)@ == final(r)@,
    {
        self.connect_timeout = timeout;
        self
    }

    /// Sets the overall timeout of the download, in milliseconds.
    pub fn set_timeout(&mut self, timeout: u64) -> (r: &mut Self)
        ensures
            r@ == (DriverView { timeout: timeout, ..old(self)@ }),
            final(self)@ == final(r)@,
    {
        self.timeout = timeout;
        self
    }

    /// Sets whether the download accepts TLS certificates that do not verify.
    /// Off unless set: the archive host is then checked like any other.
    pub fn set_accept_invalid_certs(&mut self, accept: bool) -> (r: &mut Self)
        ensures
            r@ == (DriverView { accept_invalid_certs: accept, ..old(self)@ }),
            final(self)@ == final(r)@,
    {
        self.accept_invalid_certs = accept;
        self
    }

    /// How to ask the driver for its version: `<path> --version`.
    pub fn driver_version_query(&self) -> (r: VersionQuery)
        ensures
            r.program@ == self@.path,
            r.args@.len() == 1,
            r.args@[0]@ == "--version"@,
            !r.must_succeed,
    {
        let mut args: Vec<String> = Vec::new();
        args.push(String::from_str("--version"));
        VersionQuery { program: self.path.clone(), args, must_succeed: false }
    }

    /// How to ask the browser for its version: `<path> --version` on POSIX
    /// hosts; on Windows, whose GUI executables ignore that flag, a PowerShell
    /// query of the executable's product version.
    pub fn browser_version_query(&self) -> (r: VersionQuery)
        ensures
            self@.platform.os != HostOs::Windows ==> r.program@ == self@.browser_path
                && r.args@.len() == 1 && r.args@[0]@ == "--version"@ && !r.must_succeed,
            self@.platform.os == HostOs::Windows ==> r.program@ == "powershell"@
                && r.args@.len() == 2 && r.args@[0]@ == "-Command"@ && r.args@[1]@
                == product_version_expr(self@.browser_path) && r.must_succeed,
    {
        let mut args: Vec<String> = Vec::new();
        if self.platform.os.is_windows() {
            let mut expr = String::from_str("(Get-Item (Get-Command '");
            expr.append(self.browser_path.as_str());
            expr.append("').Source).VersionInfo.ProductVersion");
            args.push(String::from_str("-Command"));
            args.push(expr);
            VersionQuery { program: String::from_str("powershell"), args, must_succeed: true }
        } else {
            args.push(String::from_str("--version"));
            VersionQuery { program: self.browser_path.clone(), args, must_succeed: false }
        }
    }

    /// Takes in what the two version queries printed, `None` for a query that
    /// could not run (or, on Windows, did not succeed). A driver that cannot
    /// tell its version counts as none installed: its version becomes empty.
    /// The browser's version is required: a browser that cannot be run gives
    /// `BrowserNotFound` with its path, one that prints no version gives
    /// `VersionNotParsable`, and the browser version then stays as it was.
    pub fn init(&mut self, driver_output: Option<Vec<u8>>, browser_output: Option<Vec<u8>>) -> (r:
        Result<(), DriverError>)
        ensures
            final(self)@ == (DriverView {
                version: driver_version_of(output_view(driver_output)),
                browser_version: final(self)@.browser_version,
                ..old(self)@
            }),
            match browser_output {
                None => final(self)@.browser_version == old(self)@.browser_version && match r {
                    Err(DriverError::BrowserNotFound(p)) => p@ == old(self)@.browser_path,
                    _ => false,
                },
                Some(out) => match first_version(lossy_text_of(out@)) {
                    Some(v) => r is Ok && final(self)@.browser_version == v,
                    None => final(self)@.browser_version == old(self)@.browser_version && r
                        == Err::<(), DriverError>(DriverError::VersionNotParsable),
                },
            },
    {
        self.version = match driver_output {
            Some(out) => match get_version_from_output(out.as_slice()) {
                Ok(v) => v,
                Err(_) => String::new(),
            },
            None => String::new(),
        };
        match browser_output {
            Some(out) => match get_version_from_output(out.as_slice()) {
                Ok(v) => {
                    self.browser_version = v;
                    Ok(())
                },
                Err(e) => Err(e),
            },
            None => Err(DriverError::BrowserNotFound(self.browser_path.clone())),
        }
    }

    /// Whether the installed driver differs from the browser, compared as text.
    pub fn need_download(&self) -> (r: bool)
        ensures
            r == self@.needs_download(),
    {
        !(self.version == self.browser_version)
    }

    /// Decides the run: nothing to do where the versions are equal (both empty
    /// included), else one download session for the browser's version on this
    /// host's platform.
    pub fn plan(&self) -> (r: Plan)
        ensures
            match r {
                Plan::UpToDate => self@.planned_url() is None,
                Plan::Download(s) => {
                    &&& self@.planned_url() == Some(s.url@)
                    &&& s.tag == self@.platform.tag
                    &&& s.browser_version@ == self@.browser_version
                    &&& s.entry_path@ == archive_entry_path_of(self@.platform)
                    &&& s.connect_timeout == self@.connect_timeout
                    &&& s.timeout == self@.timeout
                    &&& s.accept_invalid_certs == self@.accept_invalid_certs
                },
            },
    {
        if !self.need_download() {
            Plan::UpToDate
        } else {
            Plan::Download(
                DownloadSession {
                    tag: self.platform.tag,
                    browser_version: self.browser_version.clone(),
                    url: archive_url(self.browser_version.as_str(), &self.platform),
                    entry_path: archive_entry_path(&self.platform),
                    connect_timeout: self.connect_timeout,
                    timeout: self.timeout,
                    accept_invalid_certs: self.accept_invalid_certs,
                },
            )
        }
    }

    /// Turns what the download of the archive gave into the driver to write:
    /// the contents of the archive entry stored under exactly this platform's
    /// driver path, for this driver's install path, with the host's executable
    /// mode. A failed download is handed on as it came; nothing is to be
    /// written unless the whole entry was read.
    pub fn try_download(&self, fetched: Result<Vec<u8>, DriverError>) -> (r: Result<
        Install,
        DriverError,
    >)
        ensures
            fetched is Err ==> r == Err::<Install, DriverError>(fetched->Err_0),
            r is Ok ==> {
                &&& r->Ok_0.path@ == self@.path
                &&& r->Ok_0.mode == executable_mode_of(self@.platform.os)
                &&& fetched is Ok
            },
            fetched is Ok && zip_names_of(fetched->Ok_0@) is None ==> r == Err::<
                Install,
                DriverError,
            >(DriverError::ArchiveInvalid),
            fetched is Ok && zip_names_of(fetched->Ok_0@) is Some ==> extracted_from(
                zip_names_of(fetched->Ok_0@)->Some_0,
                zip_contents_of(fetched->Ok_0@),
                archive_entry_path_of(self@.platform),
                match r {
                    Ok(install) => Ok::<Vec<u8>, DriverError>(install.contents),
                    Err(e) => Err(e),
                },
            ),
    {
        match fetched {
            Ok(bytes) => {
                let entry = archive_entry_path(&self.platform);
                match unpack_driver(bytes, entry.as_str()) {
                    Ok(contents) => Ok(
                        Install {
                            path: self.path.clone(),
                            contents,
                            mode: self.platform.executable_mode(),
                        },
                    ),
                    Err(e) => Err(e),
                }
            },
            Err(e) => Err(e),
        }
    }

    /// Records that the driver of the browser's version has been written: the
    /// driver now reports the browser's version.
    pub fn mark_installed(&mut self)
        ensures
            final(self)@ == (DriverView { version: old(self)@.browser_version, ..old(self)@ }),
            !final(self)@.needs_download(),
    {
        self.version = self.browser_version.clone();
    }
}

/// The view of a driver holds the text of its two public version fields.
pub proof fn lemma_view_versions(d: &ChromeDriver)
    ensures
        d@.version == d.version@,
        d@.browser_version == d.browser_version@,
{
}

/// The session that a run plans and the install that follows it agree: the
/// archive address names the platform tag whose driver path the install looks
/// for inside the archive.
pub proof fn lemma_session_and_install_share_tag(d: DriverView)
    requires
        d.needs_download(),
    ensures
        d.planned_url() == Some(archive_url_of(d.browser_version, tag_text(d.platform.tag))),
        archive_entry_path_of(d.platform).subrange(
            0,
            ("chromedriver-"@.len() + tag_text(d.platform.tag).len()) as int,
        ) == "chromedriver-"@ + tag_text(d.platform.tag),
{
    let t = tag_text(d.platform.tag);
    assert(archive_entry_path_of(d.platform).subrange(0, ("chromedriver-"@.len() + t.len()) as int)
        =~= "chromedriver-"@ + t);
}

/// Where the driver's version equals the browser's, both empty included, the
/// run fetches nothing and nothing needs downloading.
pub proof fn lemma_equal_versions_fetch_nothing(d: DriverView)
    requires
        d.version == d.browser_version,
    ensures
        !d.needs_download(),
        d.planned_url() is None,
{
}

/// Where the versions differ, the run fetches exactly one archive, whose address
/// holds the browser's version and the platform tag as they are written.
pub proof fn lemma_differing_versions_fetch_one_url(d: DriverView)
    requires
        d.version != d.browser_version,
    ensures
        d.planned_url() == Some(archive_url_of(d.browser_version, tag_text(d.platform.tag))),
        exists|k: int|
            0 <= k && #[trigger] archive_url_of(d.browser_version, tag_text(d.platform.tag)).subrange(
                k,
                k + d.browser_version.len(),
            ) == d.browser_version,
        exists|k: int|
            0 <= k && #[trigger] archive_url_of(d.browser_version, tag_text(d.platform.tag)).subrange(
                k,
                k + tag_text(d.platform.tag).len(),
            ) == tag_text(d.platform.tag),
{
    let v = d.browser_version;
    let t = tag_text(d.platform.tag);
    let prefix = "https://storage.googleapis.com/chrome-for-testing-public/"@;
    let u = archive_url_of(v, t);
    let k1 = prefix.len() as int;
    let k2 = k1 + v.len() + "/"@.len();
    assert(u.subrange(k1, k1 + v.len()) =~= v);
    assert(u.subrange(k2, k2 + t.len()) =~= t);
}

/// After the driver of the browser's version is recorded as installed, a
/// second decision fetches nothing.
pub proof fn lemma_installed_is_up_to_date(d: DriverView)
    ensures
        (DriverView { version: d.browser_version, ..d }).planned_url() is None,
{
}

/// The bytes of a query's output, where it ran.
pub open spec fn output_view(output: Option<Vec<u8>>) -> Option<Seq<u8>> {
    match output {
        Some(out) => Some(out@),
        None => None,
    }
}

} // verus!
