use vstd::prelude::*;
use vstd::string::StringExecFns;

verus! {

/// Settings of an update run, as a configuration file gives them.
pub struct Config {
    pub driver: Driver,
    pub browser: Browser,
}

/// Settings of the driver and of its download.
pub struct Driver {
    pub path: String,
    pub connect_timeout: u64,
    pub timeout: u64,
}

/// Settings of the browser.
pub struct Browser {
    pub path: String,
}

impl Config {
    /// The settings used where a configuration file leaves them out.
    pub fn default_value() -> (r: Self)
        ensures
            r.driver.path@ == Driver::default_path(),
            r.driver.connect_timeout == 5000,
            r.driver.timeout == 10000,
            r.browser.path@ == Browser::default_path(),
    {
        Config { driver: Driver::default_value(), browser: Browser::default_value() }
    }
}

impl Driver {
    pub open spec fn default_path() -> Seq<char> {
        "/usr/local/bin/chromedriver"@
    }

    /// The driver settings used where a configuration file leaves them out.
    pub fn default_value() -> (r: Self)
        ensures
            r.path@ == Self::default_path(),
            r.connect_timeout == 5000,
            r.timeout == 10000,
    {
        Driver {
            path: String::from_str("/usr/local/bin/chromedriver"),
            connect_timeout: 5000,
            timeout: 10000,
        }
    }
}

impl Browser {
    pub open spec fn default_path() -> Seq<char> {
        "/Applications/Google Chrome.app/Contents/MacOS/Google Chrome"@
    }

    /// The browser settings used where a configuration file leaves them out.
    pub fn default_value() -> (r: Self)
        ensures
            r.path@ == Self::default_path(),
    {
        Browser { path: String::from_str("/Applications/Google Chrome.app/Contents/MacOS/Google Chrome") }
    }
}

} // verus!
