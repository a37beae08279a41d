//! Keeps a locally installed chromedriver in step with the installed Chrome browser.
//!
//! The library holds the decisions of an update run: which platform the host is,
//! which version each binary reports, whether the versions differ, where the
//! matching driver archive lives, and which entry of that archive is the driver.
//! Spawning processes, the HTTP download and writing the file are done by the caller.

pub mod platform;
pub mod error;
pub mod version;
pub mod locator;
pub mod archive;
pub mod driver;
pub mod config;
