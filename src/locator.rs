use vstd::prelude::*;
use vstd::string::StringExecFns;

use crate::platform::{tag_text, HostOs, Platform};

verus! {

/// The address of the vendor's archive of a driver version for a platform tag.
pub open spec fn archive_url_of(version: Seq<char>, tag: Seq<char>) -> Seq<char> {
    "https://storage.googleapis.com/chrome-for-testing-public/"@ + version + "/"@ + tag
        + "/chromedriver-"@ + tag + ".zip"@
}

/// The path of the driver binary inside that archive.
pub open spec fn archive_entry_path_of(platform: Platform) -> Seq<char> {
    "chromedriver-"@ + tag_text(platform.tag) + "/chromedriver"@ + if platform.os
        == HostOs::Windows {
        ".exe"@
    } else {
        Seq::empty()
    }
}

/// Builds the archive address for a browser version on a platform.
pub fn archive_url(version: &str, platform: &Platform) -> (r: String)
    ensures
        r@ == archive_url_of(version@, tag_text(platform.tag)),
{
    let tag = platform.tag.as_string();
    let mut url = String::from_str("https://storage.googleapis.com/chrome-for-testing-public/");
    url.append(version);
    url.append("/");
    url.append(tag.as_str());
    url.append("/chromedriver-");
    url.append(tag.as_str());
    url.append(".zip");
    url
}

/// Builds the path of the driver binary inside the archive for a platform.
pub fn archive_entry_path(platform: &Platform) -> (r: String)
    ensures
        r@ == archive_entry_path_of(*platform),
{
    let tag = platform.tag.as_string();
    let mut path = String::from_str("chromedriver-");
    path.append(tag.as_str());
    path.append("/chromedriver");
    if platform.os.is_windows() {
        path.append(".exe");
    }
    path
}

} // verus!
