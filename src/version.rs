use vstd::prelude::*;

use crate::error::DriverError;

verus! {

/// A decimal digit: a character of Unicode's general category Decimal_Number
/// (Nd), the class that `\d` stands for in the regex crate's Unicode mode.
pub open spec fn is_digit(c: char) -> bool {
    ||| ('\u{30}' <= c && c <= '\u{39}')
    ||| ('\u{660}' <= c && c <= '\u{669}')
    ||| ('\u{6f0}' <= c && c <= '\u{6f9}')
    ||| ('\u{7c0}' <= c && c <= '\u{7c9}')
    ||| ('\u{966}' <= c && c <= '\u{96f}')
    ||| ('\u{9e6}' <= c && c <= '\u{9ef}')
    ||| ('\u{a66}' <= c && c <= '\u{a6f}')
    ||| ('\u{ae6}' <= c && c <= '\u{aef}')
    ||| ('\u{b66}' <= c && c <= '\u{b6f}')
    ||| ('\u{be6}' <= c && c <= '\u{bef}')
    ||| ('\u{c66}' <= c && c <= '\u{c6f}')
    ||| ('\u{ce6}' <= c && c <= '\u{cef}')
    ||| ('\u{d66}' <= c && c <= '\u{d6f}')
    ||| ('\u{de6}' <= c && c <= '\u{def}')
    ||| ('\u{e50}' <= c && c <= '\u{e59}')
    ||| ('\u{ed0}' <= c && c <= '\u{ed9}')
    ||| ('\u{f20}' <= c && c <= '\u{f29}')
    ||| ('\u{1040}' <= c && c <= '\u{1049}')
    ||| ('\u{1090}' <= c && c <= '\u{1099}')
    ||| ('\u{17e0}' <= c && c <= '\u{17e9}')
    ||| ('\u{1810}' <= c && c <= '\u{1819}')
    ||| ('\u{1946}' <= c && c <= '\u{194f}')
    ||| ('\u{19d0}' <= c && c <= '\u{19d9}')
    ||| ('\u{1a80}' <= c && c <= '\u{1a89}')
    ||| ('\u{1a90}' <= c && c <= '\u{1a99}')
    ||| ('\u{1b50}' <= c && c <= '\u{1b59}')
    ||| ('\u{1bb0}' <= c && c <= '\u{1bb9}')
    ||| ('\u{1c40}' <= c && c <= '\u{1c49}')
    ||| ('\u{1c50}' <= c && c <= '\u{1c59}')
    ||| ('\u{a620}' <= c && c <= '\u{a629}')
    ||| ('\u{a8d0}' <= c && c <= '\u{a8d9}')
    ||| ('\u{a900}' <= c && c <= '\u{a909}')
    ||| ('\u{a9d0}' <= c && c <= '\u{a9d9}')
    ||| ('\u{a9f0}' <= c && c <= '\u{a9f9}')
    ||| ('\u{aa50}' <= c && c <= '\u{aa59}')
    ||| ('\u{abf0}' <= c && c <= '\u{abf9}')
    ||| ('\u{ff10}' <= c && c <= '\u{ff19}')
    ||| ('\u{104a0}' <= c && c <= '\u{104a9}')
    ||| ('\u{10d30}' <= c && c <= '\u{10d39}')
    ||| ('\u{10d40}' <= c && c <= '\u{10d49}')
    ||| ('\u{11066}' <= c && c <= '\u{1106f}')
    ||| ('\u{110f0}' <= c && c <= '\u{110f9}')
    ||| ('\u{11136}' <= c && c <= '\u{1113f}')
    ||| ('\u{111d0}' <= c && c <= '\u{111d9}')
    ||| ('\u{112f0}' <= c && c <= '\u{112f9}')
    ||| ('\u{11450}' <= c && c <= '\u{11459}')
    ||| ('\u{114d0}' <= c && c <= '\u{114d9}')
    ||| ('\u{11650}' <= c && c <= '\u{11659}')
    ||| ('\u{116c0}' <= c && c <= '\u{116c9}')
    ||| ('\u{116d0}' <= c && c <= '\u{116e3}')
    ||| ('\u{11730}' <= c && c <= '\u{11739}')
    ||| ('\u{118e0}' <= c && c <= '\u{118e9}')
    ||| ('\u{11950}' <= c && c <= '\u{11959}')
    ||| ('\u{11bf0}' <= c && c <= '\u{11bf9}')
    ||| ('\u{11c50}' <= c && c <= '\u{11c59}')
    ||| ('\u{11d50}' <= c && c <= '\u{11d59}')
    ||| ('\u{11da0}' <= c && c <= '\u{11da9}')
    ||| ('\u{11f50}' <= c && c <= '\u{11f59}')
    ||| ('\u{16130}' <= c && c <= '\u{16139}')
    ||| ('\u{16a60}' <= c && c <= '\u{16a69}')
    ||| ('\u{16ac0}' <= c && c <= '\u{16ac9}')
    ||| ('\u{16b50}' <= c && c <= '\u{16b59}')
    ||| ('\u{16d70}' <= c && c <= '\u{16d79}')
    ||| ('\u{1ccf0}' <= c && c <= '\u{1ccf9}')
    ||| ('\u{1d7ce}' <= c && c <= '\u{1d7ff}')
    ||| ('\u{1e140}' <= c && c <= '\u{1e149}')
    ||| ('\u{1e2f0}' <= c && c <= '\u{1e2f9}')
    ||| ('\u{1e4f0}' <= c && c <= '\u{1e4f9}')
    ||| ('\u{1e5f1}' <= c && c <= '\u{1e5fa}')
    ||| ('\u{1e950}' <= c && c <= '\u{1e959}')
    ||| ('\u{1fbf0}' <= c && c <= '\u{1fbf9}')
}

/// End of the run of digits that starts at `i`: the first position at or after
/// `i` that holds no digit, or the length of `s`.
pub open spec fn run_end(s: Seq<char>, i: int) -> int
    decreases s.len() - i,
{
    if 0 <= i < s.len() && is_digit(s[i]) {
        run_end(s, i + 1)
    } else {
        i
    }
}

/// Where a non-empty run of digits that starts at `i` and is followed by a dot
/// ends, that is where the dot stands.
pub open spec fn dotted_group_at(s: Seq<char>, i: int) -> bool {
    run_end(s, i) > i && run_end(s, i) < s.len() && s[run_end(s, i)] == '.'
}

/// `s` holds a version at `i`: three digit groups each closed by a dot, then
/// one more group of digits.
pub open spec fn version_at(s: Seq<char>, i: int) -> bool {
    let e1 = run_end(s, i);
    let e2 = run_end(s, e1 + 1);
    let e3 = run_end(s, e2 + 1);
    &&& 0 <= i
    &&& dotted_group_at(s, i)
    &&& dotted_group_at(s, e1 + 1)
    &&& dotted_group_at(s, e2 + 1)
    &&& run_end(s, e3 + 1) > e3 + 1
}

/// Where the version at `i` ends: after the longest run of digits of its last group.
pub open spec fn version_end(s: Seq<char>, i: int) -> int {
    let e1 = run_end(s, i);
    let e2 = run_end(s, e1 + 1);
    let e3 = run_end(s, e2 + 1);
    run_end(s, e3 + 1)
}

/// The first position at or after `i` where a version starts.
pub open spec fn first_version_from(s: Seq<char>, i: int) -> Option<int>
    decreases s.len() + 1 - i,
{
    if i < 0 || i > s.len() {
        None
    } else if version_at(s, i) {
        Some(i)
    } else {
        first_version_from(s, i + 1)
    }
}

/// The leftmost match of `\d+\.\d+\.\d+\.\d+` in `s`, each group as
/// long as it runs.
pub open spec fn first_version(s: Seq<char>) -> Option<Seq<char>> {
    match first_version_from(s, 0) {
        Some(i) => Some(s.subrange(i, version_end(s, i))),
        None => None,
    }
}

/// Where the search for a version from `k` lands, nothing between `k` and that
/// place holds one; where it finds none, nothing from `k` on does.
proof fn lemma_first_version_from(s: Seq<char>, k: int)
    requires
        0 <= k,
    ensures
        match first_version_from(s, k) {
            Some(i) => k <= i && version_at(s, i) && forall|j: int|
                k <= j < i ==> !#[trigger] version_at(s, j),
            None => forall|j: int| k <= j ==> !#[trigger] version_at(s, j),
        },
    decreases s.len() + 1 - k,
{
    if k > s.len() {
        assert forall|j: int| k <= j implies !#[trigger] version_at(s, j) by {
            assert(run_end(s, j) == j);
        }
    } else if !version_at(s, k) {
        lemma_first_version_from(s, k + 1);
    }
}

/// The version found in a text is its leftmost one: it stands at some place
/// `i`, runs to the end of its last digit group, and no version starts before
/// `i`. A text with no version anywhere gives none.
pub proof fn lemma_first_version_is_leftmost(s: Seq<char>)
    ensures
        match first_version(s) {
            Some(v) => exists|i: int|
                #![trigger version_at(s, i)]
                {
                    &&& version_at(s, i)
                    &&& v == s.subrange(i, version_end(s, i))
                    &&& forall|j: int| 0 <= j < i ==> !#[trigger] version_at(s, j)
                },
            None => forall|j: int| !#[trigger] version_at(s, j),
        },
{
    lemma_first_version_from(s, 0);
    match first_version_from(s, 0) {
        Some(i) => {
            assert(version_at(s, i));
        },
        None => {
            assert forall|j: int| !#[trigger] version_at(s, j) by {
                if j >= 0 {
                } else {
                    assert(!version_at(s, j));
                }
            }
        },
    }
}

/// What `String::from_utf8_lossy` makes of a byte sequence.
pub uninterp spec fn lossy_text_of(b: Seq<u8>) -> Seq<char>;

/// Relies on `regex::Regex::new` and `regex::Regex::find`: the leftmost-first
/// match of the pattern, where `\d` is any Unicode decimal digit.
#[verifier::external_body]
fn find_version(text: &str) -> (r: Option<String>)
    ensures
        match r {
            Some(v) => first_version(text@) == Some(v@),
            None => first_version(text@) is None,
        },
{
    let re = regex::Regex::new(r"\d+\.\d+\.\d+\.\d+").ok()?;
    let m = re.find(text)?;
    Some(m.as_str().to_string())
}

/// Relies on `String::from_utf8_lossy`: the text of the bytes, with each invalid
/// sequence replaced.
#[verifier::external_body]
fn lossy_text(bytes: &[u8]) -> (r: String)
    ensures
        r@ == lossy_text_of(bytes@),
{
    String::from_utf8_lossy(bytes).into_owned()
}

/// The version that `text` reports: the first dotted four-part number in it,
/// whatever surrounds it.
pub fn extract_version(text: &str) -> (r: Result<String, DriverError>)
    ensures
        match first_version(text@) {
            Some(v) => r is Ok && r->Ok_0@ == v,
            None => r == Err::<String, DriverError>(DriverError::VersionNotParsable),
        },
{
    match find_version(text) {
        Some(v) => Ok(v),
        None => Err(DriverError::VersionNotParsable),
    }
}

/// The version in what a version query wrote to its standard output.
pub fn get_version_from_output(stdout: &[u8]) -> (r: Result<String, DriverError>)
    ensures
        match first_version(lossy_text_of(stdout@)) {
            Some(v) => r is Ok && r->Ok_0@ == v,
            None => r == Err::<String, DriverError>(DriverError::VersionNotParsable),
        },
{
    let text = lossy_text(stdout);
    extract_version(text.as_str())
}

} // verus!
