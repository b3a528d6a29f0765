//! The application's settings.

use vstd::prelude::*;

verus! {

/// Settings read at start-up; each may be absent.
pub struct AppConfig {
    pub api_key: Option<String>,
    pub database_url: Option<String>,
    pub repo_file_path: Option<String>,
}

/// API key used when the settings name none.
pub const DEFAULT_API_KEY: &'static str = "default_api_key";

/// Database used when the settings name none.
pub const DEFAULT_DATABASE_URL: &'static str = "sqlite:dwarfer.db?mode=rwc";

/// Whether `c` has the Unicode `White_Space` property, which `char::is_whitespace`
/// tests: U+0009 to U+000D, U+0020, U+0085, U+00A0, U+1680, U+2000 to U+200A,
/// U+2028, U+2029, U+202F, U+205F and U+3000.
pub open spec fn is_white_space(c: char) -> bool {
    let u = c as u32;
    (0x09 <= u && u <= 0x0d) || u == 0x20 || u == 0x85 || u == 0xa0 || u == 0x1680 || (0x2000 <= u
        && u <= 0x200a) || u == 0x2028 || u == 0x2029 || u == 0x202f || u == 0x205f || u == 0x3000
}

/// `s` without its leading white space.
pub open spec fn trimmed_start(s: Seq<char>) -> Seq<char>
    decreases s.len(),
{
    if s.len() > 0 && is_white_space(s[0]) {
        trimmed_start(s.drop_first())
    } else {
        s
    }
}

/// `s` without its trailing white space.
pub open spec fn trimmed_end(s: Seq<char>) -> Seq<char>
    decreases s.len(),
{
    if s.len() > 0 && is_white_space(s.last()) {
        trimmed_end(s.drop_last())
    } else {
        s
    }
}

/// `s` without its leading and trailing white space.
pub open spec fn trimmed(s: Seq<char>) -> Seq<char> {
    trimmed_end(trimmed_start(s))
}

/// Calls `str::trim` and copies the result into a `String`. The contract claims
/// what the documentation says: leading and trailing characters with the Unicode
/// `White_Space` property are removed.
#[verifier::external_body]
fn trim_text(s: &str) -> (r: String)
    ensures
        r@ == trimmed(s@),
{
    s.trim().to_string()
}

/// A setting that a file may override: the file's contents, trimmed, when the file
/// could be read; the setting otherwise.
pub fn setting_or_file(setting: Option<String>, file_contents: Option<String>) -> (r: Option<String>)
    ensures
        file_contents matches Some(c) ==> r is Some && r->0@ == trimmed(c@),
        file_contents is None ==> r == setting,
{
    match file_contents {
        Some(c) => Some(trim_text(c.as_str())),
        None => setting,
    }
}

impl AppConfig {
    /// The configured API key, or `default_api_key`.
    pub fn api_key_or_default(&self) -> (r: String)
        ensures
            r@ == match self.api_key {
                Some(k) => k@,
                None => DEFAULT_API_KEY@,
            },
    {
        match &self.api_key {
            Some(k) => k.clone(),
            None => String::from_str(DEFAULT_API_KEY),
        }
    }

    /// The configured database URL, or `sqlite:dwarfer.db?mode=rwc`.
    pub fn database_url_or_default(&self) -> (r: String)
        ensures
            r@ == match self.database_url {
                Some(u) => u@,
                None => DEFAULT_DATABASE_URL@,
            },
    {
        match &self.database_url {
            Some(u) => u.clone(),
            None => String::from_str(DEFAULT_DATABASE_URL),
        }
    }
}

} // verus!
