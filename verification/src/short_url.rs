//! The short identifier of a stored URL.

use vstd::prelude::*;

verus! {

/// Largest number of characters in a short identifier.
pub const MAX_SHORT_URL_LEN: usize = 64;

/// Whether `c` may appear in a short identifier: `a-z`, `0-9`, `.`, `-`, `_` or `+`.
pub open spec fn is_short_url_char(c: char) -> bool {
    ('a' <= c && c <= 'z') || ('0' <= c && c <= '9') || c == '.' || c == '-' || c == '_' || c == '+'
}

/// Whether `s` is the text of a short identifier: 1 to 64 allowed characters.
pub open spec fn is_short_url_text(s: Seq<char>) -> bool {
    &&& 1 <= s.len() <= MAX_SHORT_URL_LEN
    &&& forall|i: int| 0 <= i < s.len() ==> is_short_url_char(#[trigger] s[i])
}

/// A validated, lower-case short identifier.
#[derive(Debug, Hash)]
pub struct ShortUrl(String);

impl View for ShortUrl {
    type V = Seq<char>;

    closed spec fn view(&self) -> Seq<char> {
        self.0@
    }
}

impl ShortUrl {
    #[verifier::type_invariant]
    spec fn well_formed(self) -> bool {
        is_short_url_text(self.0@)
    }

    /// The identifier's text.
    pub fn as_str(&self) -> (r: &str)
        ensures
            r@ == self@,
            is_short_url_text(r@),
    {
        proof {
            use_type_invariant(self);
        }
        self.0.as_str()
    }
}

impl Clone for ShortUrl {
    fn clone(&self) -> (r: Self)
        ensures
            r@ == self@,
    {
        proof {
            use_type_invariant(self);
        }
        ShortUrl(self.0.clone())
    }
}

impl PartialEq for ShortUrl {
    fn eq(&self, other: &Self) -> (r: bool) {
        self.0 == other.0
    }
}

impl vstd::std_specs::cmp::PartialEqSpecImpl for ShortUrl {
    open spec fn obeys_eq_spec() -> bool {
        true
    }

    open spec fn eq_spec(&self, other: &Self) -> bool {
        self@ == other@
    }
}

impl Eq for ShortUrl {
}

/// Error returned when a text is not a valid short identifier.
#[derive(Debug, PartialEq, Eq)]
pub enum ShortUrlError {
    Invalid,
}

impl ShortUrlError {
    /// The message that describes the error.
    pub fn message(&self) -> (r: String)
        ensures
            r@ == "Invalid ShortUrl: it should contain only a-z, 0-9, . - _ +"@,
    {
        String::from_str("Invalid ShortUrl: it should contain only a-z, 0-9, . - _ +")
    }
}

/// Regular expression that the text of a short identifier matches.
pub const SHORT_URL_PATTERN: &'static str = r"^[a-z0-9.\-_+]{1,64}$";

/// What `str::to_lowercase` returns for a text.
pub uninterp spec fn lowercase(s: Seq<char>) -> Seq<char>;

/// Whether every character of `s` may appear in a short identifier.
pub open spec fn has_only_short_url_chars(s: Seq<char>) -> bool {
    forall|i: int| 0 <= i < s.len() ==> is_short_url_char(#[trigger] s[i])
}

/// Whether every character of `s` is ASCII.
pub open spec fn is_ascii_text(s: Seq<char>) -> bool {
    forall|i: int| 0 <= i < s.len() ==> (#[trigger] s[i] as u32) < 128
}

/// The lower-case form of an ASCII character: `A`-`Z` become `a`-`z`, every other
/// character is kept.
pub open spec fn ascii_lower_char(c: char) -> char {
    if 'A' <= c && c <= 'Z' {
        ((c as u32) + 32) as char
    } else {
        c
    }
}

/// `s` with `A`-`Z` turned into `a`-`z`.
pub open spec fn ascii_lowercase(s: Seq<char>) -> Seq<char> {
    s.map_values(|c: char| ascii_lower_char(c))
}

/// The text that normalizing `s` to lower case gives: for an ASCII text, `A`-`Z`
/// become `a`-`z`; any other text is lower-cased as `lowercase` names it.
pub open spec fn normalized(s: Seq<char>) -> Seq<char> {
    if is_ascii_text(s) {
        ascii_lowercase(s)
    } else {
        lowercase(s)
    }
}

/// A text of characters of short identifiers is its own normalized form.
pub proof fn short_url_chars_are_normalized(s: Seq<char>)
    requires
        has_only_short_url_chars(s),
    ensures
        normalized(s) == s,
{
    assert(is_ascii_text(s));
    assert(ascii_lowercase(s) =~= s);
}

/// Calls `str::to_lowercase`; its result is named by `lowercase`. The contract
/// also claims what the documentation gives of ASCII text: each character is
/// replaced by its Unicode lowercase mapping, a character without one is kept, and
/// among ASCII characters only `A`-`Z` have one, `a`-`z`.
#[verifier::external_body]
fn to_lowercase(s: &str) -> (r: String)
    ensures
        r@ == lowercase(s@),
        is_ascii_text(s@) ==> r@ == ascii_lowercase(s@),
{
    s.to_lowercase()
}

/// What a `regex::Regex` compiled from `pattern` answers to `is_match(text)`.
pub uninterp spec fn regex_is_match(pattern: Seq<char>, text: Seq<char>) -> bool;

#[verifier::external_type_specification]
#[verifier::external_body]
pub struct ExRegexError(regex::Error);

/// Compiles `pattern` with `regex::Regex::new` and asks `Regex::is_match` about `text`.
/// The contract claims that a successful answer is the one named by `regex_is_match`,
/// and, from the regex syntax that the crate documents (anchors `^` and `$` at the
/// ends of the text, a character class, a `{1,64}` repetition counted in characters),
/// that the pattern of short identifiers compiles and matches exactly the texts of
/// 1 to 64 characters of the class.
#[verifier::external_body]
fn regex_matches(pattern: &str, text: &str) -> (r: Result<bool, regex::Error>)
    ensures
        r is Ok ==> r->Ok_0 == regex_is_match(pattern@, text@),
        pattern@ == SHORT_URL_PATTERN@ ==> r is Ok && r->Ok_0 == is_short_url_text(text@),
{
    match regex::Regex::new(pattern) {
        Ok(re) => Ok(re.is_match(text)),
        Err(e) => Err(e),
    }
}

/// Calls `nanoid::format` with the crate's default random source.
/// The contract claims what its source shows: with a non-empty alphabet of at most
/// 255 ASCII characters and a positive size, it returns `size` characters, each taken
/// from the alphabet. Which characters come out is left open: they are random.
#[verifier::external_body]
fn nanoid_from_alphabet(alphabet: &[char], size: usize) -> (r: String)
    requires
        0 < alphabet@.len() <= 255,
        forall|i: int| 0 <= i < alphabet@.len() ==> (#[trigger] alphabet@[i] as u32) < 128,
        0 < size <= usize::MAX / 8,
    ensures
        r@.len() == size,
        forall|i: int| 0 <= i < r@.len() ==> alphabet@.contains(#[trigger] r@[i]),
{
    nanoid::format(nanoid::rngs::default, alphabet, size)
}

/// Number of characters of a random short identifier.
pub const RANDOM_SHORT_URL_LEN: usize = 6;

/// Whether `c` may appear in a random short identifier: `a-z` or `0-9`.
pub open spec fn is_random_char(c: char) -> bool {
    ('a' <= c && c <= 'z') || ('0' <= c && c <= '9')
}

/// Whether `s` has the shape of a random short identifier.
pub open spec fn is_random_short_url_text(s: Seq<char>) -> bool {
    &&& s.len() == RANDOM_SHORT_URL_LEN
    &&& forall|i: int| 0 <= i < s.len() ==> is_random_char(#[trigger] s[i])
}

impl ShortUrl {
    /// Creates a short identifier from text that is already in lower case:
    /// succeeds exactly when the text has 1 to 64 characters of `a-z0-9.-_+`.
    pub fn from_lowercase(normalized: String) -> (r: Result<ShortUrl, ShortUrlError>)
        ensures
            r is Ok <==> is_short_url_text(normalized@),
            r matches Ok(u) ==> u@ == normalized@,
            r matches Err(e) ==> e == ShortUrlError::Invalid,
    {
        match regex_matches(SHORT_URL_PATTERN, normalized.as_str()) {
            Ok(true) => Ok(ShortUrl(normalized)),
            _ => Err(ShortUrlError::Invalid),
        }
    }

    /// Creates a short identifier, normalizing the input to lower case and
    /// validating its format. The text of a short identifier is accepted unchanged.
    pub fn new(input: &str) -> (r: Result<ShortUrl, ShortUrlError>)
        ensures
            r is Ok <==> is_short_url_text(lowercase(input@)),
            r matches Ok(u) ==> u@ == lowercase(input@),
            r matches Err(e) ==> e == ShortUrlError::Invalid,
            is_short_url_text(input@) ==> r is Ok && r->Ok_0@ == input@,
            r is Ok <==> is_short_url_text(normalized(input@)),
            r matches Ok(u) ==> u@ == normalized(input@),
    {
        let normalized = to_lowercase(input);
        proof {
            if has_only_short_url_chars(input@) {
                short_url_chars_are_normalized(input@);
            }
        }
        ShortUrl::from_lowercase(normalized)
    }

    /// A fresh random identifier of six characters from `a-z0-9`.
    pub fn random() -> (r: ShortUrl)
        ensures
            is_random_short_url_text(r@),
            is_short_url_text(r@),
    {
        let alphabet: [char; 36] = [
            'a', 'b', 'c', 'd', 'e', 'f', 'g', 'h', 'i', 'j', 'k', 'l', 'm', 'n', 'o', 'p', 'q',
            'r', 's', 't', 'u', 'v', 'w', 'x', 'y', 'z', '0', '1', '2', '3', '4', '5', '6', '7',
            '8', '9',
        ];
        assert(forall|i: int| 0 <= i < 36 ==> is_random_char(#[trigger] alphabet@[i]));
        let raw = nanoid_from_alphabet(alphabet.as_slice(), RANDOM_SHORT_URL_LEN);
        assert forall|i: int| 0 <= i < raw@.len() implies is_random_char(#[trigger] raw@[i]) by {
            let j = choose|j: int| 0 <= j < 36 && alphabet@[j] == raw@[i];
            assert(is_random_char(alphabet@[j]));
        }
        ShortUrl(raw)
    }
}

} // verus!
