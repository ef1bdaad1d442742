use unicode_segmentation::UnicodeSegmentation;
use vstd::prelude::*;
use vstd::string::StrSliceExecFns;
use vstd::string::StringExecFns;

verus! {

/// Number of extended grapheme clusters of a string; it depends on the
/// characters of the string alone.
pub uninterp spec fn grapheme_count_of(s: Seq<char>) -> nat;

/// Relies on unicode_segmentation's `graphemes(true)`: the extended
/// grapheme clusters of a string are a function of its characters alone.
#[verifier::external_body]
fn grapheme_count(s: &str) -> (n: usize)
    ensures
        n as nat == grapheme_count_of(s@),
{
    s.graphemes(true).count()
}

/// The characters `str::trim` removes (the Unicode `White_Space` set).
pub open spec fn is_whitespace_char(c: char) -> bool {
    let u = c as u32;
    (0x09 <= u && u <= 0x0D) || u == 0x20 || u == 0x85 || u == 0xA0 || u == 0x1680 || (0x2000
        <= u && u <= 0x200A) || u == 0x2028 || u == 0x2029 || u == 0x202F || u == 0x205F || u
        == 0x3000
}

/// The string is empty or holds whitespace only, so that trimming it
/// leaves nothing.
pub open spec fn trimmed_empty(s: Seq<char>) -> bool {
    forall|i: int| 0 <= i < s.len() ==> is_whitespace_char(#[trigger] s[i])
}

/// The characters a display name may not contain.
pub open spec fn is_forbidden_char(c: char) -> bool {
    c == '/' || c == '(' || c == ')' || c == '"' || c == '<' || c == '>' || c == '\\' || c == '{'
        || c == '}'
}

/// The string contains at least one forbidden character.
pub open spec fn has_forbidden_char(s: Seq<char>) -> bool {
    exists|i: int| 0 <= i < s.len() && is_forbidden_char(#[trigger] s[i])
}

/// A display name is acceptable when it is not blank, spans at most 256
/// grapheme clusters, and contains no forbidden character.
pub open spec fn name_valid(s: Seq<char>) -> bool {
    &&& !trimmed_empty(s)
    &&& grapheme_count_of(s) <= 256
    &&& !has_forbidden_char(s)
}

fn is_whitespace_exec(c: char) -> (r: bool)
    ensures
        r == is_whitespace_char(c),
{
    let u = c as u32;
    (0x09 <= u && u <= 0x0D) || u == 0x20 || u == 0x85 || u == 0xA0 || u == 0x1680 || (0x2000
        <= u && u <= 0x200A) || u == 0x2028 || u == 0x2029 || u == 0x202F || u == 0x205F || u
        == 0x3000
}

fn is_forbidden_exec(c: char) -> (r: bool)
    ensures
        r == is_forbidden_char(c),
{
    c == '/' || c == '(' || c == ')' || c == '"' || c == '<' || c == '>' || c == '\\' || c == '{'
        || c == '}'
}

fn all_whitespace(s: &str) -> (r: bool)
    ensures
        r == trimmed_empty(s@),
{
    let len = s.unicode_len();
    let mut i: usize = 0;
    while i < len
        invariant
            i <= len,
            len == s@.len(),
            forall|j: int| 0 <= j < i ==> is_whitespace_char(#[trigger] s@[j]),
        decreases len - i,
    {
        if !is_whitespace_exec(s.get_char(i)) {
            return false;
        }
        i = i + 1;
    }
    true
}

fn contains_forbidden(s: &str) -> (r: bool)
    ensures
        r == has_forbidden_char(s@),
{
    let len = s.unicode_len();
    let mut i: usize = 0;
    while i < len
        invariant
            i <= len,
            len == s@.len(),
            forall|j: int| 0 <= j < i ==> !is_forbidden_char(#[trigger] s@[j]),
        decreases len - i,
    {
        if is_forbidden_exec(s.get_char(i)) {
            return true;
        }
        i = i + 1;
    }
    false
}

/// A display name that has passed validation; the wrapped string is kept
/// verbatim.
#[derive(Debug)]
pub struct SubscriberName(String);

impl View for SubscriberName {
    type V = Seq<char>;

    closed spec fn view(&self) -> Seq<char> {
        self.0@
    }
}

impl SubscriberName {
    /// Accepts the string verbatim when it is an acceptable display
    /// name, rejects it with a message otherwise.
    pub fn parse(s: String) -> (r: Result<SubscriberName, String>)
        ensures
            match r {
                Ok(n) => name_valid(s@) && n@ == s@,
                Err(m) => !name_valid(s@) && m@ == s@ + " is not a valid subscriber name"@,
            },
    {
        let is_empty = all_whitespace(s.as_str());
        let too_long = grapheme_count(s.as_str()) > 256;
        let forbidden = contains_forbidden(s.as_str());
        if is_empty || too_long || forbidden {
            Err(s.concat(" is not a valid subscriber name"))
        } else {
            Ok(SubscriberName(s))
        }
    }

    /// The underlying string.
    pub fn as_ref(&self) -> (r: &str)
        ensures
            r@ == self@,
    {
        self.0.as_str()
    }
}

} // verus!
