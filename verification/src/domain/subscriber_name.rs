//! The subscriber's display name: non-blank, at most 256 user-perceived
//! characters (grapheme clusters), and free of a small set of forbidden
//! characters.

use vstd::prelude::*;

verus! {

/// Number of grapheme clusters (user-perceived characters) of a string,
/// as segmented by the extended grapheme-cluster rules of UAX #29.
pub uninterp spec fn grapheme_count(s: Seq<char>) -> nat;

/// Relies on unicode_segmentation::UnicodeSegmentation::graphemes, with
/// extended grapheme clusters, to count the user-perceived characters.
#[verifier::external_body]
fn count_graphemes(s: &str) -> (n: usize)
    ensures
        n == grapheme_count(s@),
{
    unicode_segmentation::UnicodeSegmentation::graphemes(s, true).count()
}

/// The characters a subscriber name may never contain.
pub open spec fn is_forbidden_name_char(c: char) -> bool {
    c == '/' || c == '(' || c == ')' || c == '"' || c == '<' || c == '>' || c == '\\' || c == '{'
        || c == '}'
}

/// The Unicode `White_Space` code points, the set that `str::trim` strips.
pub open spec fn is_unicode_whitespace(c: char) -> bool {
    let u = c as u32;
    u == 0x09 || u == 0x0A || u == 0x0B || u == 0x0C || u == 0x0D || u == 0x20 || u == 0x85
        || u == 0xA0 || u == 0x1680 || (0x2000 <= u && u <= 0x200A) || u == 0x2028 || u == 0x2029
        || u == 0x202F || u == 0x205F || u == 0x3000
}

/// A string is blank when every character is whitespace; trimming such a
/// string leaves it empty. The empty string is blank.
pub open spec fn is_blank(s: Seq<char>) -> bool {
    forall|i: int| 0 <= i < s.len() ==> is_unicode_whitespace(s[i])
}

/// Some character of the string is forbidden.
pub open spec fn has_forbidden_name_char(s: Seq<char>) -> bool {
    exists|i: int| 0 <= i < s.len() && is_forbidden_name_char(s[i])
}

/// A valid subscriber name: not blank, at most 256 grapheme clusters,
/// and without forbidden characters.
pub open spec fn name_valid(s: Seq<char>) -> bool {
    &&& !is_blank(s)
    &&& grapheme_count(s) <= 256
    &&& !has_forbidden_name_char(s)
}

fn is_whitespace_char(c: char) -> (r: bool)
    ensures
        r == is_unicode_whitespace(c),
{
    let u = c as u32;
    u == 0x09 || u == 0x0A || u == 0x0B || u == 0x0C || u == 0x0D || u == 0x20 || u == 0x85
        || u == 0xA0 || u == 0x1680 || (0x2000 <= u && u <= 0x200A) || u == 0x2028 || u == 0x2029
        || u == 0x202F || u == 0x205F || u == 0x3000
}

fn is_forbidden_char(c: char) -> (r: bool)
    ensures
        r == is_forbidden_name_char(c),
{
    c == '/' || c == '(' || c == ')' || c == '"' || c == '<' || c == '>' || c == '\\' || c == '{'
        || c == '}'
}

fn str_is_blank(s: &str) -> (r: bool)
    ensures
        r == is_blank(s@),
{
    let n = s.unicode_len();
    let mut i: usize = 0;
    while i < n
        invariant
            n == s@.len(),
            i <= n,
            forall|j: int| 0 <= j < i ==> is_unicode_whitespace(s@[j]),
        decreases n - i,
    {
        if !is_whitespace_char(s.get_char(i)) {
            return false;
        }
        i += 1;
    }
    true
}

fn str_has_forbidden_char(s: &str) -> (r: bool)
    ensures
        r == has_forbidden_name_char(s@),
{
    let n = s.unicode_len();
    let mut i: usize = 0;
    while i < n
        invariant
            n == s@.len(),
            i <= n,
            forall|j: int| 0 <= j < i ==> !is_forbidden_name_char(s@[j]),
        decreases n - i,
    {
        if is_forbidden_char(s.get_char(i)) {
            return true;
        }
        i += 1;
    }
    false
}

/// A display name that passed validation; the raw string is reachable
/// only through [`SubscriberName::as_str`].
#[derive(Debug)]
pub struct SubscriberName(String);

impl View for SubscriberName {
    type V = Seq<char>;

    closed spec fn view(&self) -> Seq<char> {
        self.0@
    }
}

impl SubscriberName {
    /// A `SubscriberName` always holds a valid name.
    pub open spec fn wf(&self) -> bool {
        name_valid(self@)
    }

    /// Accepts exactly the valid names: not blank, at most 256 grapheme
    /// clusters, no forbidden character. The rejected string is reported
    /// back in the error message.
    pub fn parse(s: String) -> (r: Result<SubscriberName, String>)
        ensures
            r is Ok <==> name_valid(s@),
            r matches Ok(name) ==> name@ == s@ && name.wf(),
            r matches Err(e) ==> e@ == s@ + " is not a valid subscriber name."@,
    {
        let is_empty_or_whitespace = str_is_blank(s.as_str());
        let is_too_long = count_graphemes(s.as_str()) > 256;
        let contains_forbidden_characters = str_has_forbidden_char(s.as_str());
        if is_empty_or_whitespace || is_too_long || contains_forbidden_characters {
            Err(s.concat(" is not a valid subscriber name."))
        } else {
            Ok(SubscriberName(s))
        }
    }

    /// Read-only view of the validated name.
    pub fn as_str(&self) -> (r: &str)
        ensures
            r@ == self@,
    {
        self.0.as_str()
    }

    /// Owned copy of the validated name.
    pub fn as_string(&self) -> (r: String)
        ensures
            r@ == self@,
    {
        let mut s = String::new();
        s.append(self.0.as_str());
        proof {
            assert(Seq::<char>::empty() + self.0@ =~= self.0@);
        }
        s
    }
}

} // verus!
