//! The name a subscriber signs up with.

use crate::text::{is_blank, is_whitespace, str_is_blank};
use unicode_segmentation::UnicodeSegmentation;
use vstd::prelude::*;
use vstd::std_specs::cmp::PartialEqSpecImpl;
use vstd::string::*;

verus! {

/// The longest name accepted, in extended grapheme clusters.
pub const MAX_NAME_GRAPHEMES: usize = 256;

/// The number of extended grapheme clusters of `s`, as the Unicode text
/// segmentation rules count them.
pub uninterp spec fn grapheme_count(s: Seq<char>) -> nat;

/// The punctuation no name may hold.
pub open spec fn is_forbidden(c: char) -> bool {
    ||| c == '/'
    ||| c == '('
    ||| c == ')'
    ||| c == '"'
    ||| c == '<'
    ||| c == '>'
    ||| c == '\\'
    ||| c == '{'
    ||| c == '}'
}

/// Whether `c` is a control character (Unicode general category `Cc`).
pub open spec fn is_control(c: char) -> bool {
    let n = c as u32;
    n <= 0x1F || 0x7F <= n <= 0x9F
}

/// Whether `c` may occur in a name.
pub open spec fn is_name_char(c: char) -> bool {
    !is_forbidden(c) && !is_control(c)
}

/// Whether every character of `s` may occur in a name.
pub open spec fn has_only_name_chars(s: Seq<char>) -> bool {
    forall|i: int| 0 <= i < s.len() ==> is_name_char(#[trigger] s[i])
}

/// The rule for names, given the number of grapheme clusters of `s`.
pub open spec fn is_acceptable_name(s: Seq<char>, graphemes: nat) -> bool {
    &&& !is_blank(s)
    &&& graphemes <= MAX_NAME_GRAPHEMES
    &&& has_only_name_chars(s)
}

/// The rule for names: not blank, at most [`MAX_NAME_GRAPHEMES`] grapheme
/// clusters, and neither a forbidden nor a control character.
pub open spec fn is_valid_name(s: Seq<char>) -> bool {
    is_acceptable_name(s, grapheme_count(s))
}

/// What `parse` answers to a string that is no valid name.
pub open spec fn invalid_name_message(s: Seq<char>) -> Seq<char> {
    s + " is not a valid subscriber name."@
}

/// Counts the extended grapheme clusters of `s` with
/// `UnicodeSegmentation::graphemes(s, true)`. Trusted: the count is the one
/// that [`grapheme_count`] names.
#[verifier::external_body]
fn count_graphemes(s: &str) -> (n: usize)
    ensures
        n == grapheme_count(s@),
{
    s.graphemes(true).count()
}

/// Decides [`is_name_char`].
pub fn char_is_name_char(c: char) -> (r: bool)
    ensures
        r == is_name_char(c),
{
    let n: u32 = c as u32;
    let forbidden = c == '/' || c == '(' || c == ')' || c == '"' || c == '<' || c == '>' || c
        == '\\' || c == '{' || c == '}';
    let control = n <= 0x1F || (0x7F <= n && n <= 0x9F);
    !forbidden && !control
}

/// Decides [`is_acceptable_name`] for a string whose grapheme clusters have
/// been counted.
pub fn name_is_acceptable(s: &str, graphemes: usize) -> (r: bool)
    ensures
        r == is_acceptable_name(s@, graphemes as nat),
{
    if graphemes > MAX_NAME_GRAPHEMES || str_is_blank(s) {
        return false;
    }
    let mut clean = true;
    for c in it: s.chars()
        invariant
            it.seq() == s@,
            clean == (forall|i: int| 0 <= i < it.index() ==> is_name_char(#[trigger] s@[i])),
    {
        clean = clean && char_is_name_char(c);
    }
    clean
}

/// A subscriber's name. Every value holds a valid name: `parse` is the only
/// way to make one.
#[derive(Debug, Eq, PartialOrd, Ord)]
pub struct SubscriberName(String);

impl View for SubscriberName {
    type V = Seq<char>;

    closed spec fn view(&self) -> Seq<char> {
        self.0@
    }
}

impl SubscriberName {
    #[verifier::type_invariant]
    spec fn holds_valid_name(self) -> bool {
        is_valid_name(self.0@)
    }

    /// Accepts `s` unchanged if it is a valid name, and answers with
    /// [`invalid_name_message`] if it is not.
    pub fn parse(s: String) -> (r: Result<SubscriberName, String>)
        ensures
            match r {
                Ok(name) => is_valid_name(s@) && name@ == s@,
                Err(message) => !is_valid_name(s@) && message@ == invalid_name_message(s@),
            },
    {
        let graphemes = count_graphemes(s.as_str());
        if name_is_acceptable(s.as_str(), graphemes) {
            Ok(SubscriberName(s))
        } else {
            let mut message = s;
            message.append(" is not a valid subscriber name.");
            Err(message)
        }
    }

    /// The name as text.
    pub fn as_ref(&self) -> (r: &str)
        ensures
            r@ == self@,
            is_valid_name(self@),
    {
        proof {
            use_type_invariant(self);
        }
        self.0.as_str()
    }
}

impl Clone for SubscriberName {
    fn clone(&self) -> (r: Self)
        ensures
            r@ == self@,
    {
        proof {
            use_type_invariant(self);
        }
        SubscriberName(self.0.clone())
    }
}

impl PartialEq for SubscriberName {
    fn eq(&self, other: &Self) -> (r: bool) {
        self.0 == other.0
    }
}

impl PartialEqSpecImpl for SubscriberName {
    open spec fn obeys_eq_spec() -> bool {
        true
    }

    open spec fn eq_spec(&self, other: &Self) -> bool {
        self@ == other@
    }
}

/// Whether `s` neither starts nor ends with white space, and is not empty.
pub open spec fn is_trimmed_and_not_empty(s: Seq<char>) -> bool {
    &&& s.len() > 0
    &&& !is_whitespace(s.first())
    &&& !is_whitespace(s.last())
}

/// A string with a forbidden or a control character, or with more than
/// [`MAX_NAME_GRAPHEMES`] grapheme clusters, is no valid name: `parse`
/// refuses it.
pub proof fn lemma_name_with_bad_char_or_too_long_is_invalid(s: Seq<char>)
    requires
        grapheme_count(s) > MAX_NAME_GRAPHEMES || exists|i: int|
            0 <= i < s.len() && (is_forbidden(s[i]) || is_control(s[i])),
    ensures
        !is_valid_name(s),
{
    if grapheme_count(s) <= MAX_NAME_GRAPHEMES {
        let i = choose|i: int| 0 <= i < s.len() && (is_forbidden(s[i]) || is_control(s[i]));
        assert(!is_name_char(s[i]));
    }
}

/// A string that is trimmed and not empty, has at most
/// [`MAX_NAME_GRAPHEMES`] grapheme clusters and only characters that a name
/// may hold is a valid name: `parse` accepts it and keeps it as it is.
pub proof fn lemma_trimmed_name_within_bounds_is_valid(s: Seq<char>)
    requires
        is_trimmed_and_not_empty(s),
        grapheme_count(s) <= MAX_NAME_GRAPHEMES,
        has_only_name_chars(s),
    ensures
        is_valid_name(s),
{
    assert(!is_whitespace(s[0]));
}

} // verus!
