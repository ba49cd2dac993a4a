//! The address a subscriber is written to.

use vstd::prelude::*;
use vstd::std_specs::cmp::PartialEqSpecImpl;
use vstd::string::*;

verus! {

/// Whether `s` is an email address as the `validator` crate decides it: by
/// the grammar of the HTML standard for a local part, an `@` and a domain,
/// within the lengths that SMTP allows, with internationalized domain names
/// and address literals admitted.
pub uninterp spec fn is_email_address(s: Seq<char>) -> bool;

/// Whether position `i` of `s` lies in the domain, that is behind every `@`.
pub open spec fn is_domain_index(s: Seq<char>, i: int) -> bool {
    &&& 0 <= i < s.len()
    &&& forall|j: int| i <= j < s.len() ==> s[j] != '@'
}

/// Whether the domain of `s` holds a `.` that parts two labels.
pub open spec fn has_label_separator(s: Seq<char>) -> bool {
    exists|i: int| is_domain_index(s, i) && s[i] == '.'
}

/// The rule for addresses: an email address whose domain has at least two
/// labels.
pub open spec fn is_valid_email(s: Seq<char>) -> bool {
    is_email_address(s) && has_label_separator(s)
}

/// What `parse` answers to a string that is no valid address.
pub open spec fn invalid_email_message(s: Seq<char>) -> Seq<char> {
    s + " is not a valid subscriber email."@
}

/// Checks `s` with `validator::validate_email`. Trusted: the answer is the
/// one that [`is_email_address`] names.
#[verifier::external_body]
fn validate_email(s: &str) -> (r: bool)
    ensures
        r == is_email_address(s@),
{
    validator::validate_email(s)
}

/// Decides [`has_label_separator`].
pub fn str_has_label_separator(s: &str) -> (r: bool)
    ensures
        r == has_label_separator(s@),
{
    let mut found = false;
    let ghost mut last_at: int = -1;
    for c in it: s.chars()
        invariant
            it.seq() == s@,
            -1 <= last_at < it.index(),
            last_at >= 0 ==> s@[last_at] == '@',
            forall|j: int| last_at < j < it.index() ==> s@[j] != '@',
            found == (exists|i: int| last_at < i < it.index() && s@[i] == '.'),
    {
        if c == '@' {
            found = false;
            proof {
                last_at = it.index() as int;
            }
        } else if c == '.' {
            found = true;
        }
    }
    proof {
        if found {
            let i = choose|i: int| last_at < i < s@.len() && s@[i] == '.';
            assert(is_domain_index(s@, i));
        }
        if has_label_separator(s@) {
            let i = choose|i: int| is_domain_index(s@, i) && s@[i] == '.';
            assert(last_at < i);
        }
    }
    found
}

/// A subscriber's email address. Every value holds a valid address: `parse`
/// is the only way to make one.
#[derive(Debug, Eq, PartialOrd, Ord)]
pub struct SubscriberEmail(String);

impl View for SubscriberEmail {
    type V = Seq<char>;

    closed spec fn view(&self) -> Seq<char> {
        self.0@
    }
}

impl SubscriberEmail {
    #[verifier::type_invariant]
    spec fn holds_valid_email(self) -> bool {
        is_valid_email(self.0@)
    }

    /// Accepts `s` unchanged if it is a valid address, and answers with
    /// [`invalid_email_message`] if it is not.
    pub fn parse(s: String) -> (r: Result<SubscriberEmail, String>)
        ensures
            match r {
                Ok(email) => is_valid_email(s@) && email@ == s@,
                Err(message) => !is_valid_email(s@) && message@ == invalid_email_message(s@),
            },
    {
        if validate_email(s.as_str()) && str_has_label_separator(s.as_str()) {
            Ok(SubscriberEmail(s))
        } else {
            let mut message = s;
            message.append(" is not a valid subscriber email.");
            Err(message)
        }
    }

    /// The address as text.
    pub fn as_ref(&self) -> (r: &str)
        ensures
            r@ == self@,
            is_valid_email(self@),
    {
        proof {
            use_type_invariant(self);
        }
        self.0.as_str()
    }
}

impl Clone for SubscriberEmail {
    fn clone(&self) -> (r: Self)
        ensures
            r@ == self@,
    {
        proof {
            use_type_invariant(self);
        }
        SubscriberEmail(self.0.clone())
    }
}

impl PartialEq for SubscriberEmail {
    fn eq(&self, other: &Self) -> (r: bool) {
        self.0 == other.0
    }
}

impl PartialEqSpecImpl for SubscriberEmail {
    open spec fn obeys_eq_spec() -> bool {
        true
    }

    open spec fn eq_spec(&self, other: &Self) -> bool {
        self@ == other@
    }
}

/// The label separator is a `.` of the domain: in an address made of a local
/// part, an `@` and a domain without `@`, there is one exactly if the domain
/// holds a `.`, whatever the local part holds.
pub proof fn lemma_label_separator_is_a_dot_of_the_domain(local: Seq<char>, domain: Seq<char>)
    requires
        !domain.contains('@'),
    ensures
        has_label_separator(local + seq!['@'] + domain) <==> domain.contains('.'),
{
    let s = local + seq!['@'] + domain;
    let start = local.len() + 1;
    assert(s[local.len() as int] == '@');
    assert forall|j: int| start <= j < s.len() implies s[j] != '@' by {
        assert(s[j] == domain[j - start]);
        assert(domain.contains(domain[j - start]));
    }
    if has_label_separator(s) {
        let i = choose|i: int| is_domain_index(s, i) && s[i] == '.';
        assert(i >= start);
        assert(s[i] == domain[i - start]);
    }
    if domain.contains('.') {
        let k = choose|k: int| 0 <= k < domain.len() && domain[k] == '.';
        assert(s[start + k] == domain[k]);
        assert(is_domain_index(s, start + k));
    }
}

/// A string that is no email address, or whose domain is a single label, is
/// no valid address: `parse` refuses it. Every other string is valid:
/// `parse` accepts it and keeps it as it is.
pub proof fn lemma_valid_emails_are_addresses_with_two_labels(s: Seq<char>)
    ensures
        !is_email_address(s) ==> !is_valid_email(s),
        !has_label_separator(s) ==> !is_valid_email(s),
        is_email_address(s) && has_label_separator(s) ==> is_valid_email(s),
{
}

} // verus!
