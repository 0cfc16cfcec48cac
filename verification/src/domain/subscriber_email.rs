//! The subscriber's email address, accepted only when it passes the
//! HTML5-style syntactic validation of the `validator` crate.

use vstd::prelude::*;

verus! {

/// Whether a string is a syntactically valid email address under the
/// HTML5 email grammar (user part, `@`, domain part), as decided by
/// `validator::ValidateEmail`.
pub uninterp spec fn is_valid_email(s: Seq<char>) -> bool;

/// Relies on validator::ValidateEmail::validate_email for `String`: a
/// pure syntactic check of the characters alone.
#[verifier::external_body]
fn validate_email_string(s: &String) -> (r: bool)
    ensures
        r == is_valid_email(s@),
{
    validator::ValidateEmail::validate_email(s)
}

/// An email address that passed validation; the raw string is reachable
/// only through [`SubscriberEmail::as_str`].
#[derive(Debug, Clone)]
pub struct SubscriberEmail(String);

impl View for SubscriberEmail {
    type V = Seq<char>;

    closed spec fn view(&self) -> Seq<char> {
        self.0@
    }
}

impl SubscriberEmail {
    /// A `SubscriberEmail` always holds a syntactically valid address.
    pub open spec fn wf(&self) -> bool {
        is_valid_email(self@)
    }

    /// Accepts exactly the syntactically valid addresses. The rejected
    /// string is reported back in the error message.
    pub fn parse(s: String) -> (r: Result<SubscriberEmail, String>)
        ensures
            r is Ok <==> is_valid_email(s@),
            r matches Ok(email) ==> email@ == s@ && email.wf(),
            r matches Err(e) ==> e@ == s@ + " is not a valid subscriber email address."@,
    {
        if validate_email_string(&s) {
            Ok(Self(s))
        } else {
            Err(s.concat(" is not a valid subscriber email address."))
        }
    }

    /// Read-only view of the validated address.
    pub fn as_str(&self) -> (r: &str)
        ensures
            r@ == self@,
    {
        self.0.as_str()
    }

    /// An owned duplicate, equal to this value.
    pub fn duplicate(&self) -> (r: SubscriberEmail)
        ensures
            r == *self,
    {
        SubscriberEmail(self.0.clone())
    }

    /// Owned copy of the validated address.
    pub fn as_string(&self) -> (r: String)
        ensures
            r@ == self@,
    {
        let mut s = String::new();
        s.append(self.0.as_str());
        proof {
            assert(Seq::<char>::empty() + self.0@ =~= self.0@);
        }
        s
    }
}

} // verus!
