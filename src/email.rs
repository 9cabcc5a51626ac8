use vstd::prelude::*;
use vstd::string::StringExecFns;

verus! {

/// What `validator` decides of an address: the HTML5 grammar for the local
/// part and the domain, a local part of at most 64 characters and a domain
/// of at most 255, with an internationalised domain checked again after its
/// conversion to ASCII.
pub uninterp spec fn email_format_ok(s: Seq<char>) -> bool;

/// `s` has an `@` with at least one character before it and one after it.
pub open spec fn has_local_and_domain(s: Seq<char>) -> bool {
    exists|i: int| 0 < i < s.len() - 1 && s[i] == '@'
}

/// Relies on `validator::ValidateEmail::validate_email` for `&str`: it checks
/// the address grammar, and it returns false unless some `@` splits the text
/// into a non-empty local part and a non-empty domain.
#[verifier::external_body]
fn check_email_format(s: &str) -> (r: bool)
    ensures
        r == email_format_ok(s@),
        r ==> has_local_and_domain(s@),
{
    validator::ValidateEmail::validate_email(&s)
}

/// The `Debug` form of a string: quoted, with special characters escaped.
pub uninterp spec fn debug_quoted(s: Seq<char>) -> Seq<char>;

/// The message `parse` gives for a rejected address `s`.
pub open spec fn invalid_email_text(s: Seq<char>) -> Seq<char> {
    debug_quoted(s) + " is not a valid email address"@
}

/// Relies on `<str as Debug>::fmt`, through `format!("{:?}")`: the quoted
/// and escaped form of the text, which depends on the text alone.
#[verifier::external_body]
fn quote_for_message(s: &str) -> (r: String)
    ensures
        r@ == debug_quoted(s@),
{
    format!("{:?}", s)
}

/// An email address that passed validation; the only way to build one is `parse`.
#[derive(Debug, Hash)]
pub struct Email(String);

impl View for Email {
    type V = Seq<char>;

    closed spec fn view(&self) -> Seq<char> {
        self.0@
    }
}

impl Email {
    #[verifier::type_invariant]
    closed spec fn inv(self) -> bool {
        email_format_ok(self.0@) && has_local_and_domain(self.0@)
    }

    /// Whether `parse` accepts `s`.
    pub open spec fn accepts(s: Seq<char>) -> bool {
        email_format_ok(s)
    }

    /// Accepts `s` exactly when it passes email validation, and then wraps
    /// it unchanged.
    pub fn parse(s: String) -> (r: Result<Email, String>)
        ensures
            r is Ok <==> Email::accepts(s@),
            r matches Ok(e) ==> e@ == s@,
            r is Ok ==> has_local_and_domain(s@),
            !s@.contains('@') ==> r is Err,
            r matches Err(m) ==> m@ == invalid_email_text(s@),
    {
        if check_email_format(s.as_str()) {
            Ok(Email(s))
        } else {
            let quoted = quote_for_message(s.as_str());
            Err(quoted.concat(" is not a valid email address"))
        }
    }

    /// The wrapped address, read only; it is always one that `parse`
    /// accepts, with an `@` between a non-empty local part and a domain.
    pub fn as_str(&self) -> (r: &str)
        ensures
            r@ == self@,
            Email::accepts(r@),
            has_local_and_domain(r@),
    {
        proof {
            use_type_invariant(self);
        }
        self.0.as_str()
    }
}

impl AsRef<str> for Email {
    fn as_ref(&self) -> (r: &str)
        ensures
            r@ == self@,
    {
        self.as_str()
    }
}

impl Clone for Email {
    fn clone(&self) -> (r: Self)
        ensures
            r == *self,
    {
        proof {
            use_type_invariant(self);
        }
        Email(self.0.clone())
    }
}

impl PartialEq for Email {
    fn eq(&self, other: &Email) -> (r: bool) {
        self.0 == other.0
    }
}

impl vstd::std_specs::cmp::PartialEqSpecImpl for Email {
    open spec fn obeys_eq_spec() -> bool {
        true
    }

    open spec fn eq_spec(&self, other: &Email) -> bool {
        self@ == other@
    }
}

impl Eq for Email {

}

} // verus!
