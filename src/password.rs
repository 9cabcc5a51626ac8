use vstd::prelude::*;

verus! {

/// Fewest bytes a password may have.
pub const MIN_PASSWORD_BYTES: usize = 8;

/// Length in bytes of the UTF-8 encoding of `s`.
pub open spec fn byte_len(s: Seq<char>) -> nat {
    vstd::utf8::encode_utf8(s).len()
}

/// A password that meets the length policy; the only way to build one is `parse`.
#[derive(Debug)]
pub struct Password(String);

impl View for Password {
    type V = Seq<char>;

    closed spec fn view(&self) -> Seq<char> {
        self.0@
    }
}

impl Password {
    #[verifier::type_invariant]
    closed spec fn inv(self) -> bool {
        Password::accepts(self.0@)
    }

    /// Whether `parse` accepts `s`: at least eight bytes long.
    pub open spec fn accepts(s: Seq<char>) -> bool {
        byte_len(s) >= MIN_PASSWORD_BYTES
    }

    /// Accepts `s` exactly when it is at least eight bytes long, and then
    /// wraps it unchanged.
    pub fn parse(s: String) -> (r: Result<Password, String>)
        ensures
            r is Ok <==> Password::accepts(s@),
            r matches Ok(p) ==> p@ == s@,
            r matches Err(m) ==> m@ == "Password must be at least 8 characters long"@,
    {
        if s.as_str().as_bytes().len() >= MIN_PASSWORD_BYTES {
            Ok(Password(s))
        } else {
            Err("Password must be at least 8 characters long".to_string())
        }
    }

    /// The wrapped secret, read only; it always meets the length policy.
    pub fn as_str(&self) -> (r: &str)
        ensures
            r@ == self@,
            Password::accepts(r@),
    {
        proof {
            use_type_invariant(self);
        }
        self.0.as_str()
    }
}

impl AsRef<str> for Password {
    fn as_ref(&self) -> (r: &str)
        ensures
            r@ == self@,
    {
        self.as_str()
    }
}

impl Clone for Password {
    fn clone(&self) -> (r: Self)
        ensures
            r == *self,
    {
        proof {
            use_type_invariant(self);
        }
        Password(self.0.clone())
    }
}

impl PartialEq for Password {
    fn eq(&self, other: &Password) -> (r: bool) {
        self.0 == other.0
    }
}

impl vstd::std_specs::cmp::PartialEqSpecImpl for Password {
    open spec fn obeys_eq_spec() -> bool {
        true
    }

    open spec fn eq_spec(&self, other: &Password) -> bool {
        self@ == other@
    }
}

} // verus!
