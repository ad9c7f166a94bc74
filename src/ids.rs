use vstd::prelude::*;
use vstd::string::StrSliceExecFns;
use vstd::string::StringExecFns;

verus! {

/// A character that may stand in a URL path segment without percent-encoding:
/// an ASCII letter or digit, `_`, `-`, `.` or `~`.
pub open spec fn is_id_char(c: char) -> bool {
    ('a' <= c && c <= 'z') || ('A' <= c && c <= 'Z') || ('0' <= c && c <= '9') || c == '_'
        || c == '-' || c == '.' || c == '~'
}

/// A well-formed identifier: not empty, and made of path-safe characters only.
pub open spec fn is_id(s: Seq<char>) -> bool {
    s.len() > 0 && forall|i: int| 0 <= i < s.len() ==> is_id_char(#[trigger] s[i])
}

fn id_char(c: char) -> (r: bool)
    ensures
        r == is_id_char(c),
{
    ('a' <= c && c <= 'z') || ('A' <= c && c <= 'Z') || ('0' <= c && c <= '9') || c == '_'
        || c == '-' || c == '.' || c == '~'
}

/// Whether `s` is a well-formed identifier.
pub fn check_id(s: &str) -> (r: bool)
    ensures
        r == is_id(s@),
{
    let n = s.unicode_len();
    if n == 0 {
        return false;
    }
    let mut i: usize = 0;
    while i < n
        invariant
            n == s@.len(),
            i <= n,
            forall|j: int| 0 <= j < i ==> is_id_char(#[trigger] s@[j]),
        decreases n - i,
    {
        let c = s.get_char(i);
        if !id_char(c) {
            return false;
        }
        i = i + 1;
    }
    true
}

/// The identifier of a customer account.
#[derive(Debug, PartialEq, Eq)]
pub struct CustomerId {
    id: String,
}

/// The identifier of a stored payment method.
#[derive(Debug, PartialEq, Eq)]
pub struct PaymentMethodId {
    id: String,
}

impl View for CustomerId {
    type V = Seq<char>;

    closed spec fn view(&self) -> Seq<char> {
        self.id@
    }
}

impl View for PaymentMethodId {
    type V = Seq<char>;

    closed spec fn view(&self) -> Seq<char> {
        self.id@
    }
}

impl Clone for CustomerId {
    fn clone(&self) -> (r: Self)
        ensures
            r@ == self@,
    {
        proof {
            use_type_invariant(self);
        }
        CustomerId { id: self.id.clone() }
    }
}

impl CustomerId {
    #[verifier::type_invariant]
    spec fn inv(&self) -> bool {
        is_id(self.id@)
    }

    /// The identifier written `s`, if `s` is well-formed.
    pub fn new(s: &str) -> (r: Option<CustomerId>)
        ensures
            r.is_some() <==> is_id(s@),
            r matches Some(id) ==> id@ == s@,
    {
        if check_id(s) {
            Some(CustomerId { id: String::from_str(s) })
        } else {
            None
        }
    }

    pub fn as_str(&self) -> (r: &str)
        ensures
            r@ == self@,
            is_id(r@),
    {
        proof {
            use_type_invariant(self);
        }
        self.id.as_str()
    }

    pub fn into_string(self) -> (r: String)
        ensures
            r@ == self@,
            is_id(r@),
    {
        proof {
            use_type_invariant(&self);
        }
        self.id
    }
}

impl Clone for PaymentMethodId {
    fn clone(&self) -> (r: Self)
        ensures
            r@ == self@,
    {
        proof {
            use_type_invariant(self);
        }
        PaymentMethodId { id: self.id.clone() }
    }
}

impl PaymentMethodId {
    #[verifier::type_invariant]
    spec fn inv(&self) -> bool {
        is_id(self.id@)
    }

    /// The identifier written `s`, if `s` is well-formed.
    pub fn new(s: &str) -> (r: Option<PaymentMethodId>)
        ensures
            r.is_some() <==> is_id(s@),
            r matches Some(id) ==> id@ == s@,
    {
        if check_id(s) {
            Some(PaymentMethodId { id: String::from_str(s) })
        } else {
            None
        }
    }

    pub fn as_str(&self) -> (r: &str)
        ensures
            r@ == self@,
            is_id(r@),
    {
        proof {
            use_type_invariant(self);
        }
        self.id.as_str()
    }

    pub fn into_string(self) -> (r: String)
        ensures
            r@ == self@,
            is_id(r@),
    {
        proof {
            use_type_invariant(&self);
        }
        self.id
    }
}

} // verus!
