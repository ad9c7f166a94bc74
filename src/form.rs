use vstd::prelude::*;
use vstd::string::StringExecFns;

verus! {

/// One form field as the contracts see it: its name and its value.
pub type FieldView = (Seq<char>, Seq<char>);

/// The character of the decimal digit `d`.
pub open spec fn digit_char(d: nat) -> char {
    seq!['0', '1', '2', '3', '4', '5', '6', '7', '8', '9'][d as int]
}

/// The decimal representation of `n`, without sign or leading zeros.
pub open spec fn decimal(n: nat) -> Seq<char>
    decreases n,
{
    if n < 10 {
        seq![digit_char(n)]
    } else {
        decimal(n / 10).push(digit_char(n % 10))
    }
}

fn digit_str(d: u64) -> (r: &'static str)
    requires
        d < 10,
    ensures
        r@ == seq![digit_char(d as nat)],
{
    proof {
        reveal_strlit("0");
        reveal_strlit("1");
        reveal_strlit("2");
        reveal_strlit("3");
        reveal_strlit("4");
        reveal_strlit("5");
        reveal_strlit("6");
        reveal_strlit("7");
        reveal_strlit("8");
        reveal_strlit("9");
    }
    let r = match d {
        0 => "0",
        1 => "1",
        2 => "2",
        3 => "3",
        4 => "4",
        5 => "5",
        6 => "6",
        7 => "7",
        8 => "8",
        _ => "9",
    };
    assert(r@ =~= seq![digit_char(d as nat)]);
    r
}

/// Writes `n` in decimal.
pub fn to_decimal(n: u64) -> (r: String)
    ensures
        r@ == decimal(n as nat),
    decreases n,
{
    if n < 10 {
        String::from_str(digit_str(n))
    } else {
        let mut s = to_decimal(n / 10);
        s.append(digit_str(n % 10));
        proof {
            assert(s@ =~= decimal(n as nat));
        }
        s
    }
}

/// A flat, ordered list of form fields, each a name and a value.
#[derive(Clone, Debug, PartialEq, Eq)]
pub struct Form {
    pub fields: Vec<(String, String)>,
}

impl View for Form {
    type V = Seq<FieldView>;

    open spec fn view(&self) -> Seq<FieldView> {
        self.fields@.map_values(|f: (String, String)| (f.0@, f.1@))
    }
}

impl Form {
    pub fn new() -> (r: Form)
        ensures
            r@ == Seq::<FieldView>::empty(),
    {
        let r = Form { fields: Vec::new() };
        assert(r@ =~= Seq::<FieldView>::empty());
        r
    }

    /// Adds the field `name` = `value` after the others.
    pub fn push(&mut self, name: &str, value: String)
        ensures
            final(self)@ == old(self)@.push((name@, value@)),
    {
        self.fields.push((String::from_str(name), value));
        assert(final(self)@ =~= old(self)@.push((name@, value@)));
    }

    /// Adds the fields of `other` after these, in their order.
    pub fn extend(&mut self, other: Form)
        ensures
            final(self)@ == old(self)@ + other@,
    {
        let mut rest = other.fields;
        self.fields.append(&mut rest);
        assert(final(self)@ =~= old(self)@ + other@);
    }
}

} // verus!
