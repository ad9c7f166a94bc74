use vstd::prelude::*;
use vstd::string::StringExecFns;

use crate::form::{decimal, to_decimal, FieldView, Form};
use crate::ids::{CustomerId, PaymentMethodId};
use crate::request::{Body, Method, Request};

verus! {

/// The kinds of payment method that the API knows.
#[derive(Clone, Copy, Debug, PartialEq, Eq, Structural)]
pub enum PaymentMethodTypeFilter {
    AcssDebit,
    Affirm,
    AuBecsDebit,
    BacsDebit,
    Bancontact,
    Card,
    Ideal,
    Klarna,
    Link,
    SepaDebit,
    Sofort,
    UsBankAccount,
}

/// The name under which the API knows a kind of payment method.
pub open spec fn kind_name(t: PaymentMethodTypeFilter) -> Seq<char> {
    match t {
        PaymentMethodTypeFilter::AcssDebit => "acss_debit"@,
        PaymentMethodTypeFilter::Affirm => "affirm"@,
        PaymentMethodTypeFilter::AuBecsDebit => "au_becs_debit"@,
        PaymentMethodTypeFilter::BacsDebit => "bacs_debit"@,
        PaymentMethodTypeFilter::Bancontact => "bancontact"@,
        PaymentMethodTypeFilter::Card => "card"@,
        PaymentMethodTypeFilter::Ideal => "ideal"@,
        PaymentMethodTypeFilter::Klarna => "klarna"@,
        PaymentMethodTypeFilter::Link => "link"@,
        PaymentMethodTypeFilter::SepaDebit => "sepa_debit"@,
        PaymentMethodTypeFilter::Sofort => "sofort"@,
        PaymentMethodTypeFilter::UsBankAccount => "us_bank_account"@,
    }
}

impl PaymentMethodTypeFilter {
    pub fn as_str(&self) -> (r: &'static str)
        ensures
            r@ == kind_name(*self),
    {
        match self {
            PaymentMethodTypeFilter::AcssDebit => "acss_debit",
            PaymentMethodTypeFilter::Affirm => "affirm",
            PaymentMethodTypeFilter::AuBecsDebit => "au_becs_debit",
            PaymentMethodTypeFilter::BacsDebit => "bacs_debit",
            PaymentMethodTypeFilter::Bancontact => "bancontact",
            PaymentMethodTypeFilter::Card => "card",
            PaymentMethodTypeFilter::Ideal => "ideal",
            PaymentMethodTypeFilter::Klarna => "klarna",
            PaymentMethodTypeFilter::Link => "link",
            PaymentMethodTypeFilter::SepaDebit => "sepa_debit",
            PaymentMethodTypeFilter::Sofort => "sofort",
            PaymentMethodTypeFilter::UsBankAccount => "us_bank_account",
        }
    }
}

/// A stored payment method, as the API returns it.
#[derive(Clone, Debug, PartialEq, Eq)]
pub struct PaymentMethod {
    pub id: PaymentMethodId,
    pub customer: Option<CustomerId>,
    pub type_: PaymentMethodTypeFilter,
}

/// The parameters of [`PaymentMethod::attach`].
#[derive(Clone, Debug, PartialEq, Eq)]
pub struct AttachPaymentMethod {
    pub customer: CustomerId,
}

/// Raw card data. It goes into one request and is kept nowhere else.
#[derive(Clone, Debug, PartialEq, Eq)]
pub struct PaymentCard {
    pub exp_year: u16,
    pub exp_month: u8,
    pub number: String,
    pub cvc: u16,
}

/// The general parameters for creating a payment method.
#[derive(Clone, Debug, PartialEq, Eq)]
pub struct CreatePaymentMethod {
    pub customer: Option<CustomerId>,
    pub payment_method: Option<PaymentMethodId>,
    pub type_: Option<PaymentMethodTypeFilter>,
}

/// The general parameters for updating a payment method: metadata entries,
/// each a key and a value.
#[derive(Clone, Debug, PartialEq, Eq)]
pub struct UpdatePaymentMethod {
    pub metadata: Vec<(String, String)>,
}

/// Creation parameters together with a card; both are sent as one flat form.
#[derive(Clone, Debug, PartialEq, Eq)]
pub struct CreatePaymentMethodWithCard {
    pub create_payment_method: CreatePaymentMethod,
    pub card: PaymentCard,
}

/// Update parameters together with a card; both are sent as one flat form.
#[derive(Clone, Debug, PartialEq, Eq)]
pub struct UpdatePaymentMethodWithCard {
    pub update_payment_method: UpdatePaymentMethod,
    pub card: PaymentCard,
}

/// The field `name` if there is a value, else nothing.
pub open spec fn optional_field<V: View<V = Seq<char>>>(name: Seq<char>, value: Option<V>) -> Seq<
    FieldView,
> {
    match value {
        Some(v) => seq![(name, v@)],
        None => seq![],
    }
}

/// The form fields of the general creation parameters, in this order:
/// `customer`, `payment_method`, `type`, each only where it is set.
pub open spec fn create_fields(p: CreatePaymentMethod) -> Seq<FieldView> {
    optional_field("customer"@, p.customer) + optional_field("payment_method"@, p.payment_method)
        + match p.type_ {
        Some(t) => seq![("type"@, kind_name(t))],
        None => seq![],
    }
}

/// The form field of one metadata entry: `metadata[key]` = value.
pub open spec fn metadata_field(entry: (String, String)) -> FieldView {
    ("metadata["@ + entry.0@ + "]"@, entry.1@)
}

/// The form fields of the general update parameters: one per metadata entry,
/// in order.
pub open spec fn update_fields(p: UpdatePaymentMethod) -> Seq<FieldView> {
    p.metadata@.map_values(|e: (String, String)| metadata_field(e))
}

/// The four card fields, named at the top level of the form.
pub open spec fn card_fields(c: PaymentCard) -> Seq<FieldView> {
    seq![
        ("exp_year"@, decimal(c.exp_year as nat)),
        ("exp_month"@, decimal(c.exp_month as nat)),
        ("number"@, c.number@),
        ("cvc"@, decimal(c.cvc as nat)),
    ]
}

/// The body that creating a payment method with a card sends: the general
/// fields with the type forced to card, then the card fields.
pub open spec fn create_with_card_body(p: CreatePaymentMethodWithCard) -> Seq<FieldView> {
    create_fields(
        CreatePaymentMethod { type_: Some(PaymentMethodTypeFilter::Card), ..p.create_payment_method },
    ) + card_fields(p.card)
}

/// The body that updating a payment method with a card sends: the general
/// fields, then the card fields.
pub open spec fn update_with_card_body(p: UpdatePaymentMethodWithCard) -> Seq<FieldView> {
    update_fields(p.update_payment_method) + card_fields(p.card)
}

/// The path of a payment method.
pub open spec fn payment_method_path(id: Seq<char>) -> Seq<char> {
    "/payment_methods/"@ + id
}

fn optional_push(form: &mut Form, name: &str, value: Option<String>)
    ensures
        final(form)@ == old(form)@ + optional_field(name@, value),
{
    match value {
        Some(v) => {
            form.push(name, v);
        },
        None => {},
    }
    assert(final(form)@ =~= old(form)@ + optional_field(name@, value));
}

impl CreatePaymentMethod {
    pub fn into_form(self) -> (r: Form)
        ensures
            r@ == create_fields(self),
    {
        let mut form = Form::new();
        let customer = match self.customer {
            Some(c) => Some(c.into_string()),
            None => None,
        };
        optional_push(&mut form, "customer", customer);
        let payment_method = match self.payment_method {
            Some(m) => Some(m.into_string()),
            None => None,
        };
        optional_push(&mut form, "payment_method", payment_method);
        let type_ = match self.type_ {
            Some(t) => Some(String::from_str(t.as_str())),
            None => None,
        };
        optional_push(&mut form, "type", type_);
        assert(form@ =~= create_fields(self));
        form
    }
}

impl UpdatePaymentMethod {
    pub fn into_form(self) -> (r: Form)
        ensures
            r@ == update_fields(self),
    {
        let mut form = Form::new();
        let mut i: usize = 0;
        while i < self.metadata.len()
            invariant
                i <= self.metadata@.len(),
                form@ =~= self.metadata@.take(i as int).map_values(
                    |e: (String, String)| metadata_field(e),
                ),
            decreases self.metadata@.len() - i,
        {
            let mut name = String::from_str("metadata[");
            name.append(self.metadata[i].0.as_str());
            name.append("]");
            let value = self.metadata[i].1.clone();
            form.push(name.as_str(), value);
            assert(self.metadata@.take(i + 1) =~= self.metadata@.take(i as int).push(
                self.metadata@[i as int],
            ));
            i = i + 1;
        }
        assert(self.metadata@.take(i as int) =~= self.metadata@);
        form
    }
}

impl PaymentCard {
    pub fn into_form(self) -> (r: Form)
        ensures
            r@ == card_fields(self),
    {
        let mut form = Form::new();
        form.push("exp_year", to_decimal(self.exp_year as u64));
        form.push("exp_month", to_decimal(self.exp_month as u64));
        form.push("number", self.number);
        form.push("cvc", to_decimal(self.cvc as u64));
        assert(form@ =~= card_fields(self));
        form
    }
}

impl PaymentMethod {
    /// The request that attaches the payment method `payment_method_id` to
    /// the customer of `params`.
    pub fn attach(payment_method_id: &PaymentMethodId, params: AttachPaymentMethod) -> (r: Request)
        ensures
            r.method == Method::Post,
            r.path@ == payment_method_path(payment_method_id@) + "/attach"@,
            r.body@ == Some(seq![("customer"@, params.customer@)]),
    {
        let mut path = String::from_str("/payment_methods/");
        path.append(payment_method_id.as_str());
        path.append("/attach");
        let mut form = Form::new();
        form.push("customer", params.customer.into_string());
        assert(form@ =~= seq![("customer"@, params.customer@)]);
        Request { method: Method::Post, path, body: Body::Form(form) }
    }

    /// The request that detaches the payment method `payment_method_id` from
    /// its customer.
    pub fn detach(payment_method_id: &PaymentMethodId) -> (r: Request)
        ensures
            r.method == Method::Post,
            r.path@ == payment_method_path(payment_method_id@) + "/detach"@,
            r.body@ == None::<Seq<FieldView>>,
    {
        let mut path = String::from_str("/payment_methods/");
        path.append(payment_method_id.as_str());
        path.append("/detach");
        Request { method: Method::Post, path, body: Body::Empty }
    }

    /// The request that creates a payment method from `params`. Whatever type
    /// `params` names, the request asks for a card.
    pub fn create_with_card(params: CreatePaymentMethodWithCard) -> (r: Request)
        ensures
            r.method == Method::Post,
            r.path@ == "/payment_methods"@,
            r.body@ == Some(create_with_card_body(params)),
    {
        let mut params = params;
        params.create_payment_method.type_ = Some(PaymentMethodTypeFilter::Card);
        let mut form = params.create_payment_method.into_form();
        form.extend(params.card.into_form());
        Request { method: Method::Post, path: String::from_str("/payment_methods"), body: Body::Form(form) }
    }

    /// The request that updates the payment method `payment_method_id` from
    /// `params`.
    pub fn update_with_card(payment_method_id: &PaymentMethodId, params: UpdatePaymentMethodWithCard) -> (r: Request)
        ensures
            r.method == Method::Post,
            r.path@ == payment_method_path(payment_method_id@),
            r.body@ == Some(update_with_card_body(params)),
    {
        let mut path = String::from_str("/payment_methods/");
        path.append(payment_method_id.as_str());
        let mut form = params.update_payment_method.into_form();
        form.extend(params.card.into_form());
        Request { method: Method::Post, path, body: Body::Form(form) }
    }
}

/// The names of a list of form fields, in order.
pub open spec fn field_names(fields: Seq<FieldView>) -> Seq<Seq<char>> {
    fields.map_values(|f: FieldView| f.0)
}

/// The names of the card fields.
pub open spec fn card_field_names() -> Seq<Seq<char>> {
    seq!["exp_year"@, "exp_month"@, "number"@, "cvc"@]
}

proof fn lemma_card_fields_not_card(c: PaymentCard)
    ensures
        field_names(card_fields(c)) == card_field_names(),
        forall|i: int| 0 <= i < 4 ==> card_fields(c)[i].0 != "card"@,
{
    reveal_strlit("card");
    reveal_strlit("exp_year");
    reveal_strlit("exp_month");
    reveal_strlit("number");
    reveal_strlit("cvc");
    assert(field_names(card_fields(c)) =~= card_field_names());
    assert("exp_year"@[0] != "card"@[0]);
    assert("exp_month"@[0] != "card"@[0]);
    assert("number"@[0] != "card"@[0]);
    assert("cvc"@.len() != "card"@.len());
}

/// Creating with a card always sends the type `card`: the body holds the field
/// `type` = `card`, and no field `type` with another value, whatever type the
/// caller's parameters named.
pub proof fn lemma_create_with_card_forces_card_type(params: CreatePaymentMethodWithCard)
    ensures
        exists|i: int|
            0 <= i < create_with_card_body(params).len() && #[trigger] create_with_card_body(
                params,
            )[i] == ("type"@, "card"@),
        forall|i: int|
            0 <= i < create_with_card_body(params).len() && (#[trigger] create_with_card_body(
                params,
            )[i]).0 == "type"@ ==> create_with_card_body(params)[i].1 == "card"@,
{
    let p = params.create_payment_method;
    let body = create_with_card_body(params);
    let lead = optional_field("customer"@, p.customer) + optional_field(
        "payment_method"@,
        p.payment_method,
    );
    reveal_strlit("type");
    reveal_strlit("customer");
    reveal_strlit("payment_method");
    reveal_strlit("card");
    reveal_strlit("exp_year");
    reveal_strlit("exp_month");
    reveal_strlit("number");
    reveal_strlit("cvc");
    assert(body =~= lead + seq![("type"@, "card"@)] + card_fields(params.card));
    assert(body[lead.len() as int] == ("type"@, "card"@));
    assert("customer"@.len() != "type"@.len());
    assert("payment_method"@.len() != "type"@.len());
    assert("exp_year"@[0] != "type"@[0]);
    assert("exp_month"@[0] != "type"@[0]);
    assert("number"@[0] != "type"@[0]);
    assert("cvc"@.len() != "type"@.len());
    assert forall|i: int| 0 <= i < body.len() && (#[trigger] body[i]).0 == "type"@ implies body[i].1
        == "card"@ by {
        if i < lead.len() {
            assert(lead[i].0 == "customer"@ || lead[i].0 == "payment_method"@);
        } else if i > lead.len() {
            let k = i - lead.len() - 1;
            assert(body[i] == card_fields(params.card)[k]);
        }
    }
}

/// Creating with a card sends one flat form: the general fields, then the four
/// card fields beside them, and no field named `card`.
pub proof fn lemma_create_with_card_body_is_flat(params: CreatePaymentMethodWithCard)
    ensures
        ({
            let general = create_fields(
                CreatePaymentMethod {
                    type_: Some(PaymentMethodTypeFilter::Card),
                    ..params.create_payment_method
                },
            );
            let body = create_with_card_body(params);
            &&& body.take(general.len() as int) == general
            &&& body.skip(general.len() as int) == card_fields(params.card)
            &&& field_names(body.skip(general.len() as int)) == card_field_names()
            &&& forall|i: int| 0 <= i < body.len() ==> (#[trigger] body[i]).0 != "card"@
        }),
{
    let p = params.create_payment_method;
    let general = create_fields(CreatePaymentMethod { type_: Some(PaymentMethodTypeFilter::Card), ..p });
    let body = create_with_card_body(params);
    lemma_card_fields_not_card(params.card);
    assert(body.take(general.len() as int) =~= general);
    assert(body.skip(general.len() as int) =~= card_fields(params.card));
    reveal_strlit("type");
    reveal_strlit("customer");
    reveal_strlit("payment_method");
    reveal_strlit("card");
    assert("customer"@.len() != "card"@.len());
    assert("payment_method"@.len() != "card"@.len());
    assert("type"@[0] != "card"@[0]);
    assert forall|i: int| 0 <= i < body.len() implies (#[trigger] body[i]).0 != "card"@ by {
        if i < general.len() {
            assert(general[i].0 == "customer"@ || general[i].0 == "payment_method"@ || general[i].0
                == "type"@);
        } else {
            assert(body[i] == card_fields(params.card)[i - general.len()]);
        }
    }
}

/// Updating with a card sends one flat form: the general fields, then the four
/// card fields beside them, and no field named `card`.
pub proof fn lemma_update_with_card_body_is_flat(params: UpdatePaymentMethodWithCard)
    ensures
        ({
            let general = update_fields(params.update_payment_method);
            let body = update_with_card_body(params);
            &&& body.take(general.len() as int) == general
            &&& body.skip(general.len() as int) == card_fields(params.card)
            &&& field_names(body.skip(general.len() as int)) == card_field_names()
            &&& forall|i: int| 0 <= i < body.len() ==> (#[trigger] body[i]).0 != "card"@
        }),
{
    let general = update_fields(params.update_payment_method);
    let body = update_with_card_body(params);
    lemma_card_fields_not_card(params.card);
    assert(body.take(general.len() as int) =~= general);
    assert(body.skip(general.len() as int) =~= card_fields(params.card));
    reveal_strlit("metadata[");
    reveal_strlit("card");
    assert forall|i: int| 0 <= i < body.len() implies (#[trigger] body[i]).0 != "card"@ by {
        if i < general.len() {
            let e = params.update_payment_method.metadata@[i];
            assert(general[i] == metadata_field(e));
            assert(("metadata["@ + e.0@ + "]"@)[0] == 'm');
        } else {
            assert(body[i] == card_fields(params.card)[i - general.len()]);
        }
    }
}

} // verus!
