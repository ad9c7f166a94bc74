use payment_methods::{
    check_id, to_decimal, AttachPaymentMethod, Body, ClientError, CreatePaymentMethod,
    CreatePaymentMethodWithCard, CustomerId, Form, Method, PaymentCard, PaymentMethod,
    PaymentMethodId, PaymentMethodTypeFilter, Request, Response, UpdatePaymentMethod,
    UpdatePaymentMethodWithCard,
};

fn pm_id(s: &str) -> PaymentMethodId {
    PaymentMethodId::new(s).unwrap()
}

fn cus_id(s: &str) -> CustomerId {
    CustomerId::new(s).unwrap()
}

fn card() -> PaymentCard {
    PaymentCard { exp_year: 2030, exp_month: 7, number: "4242424242424242".to_string(), cvc: 314 }
}

fn fields(r: &Request) -> Vec<(String, String)> {
    match &r.body {
        Body::Form(f) => f.fields.clone(),
        Body::Empty => panic!("expected a form body"),
    }
}

fn pairs(p: &[(&str, &str)]) -> Vec<(String, String)> {
    p.iter().map(|(k, v)| (k.to_string(), v.to_string())).collect()
}

fn stored() -> PaymentMethod {
    PaymentMethod {
        id: pm_id("pm_123"),
        customer: Some(cus_id("cus_9")),
        type_: PaymentMethodTypeFilter::Card,
    }
}

fn mock_ok(_r: &Request) -> Response<PaymentMethod> {
    Ok(stored())
}

fn api_error() -> ClientError {
    ClientError::Api {
        status: 402,
        code: Some("card_declined".to_string()),
        message: "Your card was declined.".to_string(),
    }
}

fn mock_err(_r: &Request) -> Response<PaymentMethod> {
    Err(api_error())
}

fn all_four() -> Vec<Request> {
    vec![
        PaymentMethod::attach(&pm_id("pm_1"), AttachPaymentMethod { customer: cus_id("cus_1") }),
        PaymentMethod::detach(&pm_id("pm_1")),
        PaymentMethod::create_with_card(CreatePaymentMethodWithCard {
            create_payment_method: CreatePaymentMethod {
                customer: None,
                payment_method: None,
                type_: None,
            },
            card: card(),
        }),
        PaymentMethod::update_with_card(
            &pm_id("pm_1"),
            UpdatePaymentMethodWithCard {
                update_payment_method: UpdatePaymentMethod { metadata: vec![] },
                card: card(),
            },
        ),
    ]
}

#[test]
fn attach_posts_customer_to_attach_path() {
    let r = PaymentMethod::attach(&pm_id("pm_1AbC"), AttachPaymentMethod { customer: cus_id("cus_42") });
    assert_eq!(r.method, Method::Post);
    assert_eq!(r.path, "/payment_methods/pm_1AbC/attach");
    assert_eq!(fields(&r), pairs(&[("customer", "cus_42")]));
}

#[test]
fn detach_posts_empty_body_to_detach_path() {
    let r = PaymentMethod::detach(&pm_id("pm_77"));
    assert_eq!(r.method, Method::Post);
    assert_eq!(r.path, "/payment_methods/pm_77/detach");
    assert_eq!(r.body, Body::Empty);
}

#[test]
fn create_with_card_overrides_sepa_debit_type() {
    let params = CreatePaymentMethodWithCard {
        create_payment_method: CreatePaymentMethod {
            customer: Some(cus_id("cus_5")),
            payment_method: None,
            type_: Some(PaymentMethodTypeFilter::SepaDebit),
        },
        card: card(),
    };
    let r = PaymentMethod::create_with_card(params);
    assert_eq!(r.method, Method::Post);
    assert_eq!(r.path, "/payment_methods");
    let f = fields(&r);
    let types: Vec<&(String, String)> = f.iter().filter(|(k, _)| k == "type").collect();
    assert_eq!(types.len(), 1);
    assert_eq!(types[0].1, "card");
}

#[test]
fn create_with_card_sets_type_when_absent() {
    let params = CreatePaymentMethodWithCard {
        create_payment_method: CreatePaymentMethod {
            customer: None,
            payment_method: None,
            type_: None,
        },
        card: card(),
    };
    let r = PaymentMethod::create_with_card(params);
    assert_eq!(
        fields(&r),
        pairs(&[
            ("type", "card"),
            ("exp_year", "2030"),
            ("exp_month", "7"),
            ("number", "4242424242424242"),
            ("cvc", "314"),
        ])
    );
}

#[test]
fn create_with_card_body_is_flat() {
    let params = CreatePaymentMethodWithCard {
        create_payment_method: CreatePaymentMethod {
            customer: Some(cus_id("cus_5")),
            payment_method: Some(pm_id("pm_src")),
            type_: Some(PaymentMethodTypeFilter::Card),
        },
        card: card(),
    };
    let r = PaymentMethod::create_with_card(params);
    assert_eq!(
        fields(&r),
        pairs(&[
            ("customer", "cus_5"),
            ("payment_method", "pm_src"),
            ("type", "card"),
            ("exp_year", "2030"),
            ("exp_month", "7"),
            ("number", "4242424242424242"),
            ("cvc", "314"),
        ])
    );
    assert!(fields(&r).iter().all(|(k, _)| k != "card" && !k.starts_with("card[")));
}

#[test]
fn update_with_card_body_is_flat() {
    let params = UpdatePaymentMethodWithCard {
        update_payment_method: UpdatePaymentMethod {
            metadata: vec![("order".to_string(), "6735".to_string()), ("note".to_string(), "x y".to_string())],
        },
        card: PaymentCard { exp_year: 2031, exp_month: 12, number: "5555".to_string(), cvc: 0 },
    };
    let r = PaymentMethod::update_with_card(&pm_id("pm_9"), params);
    assert_eq!(r.method, Method::Post);
    assert_eq!(r.path, "/payment_methods/pm_9");
    assert_eq!(
        fields(&r),
        pairs(&[
            ("metadata[order]", "6735"),
            ("metadata[note]", "x y"),
            ("exp_year", "2031"),
            ("exp_month", "12"),
            ("number", "5555"),
            ("cvc", "0"),
        ])
    );
}

#[test]
fn update_with_card_does_not_add_type() {
    let params = UpdatePaymentMethodWithCard {
        update_payment_method: UpdatePaymentMethod { metadata: vec![] },
        card: card(),
    };
    let r = PaymentMethod::update_with_card(&pm_id("pm_9"), params);
    assert!(fields(&r).iter().all(|(k, _)| k != "type"));
    assert_eq!(fields(&r).len(), 4);
}

#[test]
fn each_operation_returns_the_transport_value() {
    for r in all_four() {
        let reply = mock_ok(&r);
        assert_eq!(r.complete(reply), Ok(stored()));
    }
}

#[test]
fn each_operation_propagates_the_transport_error() {
    for r in all_four() {
        let reply = mock_err(&r);
        assert_eq!(r.complete(reply), Err(api_error()));
    }
}

#[test]
fn transport_and_decode_errors_pass_unchanged() {
    let r = PaymentMethod::detach(&pm_id("pm_1"));
    let e = ClientError::Transport("connection reset".to_string());
    assert_eq!(r.clone().complete::<PaymentMethod>(Err(e.clone())), Err(e));
    let d = ClientError::Decode("missing field `id`".to_string());
    assert_eq!(r.complete::<PaymentMethod>(Err(d.clone())), Err(d));
}

#[test]
fn ids_accept_path_safe_text_only() {
    assert!(check_id("pm_1AbC-x.y~z"));
    assert!(!check_id(""));
    assert!(!check_id("pm/1"));
    assert!(!check_id("pm 1"));
    assert!(!check_id("pm?x=1"));
    assert!(!check_id("pé"));
    assert!(PaymentMethodId::new("a/b").is_none());
    assert!(CustomerId::new("").is_none());
    assert_eq!(pm_id("pm_1").as_str(), "pm_1");
    assert_eq!(cus_id("cus_1").clone().into_string(), "cus_1");
}

#[test]
fn decimal_writing() {
    assert_eq!(to_decimal(0), "0");
    assert_eq!(to_decimal(9), "9");
    assert_eq!(to_decimal(10), "10");
    assert_eq!(to_decimal(65535), "65535");
    assert_eq!(to_decimal(u64::MAX), "18446744073709551615");
}

#[test]
fn form_keeps_order() {
    let mut a = Form::new();
    a.push("x", "1".to_string());
    let mut b = Form::new();
    b.push("y", "2".to_string());
    b.push("z", "3".to_string());
    a.extend(b);
    assert_eq!(a.fields, pairs(&[("x", "1"), ("y", "2"), ("z", "3")]));
}

#[test]
fn type_names() {
    assert_eq!(PaymentMethodTypeFilter::Card.as_str(), "card");
    assert_eq!(PaymentMethodTypeFilter::SepaDebit.as_str(), "sepa_debit");
    assert_eq!(PaymentMethodTypeFilter::UsBankAccount.as_str(), "us_bank_account");
}
