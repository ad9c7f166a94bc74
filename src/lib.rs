//! Requests on stored payment methods: attaching one to a customer, detaching
//! it, and creating or updating one from card data. Each operation builds the
//! one request that a transport sends; the transport's reply is handed back
//! unchanged.
pub mod form;
pub mod ids;
pub mod payment_method;
pub mod request;

pub use form::{to_decimal, Form};
pub use ids::{check_id, CustomerId, PaymentMethodId};
pub use payment_method::{
    AttachPaymentMethod, CreatePaymentMethod, CreatePaymentMethodWithCard, PaymentCard,
    PaymentMethod, PaymentMethodTypeFilter, UpdatePaymentMethod, UpdatePaymentMethodWithCard,
};
pub use request::{Body, ClientError, Method, Request, Response};
