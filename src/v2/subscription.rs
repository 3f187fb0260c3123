//! Subscriptions to the products of a universe.
use crate::http::{get_request, key_headers, HttpMethod, Request};
use crate::text::{concat, decimal, pairs, push_pair};
use crate::types::UniverseId;
use crate::error::{malformed, Error};
use crate::json::{
    json_bool_at, json_bool_field, json_str_at, json_str_field, json_sub_at, json_sub_text,
};
use crate::text::str_eq;
use vstd::prelude::*;
use vstd::string::*;

verus! {

/// How much of a subscription to read.
#[derive(Debug, Clone, Copy, PartialEq, Eq, Structural)]
pub enum SubscriptionView {
    Basic,
    Full,
}

/// The text of a view as it is sent: its name in capitals, in double
/// quotes, as the view's debug form of its name writes it.
pub open spec fn view_text(v: SubscriptionView) -> Seq<char> {
    match v {
        SubscriptionView::Basic => "\"BASIC\""@,
        SubscriptionView::Full => "\"FULL\""@,
    }
}

impl SubscriptionView {
    /// The text of the view as it is sent.
    pub fn to_string(&self) -> (r: String)
        ensures
            r@ == view_text(*self),
    {
        match self {
            SubscriptionView::Basic => String::from_str("\"BASIC\""),
            SubscriptionView::Full => String::from_str("\"FULL\""),
        }
    }
}

/// Parameters of reading a subscription.
pub struct GetSubscriptionParams {
    pub api_key: String,
    pub universe_id: UniverseId,
    pub subscription_product: String,
    pub subscription: String,
    pub view: Option<SubscriptionView>,
}

/// The URL of a subscription product of a universe.
pub open spec fn subscription_url(universe_id: UniverseId, product: Seq<char>) -> Seq<char> {
    "https://apis.roblox.com/cloud/v2/universes/"@ + decimal(universe_id.0 as nat)
        + "/subscription-products/"@ + product
}

/// The request that reads a subscription.
pub fn get_subscription(params: &GetSubscriptionParams) -> (r: Request)
    ensures
        r.method == HttpMethod::Get,
        r.url@ == subscription_url(params.universe_id, params.subscription_product@),
        pairs(r.headers@) == key_headers(params.api_key@),
        pairs(r.query@) == match params.view {
            Some(v) => seq![("view"@, view_text(v))],
            None => seq![],
        },
        r.body is Empty,
{
    let u = params.universe_id.to_string();
    let mut url = concat("https://apis.roblox.com/cloud/v2/universes/", u.as_str());
    url.append("/subscription-products/");
    url.append(params.subscription_product.as_str());
    let mut q: Vec<(String, String)> = Vec::new();
    match params.view {
        Some(v) => push_pair(&mut q, "view", v.to_string()),
        None => {},
    }
    assert(pairs(q@) =~= match params.view {
        Some(v) => seq![("view"@, view_text(v))],
        None => seq![],
    });
    get_request(&params.api_key, url, q)
}

/// The state of a subscription.
#[derive(Debug, Clone, Copy, PartialEq, Eq, Structural)]
pub enum SubscriptionState {
    StateUnspecified,
    SubscribedWillRenew,
    SubscribedWillNotRenew,
    SubscribedRenewalPaymentPending,
    Expired,
}

/// The name of a [`SubscriptionState`] in a JSON body.
pub open spec fn subscription_state_name(v: SubscriptionState) -> Seq<char> {
    match v {
        SubscriptionState::StateUnspecified => "STATE_UNSPECIFIED"@,
        SubscriptionState::SubscribedWillRenew => "SUBSCRIBED_WILL_RENEW"@,
        SubscriptionState::SubscribedWillNotRenew => "SUBSCRIBED_WILL_NOT_RENEW"@,
        SubscriptionState::SubscribedRenewalPaymentPending => "SUBSCRIBED_RENEWAL_PAYMENT_PENDING"@,
        SubscriptionState::Expired => "EXPIRED"@,
    }
}

impl SubscriptionState {
    /// The value that `s` names, if any.
    pub fn from_name(s: &str) -> (r: Option<SubscriptionState>)
        ensures
            match r {
                Some(x) => subscription_state_name(x) == s@,
                None => forall|x: SubscriptionState| subscription_state_name(x) != s@,
            },
    {
        if str_eq(s, "STATE_UNSPECIFIED") {
            return Some(SubscriptionState::StateUnspecified);
        }
        if str_eq(s, "SUBSCRIBED_WILL_RENEW") {
            return Some(SubscriptionState::SubscribedWillRenew);
        }
        if str_eq(s, "SUBSCRIBED_WILL_NOT_RENEW") {
            return Some(SubscriptionState::SubscribedWillNotRenew);
        }
        if str_eq(s, "SUBSCRIBED_RENEWAL_PAYMENT_PENDING") {
            return Some(SubscriptionState::SubscribedRenewalPaymentPending);
        }
        if str_eq(s, "EXPIRED") {
            return Some(SubscriptionState::Expired);
        }
        proof {
            reveal_strlit("STATE_UNSPECIFIED");
            reveal_strlit("SUBSCRIBED_WILL_RENEW");
            reveal_strlit("SUBSCRIBED_WILL_NOT_RENEW");
            reveal_strlit("SUBSCRIBED_RENEWAL_PAYMENT_PENDING");
            reveal_strlit("EXPIRED");
        }
        assert forall|x: SubscriptionState| subscription_state_name(x) != s@ by {
            match x {
                SubscriptionState::StateUnspecified => {},
                SubscriptionState::SubscribedWillRenew => {},
                SubscriptionState::SubscribedWillNotRenew => {},
                SubscriptionState::SubscribedRenewalPaymentPending => {},
                SubscriptionState::Expired => {},
            }
        }
        None
    }
}

/// Why a subscription expired.
#[derive(Debug, Clone, Copy, PartialEq, Eq, Structural)]
pub enum SubscriptionExpirationReason {
    ExpirationReasonUnspecified,
    ProductInactive,
    ProductDeleted,
    SubscriberCancelled,
    SubscriberRefunded,
    Lapsed,
}

/// The name of a [`SubscriptionExpirationReason`] in a JSON body.
pub open spec fn subscription_expiration_reason_name(v: SubscriptionExpirationReason) -> Seq<char> {
    match v {
        SubscriptionExpirationReason::ExpirationReasonUnspecified => "EXPIRATION_REASON_UNSPECIFIED"@,
        SubscriptionExpirationReason::ProductInactive => "PRODUCT_INACTIVE"@,
        SubscriptionExpirationReason::ProductDeleted => "PRODUCT_DELETED"@,
        SubscriptionExpirationReason::SubscriberCancelled => "SUBSCRIBER_CANCELLED"@,
        SubscriptionExpirationReason::SubscriberRefunded => "SUBSCRIBER_REFUNDED"@,
        SubscriptionExpirationReason::Lapsed => "LAPSED"@,
    }
}

impl SubscriptionExpirationReason {
    /// The value that `s` names, if any.
    pub fn from_name(s: &str) -> (r: Option<SubscriptionExpirationReason>)
        ensures
            match r {
                Some(x) => subscription_expiration_reason_name(x) == s@,
                None => forall|x: SubscriptionExpirationReason| subscription_expiration_reason_name(x) != s@,
            },
    {
        if str_eq(s, "EXPIRATION_REASON_UNSPECIFIED") {
            return Some(SubscriptionExpirationReason::ExpirationReasonUnspecified);
        }
        if str_eq(s, "PRODUCT_INACTIVE") {
            return Some(SubscriptionExpirationReason::ProductInactive);
        }
        if str_eq(s, "PRODUCT_DELETED") {
            return Some(SubscriptionExpirationReason::ProductDeleted);
        }
        if str_eq(s, "SUBSCRIBER_CANCELLED") {
            return Some(SubscriptionExpirationReason::SubscriberCancelled);
        }
        if str_eq(s, "SUBSCRIBER_REFUNDED") {
            return Some(SubscriptionExpirationReason::SubscriberRefunded);
        }
        if str_eq(s, "LAPSED") {
            return Some(SubscriptionExpirationReason::Lapsed);
        }
        proof {
            reveal_strlit("EXPIRATION_REASON_UNSPECIFIED");
            reveal_strlit("PRODUCT_INACTIVE");
            reveal_strlit("PRODUCT_DELETED");
            reveal_strlit("SUBSCRIBER_CANCELLED");
            reveal_strlit("SUBSCRIBER_REFUNDED");
            reveal_strlit("LAPSED");
        }
        assert forall|x: SubscriptionExpirationReason| subscription_expiration_reason_name(x) != s@ by {
            match x {
                SubscriptionExpirationReason::ExpirationReasonUnspecified => {},
                SubscriptionExpirationReason::ProductInactive => {},
                SubscriptionExpirationReason::ProductDeleted => {},
                SubscriptionExpirationReason::SubscriberCancelled => {},
                SubscriptionExpirationReason::SubscriberRefunded => {},
                SubscriptionExpirationReason::Lapsed => {},
            }
        }
        None
    }
}

/// Where a subscription was bought.
#[derive(Debug, Clone, Copy, PartialEq, Eq, Structural)]
pub enum SubscriptionPurchasePlatform {
    PurchasePlatformUnspecified,
    Desktop,
    Mobile,
}

/// The name of a [`SubscriptionPurchasePlatform`] in a JSON body.
pub open spec fn subscription_purchase_platform_name(v: SubscriptionPurchasePlatform) -> Seq<char> {
    match v {
        SubscriptionPurchasePlatform::PurchasePlatformUnspecified => "PURCHASE_PLATFORM_UNSPECIFIED"@,
        SubscriptionPurchasePlatform::Desktop => "DESKTOP"@,
        SubscriptionPurchasePlatform::Mobile => "MOBILE"@,
    }
}

impl SubscriptionPurchasePlatform {
    /// The value that `s` names, if any.
    pub fn from_name(s: &str) -> (r: Option<SubscriptionPurchasePlatform>)
        ensures
            match r {
                Some(x) => subscription_purchase_platform_name(x) == s@,
                None => forall|x: SubscriptionPurchasePlatform| subscription_purchase_platform_name(x) != s@,
            },
    {
        if str_eq(s, "PURCHASE_PLATFORM_UNSPECIFIED") {
            return Some(SubscriptionPurchasePlatform::PurchasePlatformUnspecified);
        }
        if str_eq(s, "DESKTOP") {
            return Some(SubscriptionPurchasePlatform::Desktop);
        }
        if str_eq(s, "MOBILE") {
            return Some(SubscriptionPurchasePlatform::Mobile);
        }
        proof {
            reveal_strlit("PURCHASE_PLATFORM_UNSPECIFIED");
            reveal_strlit("DESKTOP");
            reveal_strlit("MOBILE");
        }
        assert forall|x: SubscriptionPurchasePlatform| subscription_purchase_platform_name(x) != s@ by {
            match x {
                SubscriptionPurchasePlatform::PurchasePlatformUnspecified => {},
                SubscriptionPurchasePlatform::Desktop => {},
                SubscriptionPurchasePlatform::Mobile => {},
            }
        }
        None
    }
}

/// Who took the payment of a subscription.
#[derive(Debug, Clone, Copy, PartialEq, Eq, Structural)]
pub enum SubscriptionPaymentProvider {
    PaymentProviderUnspecified,
    Stripe,
    Apple,
    Google,
    RobloxCredit,
}

/// The name of a [`SubscriptionPaymentProvider`] in a JSON body.
pub open spec fn subscription_payment_provider_name(v: SubscriptionPaymentProvider) -> Seq<char> {
    match v {
        SubscriptionPaymentProvider::PaymentProviderUnspecified => "PAYMENT_PROVIDER_UNSPECIFIED"@,
        SubscriptionPaymentProvider::Stripe => "STRIPE"@,
        SubscriptionPaymentProvider::Apple => "APPLE"@,
        SubscriptionPaymentProvider::Google => "GOOGLE"@,
        SubscriptionPaymentProvider::RobloxCredit => "ROBLOX_CREDIT"@,
    }
}

impl SubscriptionPaymentProvider {
    /// The value that `s` names, if any.
    pub fn from_name(s: &str) -> (r: Option<SubscriptionPaymentProvider>)
        ensures
            match r {
                Some(x) => subscription_payment_provider_name(x) == s@,
                None => forall|x: SubscriptionPaymentProvider| subscription_payment_provider_name(x) != s@,
            },
    {
        if str_eq(s, "PAYMENT_PROVIDER_UNSPECIFIED") {
            return Some(SubscriptionPaymentProvider::PaymentProviderUnspecified);
        }
        if str_eq(s, "STRIPE") {
            return Some(SubscriptionPaymentProvider::Stripe);
        }
        if str_eq(s, "APPLE") {
            return Some(SubscriptionPaymentProvider::Apple);
        }
        if str_eq(s, "GOOGLE") {
            return Some(SubscriptionPaymentProvider::Google);
        }
        if str_eq(s, "ROBLOX_CREDIT") {
            return Some(SubscriptionPaymentProvider::RobloxCredit);
        }
        proof {
            reveal_strlit("PAYMENT_PROVIDER_UNSPECIFIED");
            reveal_strlit("STRIPE");
            reveal_strlit("APPLE");
            reveal_strlit("GOOGLE");
            reveal_strlit("ROBLOX_CREDIT");
        }
        assert forall|x: SubscriptionPaymentProvider| subscription_payment_provider_name(x) != s@ by {
            match x {
                SubscriptionPaymentProvider::PaymentProviderUnspecified => {},
                SubscriptionPaymentProvider::Stripe => {},
                SubscriptionPaymentProvider::Apple => {},
                SubscriptionPaymentProvider::Google => {},
                SubscriptionPaymentProvider::RobloxCredit => {},
            }
        }
        None
    }
}

/// Details of an expiration.
#[derive(Debug, Clone)]
pub struct SubscriptionExpirationDetails {
    pub reason: SubscriptionExpirationReason,
}

/// `body` has the JSON shape of a [`SubscriptionExpirationDetails`].
pub open spec fn subscription_expiration_details_parses(body: Seq<char>) -> bool {
    &&& json_str_at(body, "reason"@) matches Some(s) && exists|x: SubscriptionExpirationReason| #[trigger] subscription_expiration_reason_name(x) == s
}

/// `body` is the JSON form of `v`.
pub open spec fn subscription_expiration_details_matches(body: Seq<char>, v: SubscriptionExpirationDetails) -> bool {
    &&& json_str_at(body, "reason"@) == Some(subscription_expiration_reason_name(v.reason))
}

impl SubscriptionExpirationDetails {
    /// Reads a [`SubscriptionExpirationDetails`] out of a JSON body; fails exactly when the body
    /// does not have its shape.
    pub fn decode(body: &str) -> (r: Result<SubscriptionExpirationDetails, Error>)
        ensures
            subscription_expiration_details_parses(body@) <==> r is Ok,
            r matches Ok(v) ==> subscription_expiration_details_matches(body@, v),
            r matches Err(e) ==> e is SerdeJsonError,
    {
        let reason = match json_str_field(body, "reason") {
            Some(s) => match SubscriptionExpirationReason::from_name(s.as_str()) {
                Some(x) => x,
                None => {
                    return Err(malformed("SubscriptionExpirationDetails"));
                },
            },
            None => {
                return Err(malformed("SubscriptionExpirationDetails"));
            },
        };
        Ok(SubscriptionExpirationDetails { reason })
    }
}

/// A subscription.
#[derive(Debug, Clone)]
pub struct GetSubscriptionResponse {
    pub path: String,
    pub create_time: String,
    pub update_time: String,
    pub active: bool,
    pub will_renew: bool,
    pub last_billing_time: String,
    pub next_renew_time: String,
    pub expire_time: String,
    pub state: SubscriptionState,
    pub expiration_details: SubscriptionExpirationDetails,
    pub purchase_platform: SubscriptionPurchasePlatform,
    pub payment_provider: SubscriptionPaymentProvider,
    pub user: String,
}

/// `body` has the JSON shape of a [`GetSubscriptionResponse`].
pub open spec fn get_subscription_response_parses(body: Seq<char>) -> bool {
    &&& json_str_at(body, "path"@) is Some
    &&& json_str_at(body, "createTime"@) is Some
    &&& json_str_at(body, "updateTime"@) is Some
    &&& json_bool_at(body, "active"@) is Some
    &&& json_bool_at(body, "willRenew"@) is Some
    &&& json_str_at(body, "lastBillingTime"@) is Some
    &&& json_str_at(body, "nextRenewTime"@) is Some
    &&& json_str_at(body, "expireTime"@) is Some
    &&& json_str_at(body, "state"@) matches Some(s) && exists|x: SubscriptionState| #[trigger] subscription_state_name(x) == s
    &&& json_sub_at(body, "expirationDetails"@) matches Some(t) && subscription_expiration_details_parses(t)
    &&& json_str_at(body, "purchasePlatform"@) matches Some(s) && exists|x: SubscriptionPurchasePlatform| #[trigger] subscription_purchase_platform_name(x) == s
    &&& json_str_at(body, "paymentProvider"@) matches Some(s) && exists|x: SubscriptionPaymentProvider| #[trigger] subscription_payment_provider_name(x) == s
    &&& json_str_at(body, "user"@) is Some
}

/// `body` is the JSON form of `v`.
pub open spec fn get_subscription_response_matches(body: Seq<char>, v: GetSubscriptionResponse) -> bool {
    &&& json_str_at(body, "path"@) == Some(v.path@)
    &&& json_str_at(body, "createTime"@) == Some(v.create_time@)
    &&& json_str_at(body, "updateTime"@) == Some(v.update_time@)
    &&& json_bool_at(body, "active"@) == Some(v.active)
    &&& json_bool_at(body, "willRenew"@) == Some(v.will_renew)
    &&& json_str_at(body, "lastBillingTime"@) == Some(v.last_billing_time@)
    &&& json_str_at(body, "nextRenewTime"@) == Some(v.next_renew_time@)
    &&& json_str_at(body, "expireTime"@) == Some(v.expire_time@)
    &&& json_str_at(body, "state"@) == Some(subscription_state_name(v.state))
    &&& json_sub_at(body, "expirationDetails"@) matches Some(t) && subscription_expiration_details_matches(t, v.expiration_details)
    &&& json_str_at(body, "purchasePlatform"@) == Some(subscription_purchase_platform_name(v.purchase_platform))
    &&& json_str_at(body, "paymentProvider"@) == Some(subscription_payment_provider_name(v.payment_provider))
    &&& json_str_at(body, "user"@) == Some(v.user@)
}

impl GetSubscriptionResponse {
    /// Reads a [`GetSubscriptionResponse`] out of a JSON body; fails exactly when the body
    /// does not have its shape.
    pub fn decode(body: &str) -> (r: Result<GetSubscriptionResponse, Error>)
        ensures
            get_subscription_response_parses(body@) <==> r is Ok,
            r matches Ok(v) ==> get_subscription_response_matches(body@, v),
            r matches Err(e) ==> e is SerdeJsonError,
    {
        let path = match json_str_field(body, "path") {
            Some(x) => x,
            None => {
                return Err(malformed("GetSubscriptionResponse"));
            },
        };
        let create_time = match json_str_field(body, "createTime") {
            Some(x) => x,
            None => {
                return Err(malformed("GetSubscriptionResponse"));
            },
        };
        let update_time = match json_str_field(body, "updateTime") {
            Some(x) => x,
            None => {
                return Err(malformed("GetSubscriptionResponse"));
            },
        };
        let active = match json_bool_field(body, "active") {
            Some(x) => x,
            None => {
                return Err(malformed("GetSubscriptionResponse"));
            },
        };
        let will_renew = match json_bool_field(body, "willRenew") {
            Some(x) => x,
            None => {
                return Err(malformed("GetSubscriptionResponse"));
            },
        };
        let last_billing_time = match json_str_field(body, "lastBillingTime") {
            Some(x) => x,
            None => {
                return Err(malformed("GetSubscriptionResponse"));
            },
        };
        let next_renew_time = match json_str_field(body, "nextRenewTime") {
            Some(x) => x,
            None => {
                return Err(malformed("GetSubscriptionResponse"));
            },
        };
        let expire_time = match json_str_field(body, "expireTime") {
            Some(x) => x,
            None => {
                return Err(malformed("GetSubscriptionResponse"));
            },
        };
        let state = match json_str_field(body, "state") {
            Some(s) => match SubscriptionState::from_name(s.as_str()) {
                Some(x) => x,
                None => {
                    return Err(malformed("GetSubscriptionResponse"));
                },
            },
            None => {
                return Err(malformed("GetSubscriptionResponse"));
            },
        };
        let expiration_details = match json_sub_text(body, "expirationDetails") {
            Some(t) => match SubscriptionExpirationDetails::decode(t.as_str()) {
                Ok(x) => x,
                Err(e) => {
                    return Err(e);
                },
            },
            None => {
                return Err(malformed("GetSubscriptionResponse"));
            },
        };
        let purchase_platform = match json_str_field(body, "purchasePlatform") {
            Some(s) => match SubscriptionPurchasePlatform::from_name(s.as_str()) {
                Some(x) => x,
                None => {
                    return Err(malformed("GetSubscriptionResponse"));
                },
            },
            None => {
                return Err(malformed("GetSubscriptionResponse"));
            },
        };
        let payment_provider = match json_str_field(body, "paymentProvider") {
            Some(s) => match SubscriptionPaymentProvider::from_name(s.as_str()) {
                Some(x) => x,
                None => {
                    return Err(malformed("GetSubscriptionResponse"));
                },
            },
            None => {
                return Err(malformed("GetSubscriptionResponse"));
            },
        };
        let user = match json_str_field(body, "user") {
            Some(x) => x,
            None => {
                return Err(malformed("GetSubscriptionResponse"));
            },
        };
        Ok(GetSubscriptionResponse { path, create_time, update_time, active, will_renew, last_billing_time, next_renew_time, expire_time, state, expiration_details, purchase_platform, payment_provider, user })
    }
}

} // verus!
