//! Payouts (v3): checking a PayPal webhook's headers and deciding what a
//! cancellation does.
use vstd::prelude::*;
use crate::models::ids::UserId;
use crate::routes::ApiError;
use crate::util::text::str_eq;

verus! {

broadcast use vstd::string::group_string_axioms;

/// The headers PayPal signs a webhook with, in the order they are checked:
/// auth algorithm, certificate address, transmission id, transmission
/// signature, transmission time.
pub struct PaypalHeaders {
    pub auth_algo: String,
    pub cert_url: String,
    pub transmission_id: String,
    pub transmission_sig: String,
    pub transmission_time: String,
}

/// The headers of a PayPal webhook; each is `None` when missing or not text.
/// The first one missing is reported.
pub fn paypal_headers(
    auth_algo: Option<&str>,
    cert_url: Option<&str>,
    transmission_id: Option<&str>,
    transmission_sig: Option<&str>,
    transmission_time: Option<&str>,
) -> (r: Result<PaypalHeaders, ApiError>)
    ensures
        r is Ok <==> (auth_algo is Some && cert_url is Some && transmission_id is Some && transmission_sig is Some
            && transmission_time is Some),
        r matches Ok(h) ==> h.auth_algo@ == auth_algo->0@ && h.cert_url@ == cert_url->0@
            && h.transmission_id@ == transmission_id->0@ && h.transmission_sig@ == transmission_sig->0@
            && h.transmission_time@ == transmission_time->0@,
        auth_algo is None ==> (r matches Err(ApiError::InvalidInput(m)) && m@ == "missing auth algo"@),
        auth_algo is Some && cert_url is None ==> (r matches Err(ApiError::InvalidInput(m)) && m@ == "missing cert url"@),
        auth_algo is Some && cert_url is Some && transmission_id is None ==> (r matches Err(ApiError::InvalidInput(m))
            && m@ == "missing transmission ID"@),
        auth_algo is Some && cert_url is Some && transmission_id is Some && transmission_sig is None ==>
            (r matches Err(ApiError::InvalidInput(m)) && m@ == "missing transmission sig"@),
        auth_algo is Some && cert_url is Some && transmission_id is Some && transmission_sig is Some
            && transmission_time is None ==> (r matches Err(ApiError::InvalidInput(m)) && m@ == "missing transmission time"@),
{
    let auth_algo = match auth_algo {
        None => return Err(ApiError::InvalidInput("missing auth algo".to_owned())),
        Some(x) => x,
    };
    let cert_url = match cert_url {
        None => return Err(ApiError::InvalidInput("missing cert url".to_owned())),
        Some(x) => x,
    };
    let transmission_id = match transmission_id {
        None => return Err(ApiError::InvalidInput("missing transmission ID".to_owned())),
        Some(x) => x,
    };
    let transmission_sig = match transmission_sig {
        None => return Err(ApiError::InvalidInput("missing transmission sig".to_owned())),
        Some(x) => x,
    };
    let transmission_time = match transmission_time {
        None => return Err(ApiError::InvalidInput("missing transmission time".to_owned())),
        Some(x) => x,
    };
    Ok(PaypalHeaders {
        auth_algo: auth_algo.to_owned(),
        cert_url: cert_url.to_owned(),
        transmission_id: transmission_id.to_owned(),
        transmission_sig: transmission_sig.to_owned(),
        transmission_time: transmission_time.to_owned(),
    })
}

/// A webhook is accepted only when PayPal reports its signature verified.
pub fn check_webhook_verification(verification_status: &str) -> (r: Result<(), ApiError>)
    ensures
        r is Ok <==> verification_status@ == "SUCCESS"@,
        r is Err ==> (r matches Err(ApiError::InvalidInput(m)) && m@ == "Invalid webhook signature"@),
{
    if !str_eq(verification_status, "SUCCESS") {
        return Err(ApiError::InvalidInput("Invalid webhook signature".to_owned()));
    }
    Ok(())
}

/// How a payout was sent.
#[derive(Debug, Clone, Copy, PartialEq, Eq, Structural)]
pub enum PayoutMethod {
    Venmo,
    PayPal,
    Tremendous,
    Unknown,
}

/// What cancelling a payout does.
pub enum CancelPlan {
    /// The payout is not shown to the user.
    NotFound,
    /// Ask PayPal to cancel the payout item at this path.
    CancelAtPaypal(String),
    /// Nothing is done (the platform offers no cancellation here).
    Nothing,
}

/// What cancelling a payout does: hidden from users other than its owner
/// and admins; a payout that was never sent, was sent by an unknown method,
/// or already succeeded cannot be cancelled; PayPal and Venmo payouts are
/// cancelled at PayPal.
pub fn plan_payout_cancel(
    owner: UserId,
    user: UserId,
    user_is_admin: bool,
    platform_id: Option<&str>,
    method: Option<PayoutMethod>,
    succeeded: bool,
) -> (r: Result<CancelPlan, ApiError>)
    ensures
        owner != user && !user_is_admin ==> r matches Ok(CancelPlan::NotFound),
        (owner == user || user_is_admin) ==> match (platform_id, method) {
            (Some(p), Some(m)) => if succeeded || m == PayoutMethod::Unknown {
                r matches Err(ApiError::InvalidInput(e)) && e@ == "Payout cannot be cancelled!"@
            } else if m == PayoutMethod::Tremendous {
                r matches Ok(CancelPlan::Nothing)
            } else {
                r matches Ok(CancelPlan::CancelAtPaypal(path)) && path@ == "payments/payouts-item/"@ + p@ + "/cancel"@
            },
            _ => r matches Err(ApiError::InvalidInput(e)) && e@ == "Payout cannot be cancelled!"@,
        },
{
    if owner.0 != user.0 && !user_is_admin {
        return Ok(CancelPlan::NotFound);
    }
    let p = match platform_id {
        None => return Err(ApiError::InvalidInput("Payout cannot be cancelled!".to_owned())),
        Some(p) => p,
    };
    let m = match method {
        None => return Err(ApiError::InvalidInput("Payout cannot be cancelled!".to_owned())),
        Some(m) => m,
    };
    if succeeded {
        return Err(ApiError::InvalidInput("Payout cannot be cancelled!".to_owned()));
    }
    match m {
        PayoutMethod::Venmo | PayoutMethod::PayPal => {
            let mut path = "payments/payouts-item/".to_owned();
            path.append(p);
            path.append("/cancel");
            Ok(CancelPlan::CancelAtPaypal(path))
        },
        PayoutMethod::Tremendous => Ok(CancelPlan::Nothing),
        PayoutMethod::Unknown => Err(ApiError::InvalidInput("Payout cannot be cancelled!".to_owned())),
    }
}

} // verus!
