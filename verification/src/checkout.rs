//! The payment endpoints' rules: which provider and method a request names,
//! and how a provider-independent outcome becomes the endpoint's answer.
use crate::errors::{is_bad_request, is_payment_error, AppError};
use crate::payment::{
    AlipayConfig, OrderStatus, PaymentMethod, PaymentProvider, UnifiedNotifyData,
    UnifiedOrderRequest, UnifiedOrderResponse, UnifiedPaymentConfig, UnifiedQueryRequest,
    UnifiedQueryResponse, WeaError, WechatConfig,
};
use crate::text::same_text;
use std::collections::HashMap;
use vstd::prelude::*;

verus! {

/// A request to create a payment order.
#[derive(Debug)]
pub struct CreatePaymentOrderReq {
    /// `wechat` or `alipay`.
    pub provider: String,
    /// `app`, `web`, `qr`, `miniprogram` or `h5`.
    pub payment_method: String,
    pub out_trade_no: String,
    pub description: String,
    /// Amount in cents.
    pub total_amount: u64,
    pub currency: Option<String>,
    pub user_id: Option<String>,
    pub notify_url: Option<String>,
    pub time_expire: Option<String>,
    pub goods_tag: Option<String>,
    pub attach: Option<String>,
    pub extra: Option<HashMap<String, String>>,
}

/// The answer to a successful order creation.
#[derive(Debug)]
pub struct PaymentOrderResponse {
    pub success: bool,
    pub prepay_id: Option<String>,
    pub pay_url: Option<String>,
    pub qr_code: Option<String>,
    pub pay_params: Option<String>,
    pub error_msg: Option<String>,
}

/// The answer to a successful order query.
#[derive(Debug)]
pub struct PaymentQueryResponse {
    pub success: bool,
    pub out_trade_no: Option<String>,
    pub transaction_id: Option<String>,
    /// The status as text (see `status_name`).
    pub status: Option<String>,
    pub total_amount: Option<u64>,
    pub paid_amount: Option<u64>,
    pub pay_time: Option<String>,
    pub error_msg: Option<String>,
}

/// The answer to a successfully handled notification.
#[derive(Debug)]
pub struct PaymentNotifyResponse {
    pub success: bool,
    pub out_trade_no: String,
    pub transaction_id: String,
    /// The status as text (see `status_name`).
    pub status: String,
    pub total_amount: u64,
    pub paid_amount: u64,
    pub pay_time: String,
    pub error_msg: Option<String>,
}

/// The provider a name designates, if any.
pub open spec fn spec_provider_named(name: Seq<char>) -> Option<PaymentProvider> {
    if name == "wechat"@ {
        Some(PaymentProvider::Wechat)
    } else if name == "alipay"@ {
        Some(PaymentProvider::Alipay)
    } else {
        None
    }
}

/// The payment method a name designates, if any.
pub open spec fn spec_method_named(name: Seq<char>) -> Option<PaymentMethod> {
    if name == "app"@ {
        Some(PaymentMethod::App)
    } else if name == "web"@ {
        Some(PaymentMethod::Web)
    } else if name == "qr"@ {
        Some(PaymentMethod::QrCode)
    } else if name == "miniprogram"@ {
        Some(PaymentMethod::MiniProgram)
    } else if name == "h5"@ {
        Some(PaymentMethod::H5)
    } else {
        None
    }
}

/// The provider named `name`; an unknown name is a bad request.
pub fn parse_provider(name: &str) -> (r: Result<PaymentProvider, AppError>)
    ensures
        match spec_provider_named(name@) {
            Some(p) => r matches Ok(q) && q == p,
            None => r matches Err(e) && is_bad_request(e, "Unsupported payment provider"@),
        },
{
    if same_text(name, "wechat") {
        Ok(PaymentProvider::Wechat)
    } else if same_text(name, "alipay") {
        Ok(PaymentProvider::Alipay)
    } else {
        Err(AppError::BadRequest("Unsupported payment provider".to_owned()))
    }
}

/// The payment method named `name`; an unknown name is a bad request.
pub fn parse_payment_method(name: &str) -> (r: Result<PaymentMethod, AppError>)
    ensures
        match spec_method_named(name@) {
            Some(m) => r matches Ok(q) && q == m,
            None => r matches Err(e) && is_bad_request(e, "Unsupported payment method"@),
        },
{
    if same_text(name, "app") {
        Ok(PaymentMethod::App)
    } else if same_text(name, "web") {
        Ok(PaymentMethod::Web)
    } else if same_text(name, "qr") {
        Ok(PaymentMethod::QrCode)
    } else if same_text(name, "miniprogram") {
        Ok(PaymentMethod::MiniProgram)
    } else if same_text(name, "h5") {
        Ok(PaymentMethod::H5)
    } else {
        Err(AppError::BadRequest("Unsupported payment method".to_owned()))
    }
}

/// The text of an order status.
pub open spec fn status_name(s: OrderStatus) -> Seq<char> {
    match s {
        OrderStatus::Pending => "pending"@,
        OrderStatus::Success => "success"@,
        OrderStatus::Failed => "failed"@,
        OrderStatus::Closed => "closed"@,
        OrderStatus::Refunded => "refunded"@,
        OrderStatus::PartialRefunded => "partial_refunded"@,
    }
}

/// The text of `s`.
pub fn order_status_text(s: OrderStatus) -> (r: String)
    ensures
        r@ == status_name(s),
{
    match s {
        OrderStatus::Pending => "pending".to_owned(),
        OrderStatus::Success => "success".to_owned(),
        OrderStatus::Failed => "failed".to_owned(),
        OrderStatus::Closed => "closed".to_owned(),
        OrderStatus::Refunded => "refunded".to_owned(),
        OrderStatus::PartialRefunded => "partial_refunded".to_owned(),
    }
}

/// `u` carries the order of `req`.
pub open spec fn is_unified_request_for(u: UnifiedOrderRequest, req: CreatePaymentOrderReq) -> bool {
    &&& u.out_trade_no == req.out_trade_no
    &&& u.description == req.description
    &&& u.total_amount == req.total_amount
    &&& u.currency == req.currency
    &&& u.user_id == req.user_id
    &&& u.notify_url == req.notify_url
    &&& u.time_expire == req.time_expire
    &&& u.goods_tag == req.goods_tag
    &&& u.attach == req.attach
    &&& u.extra == req.extra
}

/// The provider, method and unified order of a creation request; the
/// provider is checked before the method.
pub fn prepare_payment_order(req: CreatePaymentOrderReq) -> (r: Result<
    (PaymentProvider, PaymentMethod, UnifiedOrderRequest),
    AppError,
>)
    ensures
        match spec_provider_named(req.provider@) {
            None => r matches Err(e) && is_bad_request(e, "Unsupported payment provider"@),
            Some(p) => match spec_method_named(req.payment_method@) {
                None => r matches Err(e) && is_bad_request(e, "Unsupported payment method"@),
                Some(m) => r matches Ok((p2, m2, u)) && p2 == p && m2 == m && is_unified_request_for(
                    u,
                    req,
                ),
            },
        },
{
    let provider = parse_provider(req.provider.as_str())?;
    let method = parse_payment_method(req.payment_method.as_str())?;
    let unified = UnifiedOrderRequest {
        out_trade_no: req.out_trade_no,
        description: req.description,
        total_amount: req.total_amount,
        currency: req.currency,
        user_id: req.user_id,
        notify_url: req.notify_url,
        time_expire: req.time_expire,
        goods_tag: req.goods_tag,
        attach: req.attach,
        extra: req.extra,
    };
    Ok((provider, method, unified))
}

/// The message of a provider failure: its own, else `fallback`.
pub open spec fn failure_text(error_msg: Option<String>, fallback: Seq<char>) -> Seq<char> {
    match error_msg {
        Some(m) => m@,
        None => fallback,
    }
}

/// The endpoint's answer to an order creation that ended in `result`.
pub fn payment_order_result(result: UnifiedOrderResponse) -> (r: Result<PaymentOrderResponse, AppError>)
    ensures
        result.success ==> (r matches Ok(p) && p.success && p.prepay_id == result.prepay_id
            && p.pay_url == result.pay_url && p.qr_code == result.qr_code && p.pay_params
            == result.pay_params && p.error_msg is None),
        !result.success ==> (r matches Err(e) && is_payment_error(
            e,
            failure_text(result.error_msg, "Payment creation failed"@),
        )),
{
    if result.success {
        Ok(
            PaymentOrderResponse {
                success: true,
                prepay_id: result.prepay_id,
                pay_url: result.pay_url,
                qr_code: result.qr_code,
                pay_params: result.pay_params,
                error_msg: None,
            },
        )
    } else {
        let message = match result.error_msg {
            Some(m) => m,
            None => "Payment creation failed".to_owned(),
        };
        Err(AppError::PaymentError(message))
    }
}

/// `text` is the text of the optional status `s`.
pub open spec fn status_text_of(s: Option<OrderStatus>, text: Option<String>) -> bool {
    match s {
        Some(st) => text matches Some(t) && t@ == status_name(st),
        None => text is None,
    }
}

/// The endpoint's answer to an order query that ended in `result`.
pub fn payment_query_result(result: UnifiedQueryResponse) -> (r: Result<PaymentQueryResponse, AppError>)
    ensures
        result.success ==> (r matches Ok(p) && p.success && p.out_trade_no == result.out_trade_no
            && p.transaction_id == result.transaction_id && status_text_of(result.status, p.status)
            && p.total_amount == result.total_amount && p.paid_amount == result.paid_amount
            && p.pay_time == result.pay_time && p.error_msg is None),
        !result.success ==> (r matches Err(e) && is_payment_error(
            e,
            failure_text(result.error_msg, "Query failed"@),
        )),
{
    if result.success {
        let status = match result.status {
            Some(s) => Some(order_status_text(s)),
            None => None,
        };
        Ok(
            PaymentQueryResponse {
                success: true,
                out_trade_no: result.out_trade_no,
                transaction_id: result.transaction_id,
                status,
                total_amount: result.total_amount,
                paid_amount: result.paid_amount,
                pay_time: result.pay_time,
                error_msg: None,
            },
        )
    } else {
        let message = match result.error_msg {
            Some(m) => m,
            None => "Query failed".to_owned(),
        };
        Err(AppError::PaymentError(message))
    }
}

/// The endpoint's answer to closing an order.
pub fn payment_close_result(result: Result<(), WeaError>) -> (r: Result<String, AppError>)
    ensures
        match result {
            Ok(()) => r matches Ok(t) && t@ == "Order closed successfully"@,
            Err(e) => r matches Err(e2) && is_payment_error(e2, e.message@),
        },
{
    match result {
        Ok(()) => Ok("Order closed successfully".to_owned()),
        Err(e) => Err(AppError::PaymentError(e.message)),
    }
}

/// The endpoint's answer to a notification that was handled as `result`.
pub fn payment_notify_result(result: Result<UnifiedNotifyData, WeaError>) -> (r: Result<
    PaymentNotifyResponse,
    AppError,
>)
    ensures
        match result {
            Ok(d) => r matches Ok(p) && p.success && p.out_trade_no == d.out_trade_no
                && p.transaction_id == d.transaction_id && p.status@ == status_name(d.status)
                && p.total_amount == d.total_amount && p.paid_amount == d.paid_amount && p.pay_time
                == d.pay_time && p.error_msg is None,
            Err(e) => r matches Err(e2) && is_payment_error(e2, e.message@),
        },
{
    match result {
        Ok(d) => Ok(
            PaymentNotifyResponse {
                success: true,
                out_trade_no: d.out_trade_no,
                transaction_id: d.transaction_id,
                status: order_status_text(d.status),
                total_amount: d.total_amount,
                paid_amount: d.paid_amount,
                pay_time: d.pay_time,
                error_msg: None,
            },
        ),
        Err(e) => Err(AppError::PaymentError(e.message)),
    }
}

/// The query for the order `out_trade_no`.
pub fn order_query_request(out_trade_no: String) -> (r: UnifiedQueryRequest)
    ensures
        r.out_trade_no == Some(out_trade_no),
        r.transaction_id is None,
{
    UnifiedQueryRequest { out_trade_no: Some(out_trade_no), transaction_id: None }
}

/// The payment configuration of the endpoints: both providers, Alipay in
/// its sandbox.
pub fn unified_payment_config() -> (r: UnifiedPaymentConfig)
    ensures
        r.wechat is Some,
        r.wechat->0.app_id@ == "your_wechat_app_id"@,
        r.wechat->0.mchid@ == "your_wechat_mchid"@,
        r.wechat->0.mch_key@ == "your_wechat_mch_key"@,
        r.wechat->0.apiclient_key@ == "path/to/apiclient_key.pem"@,
        r.wechat->0.apiclient_cert@ == "path/to/apiclient_cert.pem"@,
        r.wechat->0.notify_url@ == "https://your-domain.com/api/payment/wechat/notify"@,
        r.wechat->0.sp_appid is None,
        r.wechat->0.sp_mchid is None,
        r.alipay is Some,
        r.alipay->0.app_id@ == "your_alipay_app_id"@,
        r.alipay->0.app_private_key@ == "path/to/alipay_private_key.txt"@,
        r.alipay->0.alipay_public_cert@ == "path/to/alipay_public_cert.crt"@,
        r.alipay->0.notify_url is Some,
        r.alipay->0.notify_url->0@ == "https://your-domain.com/api/payment/alipay/notify"@,
        r.alipay->0.is_sandbox == Some(true),
        r.alipay->0.app_public_cert is None,
        r.alipay->0.alipay_root_cert is None,
        r.alipay->0.mch_key is None,
{
    let wechat = WechatConfig {
        sp_appid: None,
        sp_mchid: None,
        app_id: "your_wechat_app_id".to_owned(),
        mchid: "your_wechat_mchid".to_owned(),
        mch_key: "your_wechat_mch_key".to_owned(),
        apiclient_key: "path/to/apiclient_key.pem".to_owned(),
        apiclient_cert: "path/to/apiclient_cert.pem".to_owned(),
        notify_url: "https://your-domain.com/api/payment/wechat/notify".to_owned(),
    };
    let alipay = AlipayConfig {
        app_id: "your_alipay_app_id".to_owned(),
        app_private_key: "path/to/alipay_private_key.txt".to_owned(),
        app_public_cert: None,
        alipay_public_cert: "path/to/alipay_public_cert.crt".to_owned(),
        alipay_root_cert: None,
        mch_key: None,
        notify_url: Some("https://your-domain.com/api/payment/alipay/notify".to_owned()),
        is_sandbox: Some(true),
    };
    UnifiedPaymentConfig { wechat: Some(wechat), alipay: Some(alipay) }
}

/// Distinct order statuses have distinct texts.
pub proof fn law_status_names_distinct(a: OrderStatus, b: OrderStatus)
    ensures
        status_name(a) == status_name(b) ==> a == b,
{
    reveal_strlit("pending");
    reveal_strlit("success");
    reveal_strlit("failed");
    reveal_strlit("closed");
    reveal_strlit("refunded");
    reveal_strlit("partial_refunded");
    if status_name(a) == status_name(b) && a != b {
        assert(status_name(a).len() != status_name(b).len() || status_name(a)[0] != status_name(
            b,
        )[0]);
    }
}

} // verus!
