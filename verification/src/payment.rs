//! Unified payments over WeChat Pay and Alipay: the provider-independent
//! request and response types, and the decisions taken around each call to
//! a provider (which call to make, with which request, and what a provider's
//! reply means for the caller).
use crate::text::{chars_of, copy_opt_text, opt_view, remove_all, remove_occurrences, same_text, string_of};
use std::collections::HashMap;
use vstd::prelude::*;

verus! {

/// A payment provider.
#[derive(Clone, Copy, Debug, PartialEq, Eq, Structural)]
pub enum PaymentProvider {
    Wechat,
    Alipay,
}

/// A way of paying.
#[derive(Clone, Copy, Debug, PartialEq, Eq, Structural)]
pub enum PaymentMethod {
    App,
    Web,
    QrCode,
    MiniProgram,
    H5,
}

/// The state of an order, independent of the provider.
#[derive(Clone, Copy, Debug, PartialEq, Eq, Structural)]
pub enum OrderStatus {
    Pending,
    Success,
    Failed,
    Closed,
    Refunded,
    PartialRefunded,
}

/// WeChat Pay merchant configuration.
#[derive(Debug)]
pub struct WechatConfig {
    /// Service-provider app id (service-provider mode).
    pub sp_appid: Option<String>,
    /// Service-provider merchant id (service-provider mode).
    pub sp_mchid: Option<String>,
    pub app_id: String,
    pub mchid: String,
    pub mch_key: String,
    /// Path of the merchant's private key.
    pub apiclient_key: String,
    /// Path of the merchant's certificate.
    pub apiclient_cert: String,
    /// Where asynchronous notifications are sent.
    pub notify_url: String,
}

impl Clone for WechatConfig {
    fn clone(&self) -> (r: Self)
        ensures
            r == *self,
    {
        WechatConfig {
            sp_appid: copy_opt_text(&self.sp_appid),
            sp_mchid: copy_opt_text(&self.sp_mchid),
            app_id: self.app_id.clone(),
            mchid: self.mchid.clone(),
            mch_key: self.mch_key.clone(),
            apiclient_key: self.apiclient_key.clone(),
            apiclient_cert: self.apiclient_cert.clone(),
            notify_url: self.notify_url.clone(),
        }
    }
}

impl Default for WechatConfig {
    fn default() -> (r: Self)
        ensures
            r.sp_appid is None,
            r.sp_mchid is None,
            r.app_id@ == Seq::<char>::empty(),
            r.mchid@ == Seq::<char>::empty(),
            r.mch_key@ == Seq::<char>::empty(),
            r.apiclient_key@ == Seq::<char>::empty(),
            r.apiclient_cert@ == Seq::<char>::empty(),
            r.notify_url@ == Seq::<char>::empty(),
    {
        WechatConfig {
            sp_appid: None,
            sp_mchid: None,
            app_id: String::new(),
            mchid: String::new(),
            mch_key: String::new(),
            apiclient_key: String::new(),
            apiclient_cert: String::new(),
            notify_url: String::new(),
        }
    }
}

/// Alipay application configuration.
#[derive(Debug)]
pub struct AlipayConfig {
    pub app_id: String,
    /// Path of the application's private key.
    pub app_private_key: String,
    /// Path of the application's public certificate.
    pub app_public_cert: Option<String>,
    /// Path of Alipay's public certificate.
    pub alipay_public_cert: String,
    /// Path of Alipay's root certificate.
    pub alipay_root_cert: Option<String>,
    /// Content encryption key.
    pub mch_key: Option<String>,
    /// Where asynchronous notifications are sent.
    pub notify_url: Option<String>,
    /// Whether to use the sandbox.
    pub is_sandbox: Option<bool>,
}

impl Clone for AlipayConfig {
    fn clone(&self) -> (r: Self)
        ensures
            r == *self,
    {
        AlipayConfig {
            app_id: self.app_id.clone(),
            app_private_key: self.app_private_key.clone(),
            app_public_cert: copy_opt_text(&self.app_public_cert),
            alipay_public_cert: self.alipay_public_cert.clone(),
            alipay_root_cert: copy_opt_text(&self.alipay_root_cert),
            mch_key: copy_opt_text(&self.mch_key),
            notify_url: copy_opt_text(&self.notify_url),
            is_sandbox: self.is_sandbox,
        }
    }
}

impl Default for AlipayConfig {
    fn default() -> (r: Self)
        ensures
            r.app_id@ == Seq::<char>::empty(),
            r.app_private_key@ == Seq::<char>::empty(),
            r.app_public_cert is None,
            r.alipay_public_cert@ == Seq::<char>::empty(),
            r.alipay_root_cert is None,
            r.mch_key is None,
            r.notify_url is None,
            r.is_sandbox is None,
    {
        AlipayConfig {
            app_id: String::new(),
            app_private_key: String::new(),
            app_public_cert: None,
            alipay_public_cert: String::new(),
            alipay_root_cert: None,
            mch_key: None,
            notify_url: None,
            is_sandbox: None,
        }
    }
}

/// A provider client holding its configuration.
#[derive(Debug)]
pub struct Payment<T> {
    pub config: T,
}

impl<T> Payment<T> {
    /// A client for `config`.
    pub fn new(config: T) -> (r: Self)
        ensures
            r.config == config,
    {
        Payment { config }
    }
}

/// Configuration of both providers; an absent one is not available.
#[derive(Debug)]
pub struct UnifiedPaymentConfig {
    pub wechat: Option<WechatConfig>,
    pub alipay: Option<AlipayConfig>,
}

impl Default for UnifiedPaymentConfig {
    fn default() -> (r: Self)
        ensures
            r.wechat is None,
            r.alipay is None,
    {
        UnifiedPaymentConfig { wechat: None, alipay: None }
    }
}

/// A provider-independent order.
#[derive(Debug)]
pub struct UnifiedOrderRequest {
    /// The merchant's order number.
    pub out_trade_no: String,
    pub description: String,
    /// Amount in cents.
    pub total_amount: u64,
    /// Currency; CNY when absent.
    pub currency: Option<String>,
    /// The payer: a WeChat openid or an Alipay buyer id.
    pub user_id: Option<String>,
    pub notify_url: Option<String>,
    pub time_expire: Option<String>,
    pub goods_tag: Option<String>,
    /// Data returned unchanged with the notification.
    pub attach: Option<String>,
    /// Extra parameters.
    pub extra: Option<HashMap<String, String>>,
}

/// The outcome of creating an order.
#[derive(Debug)]
pub struct UnifiedOrderResponse {
    pub success: bool,
    pub error_msg: Option<String>,
    /// The provider's prepayment or trade id.
    pub prepay_id: Option<String>,
    /// A page to send the payer to.
    pub pay_url: Option<String>,
    /// Content of a QR code to show the payer.
    pub qr_code: Option<String>,
    /// Parameters (JSON) with which an app starts the payment.
    pub pay_params: Option<String>,
    /// The provider's reply (JSON).
    pub raw_response: Option<String>,
}

impl Default for UnifiedOrderResponse {
    fn default() -> (r: Self)
        ensures
            !r.success,
            r.error_msg is None,
            r.prepay_id is None,
            r.pay_url is None,
            r.qr_code is None,
            r.pay_params is None,
            r.raw_response is None,
    {
        UnifiedOrderResponse {
            success: false,
            error_msg: None,
            prepay_id: None,
            pay_url: None,
            qr_code: None,
            pay_params: None,
            raw_response: None,
        }
    }
}

/// Which order to query: by merchant order number or by provider id.
#[derive(Debug)]
pub struct UnifiedQueryRequest {
    pub out_trade_no: Option<String>,
    pub transaction_id: Option<String>,
}

/// The outcome of querying an order.
#[derive(Debug)]
pub struct UnifiedQueryResponse {
    pub success: bool,
    pub error_msg: Option<String>,
    pub out_trade_no: Option<String>,
    pub transaction_id: Option<String>,
    pub status: Option<OrderStatus>,
    /// Amount in cents.
    pub total_amount: Option<u64>,
    /// Amount actually paid, in cents.
    pub paid_amount: Option<u64>,
    pub pay_time: Option<String>,
    pub raw_response: Option<String>,
}

impl Default for UnifiedQueryResponse {
    fn default() -> (r: Self)
        ensures
            !r.success,
            r.error_msg is None,
            r.out_trade_no is None,
            r.transaction_id is None,
            r.status is None,
            r.total_amount is None,
            r.paid_amount is None,
            r.pay_time is None,
            r.raw_response is None,
    {
        UnifiedQueryResponse {
            success: false,
            error_msg: None,
            out_trade_no: None,
            transaction_id: None,
            status: None,
            total_amount: None,
            paid_amount: None,
            pay_time: None,
            raw_response: None,
        }
    }
}

/// A provider's notification of a payment, made provider-independent.
#[derive(Debug)]
pub struct UnifiedNotifyData {
    pub out_trade_no: String,
    pub transaction_id: String,
    pub status: OrderStatus,
    /// Amount in cents.
    pub total_amount: u64,
    /// Amount actually paid, in cents.
    pub paid_amount: u64,
    pub pay_time: String,
    pub attach: Option<String>,
    /// The notification as received.
    pub raw_data: String,
}

/// An error reported by, or about, a payment provider.
#[derive(Debug)]
pub struct WeaError {
    pub code: String,
    pub message: String,
}

impl WeaError {
    /// An error with the given code and message.
    pub fn new(code: &str, message: String) -> (r: WeaError)
        ensures
            r.code@ == code@,
            r.message == message,
    {
        WeaError { code: code.to_owned(), message }
    }
}

/// `e` is a provider error with an empty code and message `m`.
pub open spec fn is_wea_error(e: WeaError, m: Seq<char>) -> bool {
    e.code@ == Seq::<char>::empty() && e.message@ == m
}

/// The unified payment processor: a client for each configured provider.
#[derive(Debug)]
pub struct UnifiedPayment {
    config: UnifiedPaymentConfig,
    wechat_payment: Option<Payment<WechatConfig>>,
    alipay_payment: Option<Payment<AlipayConfig>>,
}

impl UnifiedPayment {
    /// The WeChat Pay client, if WeChat Pay is configured.
    pub closed spec fn wechat(&self) -> Option<Payment<WechatConfig>> {
        self.wechat_payment
    }

    /// The Alipay client, if Alipay is configured.
    pub closed spec fn alipay(&self) -> Option<Payment<AlipayConfig>> {
        self.alipay_payment
    }

    /// The configuration it was made from.
    pub closed spec fn configuration(&self) -> UnifiedPaymentConfig {
        self.config
    }

    /// A processor with a client for each provider that `config` configures.
    pub fn new(config: UnifiedPaymentConfig) -> (r: Self)
        ensures
            r.configuration() == config,
            r.wechat() == match config.wechat {
                Some(c) => Some(Payment { config: c }),
                None => None::<Payment<WechatConfig>>,
            },
            r.alipay() == match config.alipay {
                Some(c) => Some(Payment { config: c }),
                None => None::<Payment<AlipayConfig>>,
            },
    {
        let wechat_payment = match &config.wechat {
            Some(c) => Some(Payment::new(c.clone())),
            None => None,
        };
        let alipay_payment = match &config.alipay {
            Some(c) => Some(Payment::new(c.clone())),
            None => None,
        };
        UnifiedPayment { config, wechat_payment, alipay_payment }
    }

    /// The WeChat Pay client, or an error when WeChat Pay is not configured.
    pub fn get_wechat_payment(&self) -> (r: Result<&Payment<WechatConfig>, WeaError>)
        ensures
            match self.wechat() {
                Some(p) => r matches Ok(q) && *q == p,
                None => r matches Err(e) && is_wea_error(e, "Wechat payment not configured"@),
            },
    {
        proof {
            reveal_strlit("");
            assert(""@ =~= Seq::<char>::empty());
        }
        match &self.wechat_payment {
            Some(p) => Ok(p),
            None => Err(WeaError::new("", "Wechat payment not configured".to_owned())),
        }
    }

    /// The Alipay client, or an error when Alipay is not configured.
    pub fn get_alipay_payment(&self) -> (r: Result<&Payment<AlipayConfig>, WeaError>)
        ensures
            match self.alipay() {
                Some(p) => r matches Ok(q) && *q == p,
                None => r matches Err(e) && is_wea_error(e, "Alipay payment not configured"@),
            },
    {
        proof {
            reveal_strlit("");
            assert(""@ =~= Seq::<char>::empty());
        }
        match &self.alipay_payment {
            Some(p) => Ok(p),
            None => Err(WeaError::new("", "Alipay payment not configured".to_owned())),
        }
    }
}

/// The order response for a failure with error `e`.
pub open spec fn is_failed_order(r: UnifiedOrderResponse, e: WeaError) -> bool {
    &&& !r.success
    &&& r.error_msg matches Some(m) && m@ == e.message@
    &&& r.prepay_id is None
    &&& r.pay_url is None
    &&& r.qr_code is None
    &&& r.pay_params is None
    &&& r.raw_response is None
}

/// The response to a failed order creation, reporting `e`.
pub fn order_failure(e: WeaError) -> (r: UnifiedOrderResponse)
    ensures
        is_failed_order(r, e),
{
    UnifiedOrderResponse {
        success: false,
        error_msg: Some(e.message),
        prepay_id: None,
        pay_url: None,
        qr_code: None,
        pay_params: None,
        raw_response: None,
    }
}

/// WeChat Pay trade types.
#[derive(Clone, Copy, Debug, PartialEq, Eq, Structural)]
pub enum WechatTradeType {
    App,
    Native,
    Jsapi,
    Mweb,
}

/// The WeChat Pay trade type used for a payment method: web and QR-code
/// payments are both native (QR code) trades.
pub open spec fn spec_wechat_trade_type(method: PaymentMethod) -> WechatTradeType {
    match method {
        PaymentMethod::App => WechatTradeType::App,
        PaymentMethod::Web => WechatTradeType::Native,
        PaymentMethod::QrCode => WechatTradeType::Native,
        PaymentMethod::MiniProgram => WechatTradeType::Jsapi,
        PaymentMethod::H5 => WechatTradeType::Mweb,
    }
}

/// The WeChat Pay trade type for `method`.
pub fn wechat_trade_type(method: PaymentMethod) -> (t: WechatTradeType)
    ensures
        t == spec_wechat_trade_type(method),
{
    match method {
        PaymentMethod::App => WechatTradeType::App,
        PaymentMethod::Web => WechatTradeType::Native,
        PaymentMethod::QrCode => WechatTradeType::Native,
        PaymentMethod::MiniProgram => WechatTradeType::Jsapi,
        PaymentMethod::H5 => WechatTradeType::Mweb,
    }
}

/// A WeChat Pay order-creation request.
#[derive(Debug)]
pub struct WechatOrderRequest {
    pub description: String,
    pub out_trade_no: String,
    pub time_expire: Option<String>,
    pub goods_tag: Option<String>,
    pub attach: Option<String>,
    /// Amount in cents.
    pub total: i32,
    pub currency: Option<String>,
    /// The payer's openid.
    pub payer_openid: Option<String>,
    pub notify_url: Option<String>,
}

/// The WeChat Pay request for a unified order. The amount is converted to
/// `i32` as `as` does (keeping the low 32 bits).
pub fn build_wechat_order(request: UnifiedOrderRequest) -> (r: WechatOrderRequest)
    ensures
        is_wechat_request_for(r, request),
{
    WechatOrderRequest {
        description: request.description,
        out_trade_no: request.out_trade_no,
        time_expire: request.time_expire,
        goods_tag: request.goods_tag,
        attach: request.attach,
        total: request.total_amount as i32,
        currency: request.currency,
        payer_openid: request.user_id,
        notify_url: request.notify_url,
    }
}

/// WeChat Pay's answer to an order creation, by trade type. `serialized` is
/// the answer as JSON.
#[derive(Debug)]
pub enum WechatCreateResult {
    /// Mini-program (JSAPI) parameters; `package` is `prepay_id=<id>`.
    Jsapi { package: String, serialized: String },
    /// App parameters.
    App { prepay_id: String, serialized: String },
    /// Native (QR code) and H5 answers.
    Native { prepay: Option<String>, code_url: Option<String>, serialized: String },
}

/// The response to a WeChat Pay order creation that returned `result`.
pub open spec fn is_wechat_order_response(
    result: Result<WechatCreateResult, WeaError>,
    r: UnifiedOrderResponse,
) -> bool {
    match result {
        Err(e) => is_failed_order(r, e),
        Ok(WechatCreateResult::Jsapi { package, serialized }) => {
            &&& r.success
            &&& r.error_msg is None
            &&& r.prepay_id matches Some(p) && p@ == remove_all(package@, "prepay_id="@)
            &&& r.pay_url is None
            &&& r.qr_code is None
            &&& r.pay_params == Some(serialized)
            &&& r.raw_response == Some(serialized)
        },
        Ok(WechatCreateResult::App { prepay_id, serialized }) => {
            &&& r.success
            &&& r.error_msg is None
            &&& r.prepay_id == Some(prepay_id)
            &&& r.pay_url is None
            &&& r.qr_code is None
            &&& r.pay_params == Some(serialized)
            &&& r.raw_response == Some(serialized)
        },
        Ok(WechatCreateResult::Native { prepay, code_url, serialized }) => {
            &&& r.success
            &&& r.error_msg is None
            &&& r.prepay_id == prepay
            &&& r.pay_url == code_url
            &&& r.qr_code == code_url
            &&& r.pay_params is None
            &&& r.raw_response == Some(serialized)
        },
    }
}

/// `w` is the WeChat Pay request for `request` (see `build_wechat_order`).
pub open spec fn is_wechat_request_for(w: WechatOrderRequest, request: UnifiedOrderRequest) -> bool {
    &&& w.description == request.description
    &&& w.out_trade_no == request.out_trade_no
    &&& w.time_expire == request.time_expire
    &&& w.goods_tag == request.goods_tag
    &&& w.attach == request.attach
    &&& w.total == request.total_amount as i32
    &&& w.currency == request.currency
    &&& w.payer_openid == request.user_id
    &&& w.notify_url == request.notify_url
}

/// `r` is the failed response for a provider that is not configured, with
/// message `m`.
pub open spec fn is_unconfigured_order(r: UnifiedOrderResponse, m: Seq<char>) -> bool {
    &&& !r.success
    &&& r.error_msg matches Some(msg) && msg@ == m
    &&& r.prepay_id is None
    &&& r.pay_url is None
    &&& r.qr_code is None
    &&& r.pay_params is None
    &&& r.raw_response is None
}

/// The unified response to WeChat Pay's answer `result`.
pub fn wechat_order_response(result: Result<WechatCreateResult, WeaError>) -> (r:
    UnifiedOrderResponse)
    ensures
        is_wechat_order_response(result, r),
{
    match result {
        Err(e) => order_failure(e),
        Ok(WechatCreateResult::Jsapi { package, serialized }) => {
            let chars = chars_of(package.as_str());
            let pat = chars_of("prepay_id=");
            let id = remove_occurrences(&chars, &pat);
            let params = serialized.clone();
            UnifiedOrderResponse {
                success: true,
                error_msg: None,
                prepay_id: Some(string_of(&id)),
                pay_url: None,
                qr_code: None,
                pay_params: Some(params),
                raw_response: Some(serialized),
            }
        },
        Ok(WechatCreateResult::App { prepay_id, serialized }) => {
            let params = serialized.clone();
            UnifiedOrderResponse {
                success: true,
                error_msg: None,
                prepay_id: Some(prepay_id),
                pay_url: None,
                qr_code: None,
                pay_params: Some(params),
                raw_response: Some(serialized),
            }
        },
        Ok(WechatCreateResult::Native { prepay, code_url, serialized }) => {
            let qr_code = copy_opt_text(&code_url);
            UnifiedOrderResponse {
                success: true,
                error_msg: None,
                prepay_id: prepay,
                pay_url: code_url,
                qr_code,
                pay_params: None,
                raw_response: Some(serialized),
            }
        },
    }
}

impl UnifiedPayment {
    /// What to send WeChat Pay for an order: the trade type and request, or,
    /// when WeChat Pay is not configured, the failed response.
    pub fn prepare_wechat_order(&self, method: PaymentMethod, request: UnifiedOrderRequest) -> (r:
        Result<(WechatTradeType, WechatOrderRequest), UnifiedOrderResponse>)
        ensures
            match self.wechat() {
                Some(_) => r matches Ok((t, w)) && t == spec_wechat_trade_type(method)
                    && is_wechat_request_for(w, request),
                None => r matches Err(resp) && is_unconfigured_order(
                    resp,
                    "Wechat payment not configured"@,
                ),
            },
    {
        match self.get_wechat_payment() {
            Err(e) => Err(order_failure(e)),
            Ok(_) => Ok((wechat_trade_type(method), build_wechat_order(request))),
        }
    }
}

/// The Alipay API method used for a payment method.
pub open spec fn spec_alipay_method(method: PaymentMethod) -> Seq<char> {
    match method {
        PaymentMethod::App => "alipay.trade.app.pay"@,
        PaymentMethod::Web => "alipay.trade.page.pay"@,
        PaymentMethod::QrCode => "alipay.trade.precreate"@,
        PaymentMethod::MiniProgram => "alipay.trade.create"@,
        PaymentMethod::H5 => "alipay.trade.wap.pay"@,
    }
}

/// The Alipay product code used for a payment method.
pub open spec fn spec_alipay_product_code(method: PaymentMethod) -> Seq<char> {
    match method {
        PaymentMethod::App => "QUICK_MSECURITY_PAY"@,
        PaymentMethod::Web => "FAST_INSTANT_TRADE_PAY"@,
        PaymentMethod::QrCode => "FACE_TO_FACE_PAYMENT"@,
        PaymentMethod::MiniProgram => "JSAPI_PAY"@,
        PaymentMethod::H5 => "QUICK_WAP_WAY"@,
    }
}

/// The Alipay API method and product code for `method`.
pub fn alipay_trade_method(method: PaymentMethod) -> (r: (&'static str, String))
    ensures
        r.0@ == spec_alipay_method(method),
        r.1@ == spec_alipay_product_code(method),
{
    match method {
        PaymentMethod::App => ("alipay.trade.app.pay", "QUICK_MSECURITY_PAY".to_owned()),
        PaymentMethod::Web => ("alipay.trade.page.pay", "FAST_INSTANT_TRADE_PAY".to_owned()),
        PaymentMethod::QrCode => ("alipay.trade.precreate", "FACE_TO_FACE_PAYMENT".to_owned()),
        PaymentMethod::MiniProgram => ("alipay.trade.create", "JSAPI_PAY".to_owned()),
        PaymentMethod::H5 => ("alipay.trade.wap.pay", "QUICK_WAP_WAY".to_owned()),
    }
}

/// An Alipay order-creation request.
#[derive(Debug)]
pub struct AlipayOrderRequest {
    pub out_trade_no: String,
    /// Amount in yuan, as text with two decimals.
    pub total_amount: String,
    pub subject: String,
    pub product_code: Option<String>,
    pub buyer_id: Option<String>,
    pub notify_url: Option<String>,
    pub time_expire: Option<String>,
    pub body: Option<String>,
}

/// `a` is the Alipay request for `request` with product code `product_code`
/// and amount text `total_amount`.
pub open spec fn is_alipay_request_for(
    a: AlipayOrderRequest,
    request: UnifiedOrderRequest,
    product_code: Seq<char>,
    total_amount: String,
) -> bool {
    &&& a.out_trade_no == request.out_trade_no
    &&& a.total_amount == total_amount
    &&& a.subject == request.description
    &&& a.product_code matches Some(p) && p@ == product_code
    &&& a.buyer_id == request.user_id
    &&& a.notify_url == request.notify_url
    &&& a.time_expire == request.time_expire
    &&& a.body == request.attach
}

/// The Alipay request for a unified order: the description becomes the
/// subject and the attached data the body. `total_amount` is the amount in
/// yuan as text.
pub fn build_alipay_order(request: UnifiedOrderRequest, product_code: String, total_amount: String) -> (r:
    AlipayOrderRequest)
    ensures
        is_alipay_request_for(r, request, product_code@, total_amount),
{
    AlipayOrderRequest {
        out_trade_no: request.out_trade_no,
        total_amount,
        subject: request.description,
        product_code: Some(product_code),
        buyer_id: request.user_id,
        notify_url: request.notify_url,
        time_expire: request.time_expire,
        body: request.attach,
    }
}

/// Alipay's answer to an order creation; `serialized` is the answer as JSON.
#[derive(Debug)]
pub struct AlipayCreateResult {
    pub trade_no: Option<String>,
    pub page_redirection_data: Option<String>,
    pub qr_code: Option<String>,
    pub serialized: String,
}

/// The response to an Alipay order creation that returned `result`.
pub open spec fn is_alipay_order_response(
    result: Result<AlipayCreateResult, WeaError>,
    r: UnifiedOrderResponse,
) -> bool {
    match result {
        Err(e) => is_failed_order(r, e),
        Ok(a) => {
            &&& r.success
            &&& r.error_msg is None
            &&& r.prepay_id == a.trade_no
            &&& r.pay_url == a.page_redirection_data
            &&& r.qr_code == a.qr_code
            &&& r.pay_params is None
            &&& r.raw_response == Some(a.serialized)
        },
    }
}

/// The unified response to Alipay's answer `result`.
pub fn alipay_order_response(result: Result<AlipayCreateResult, WeaError>) -> (r:
    UnifiedOrderResponse)
    ensures
        is_alipay_order_response(result, r),
{
    match result {
        Err(e) => order_failure(e),
        Ok(a) => UnifiedOrderResponse {
            success: true,
            error_msg: None,
            prepay_id: a.trade_no,
            pay_url: a.page_redirection_data,
            qr_code: a.qr_code,
            pay_params: None,
            raw_response: Some(a.serialized),
        },
    }
}

impl UnifiedPayment {
    /// What to send Alipay for an order: the API method and request, or,
    /// when Alipay is not configured, the failed response. `total_amount` is
    /// the amount in yuan as text.
    pub fn prepare_alipay_order(
        &self,
        method: PaymentMethod,
        request: UnifiedOrderRequest,
        total_amount: String,
    ) -> (r: Result<(&'static str, AlipayOrderRequest), UnifiedOrderResponse>)
        ensures
            match self.alipay() {
                Some(_) => r matches Ok((m, a)) && m@ == spec_alipay_method(method)
                    && is_alipay_request_for(a, request, spec_alipay_product_code(method), total_amount),
                None => r matches Err(resp) && is_unconfigured_order(
                    resp,
                    "Alipay payment not configured"@,
                ),
            },
    {
        match self.get_alipay_payment() {
            Err(e) => Err(order_failure(e)),
            Ok(_) => {
                let (name, product_code) = alipay_trade_method(method);
                Ok((name, build_alipay_order(request, product_code, total_amount)))
            },
        }
    }
}

/// How an order is identified in a query.
#[derive(Debug)]
pub enum QueryKey {
    /// By the merchant's order number.
    OutTradeNo(String),
    /// By the provider's transaction (trade) id.
    TransactionId(String),
}

/// `r` is the failed query response with message `m`.
pub open spec fn is_failed_query(r: UnifiedQueryResponse, m: Seq<char>) -> bool {
    &&& !r.success
    &&& r.error_msg matches Some(msg) && msg@ == m
    &&& r.out_trade_no is None
    &&& r.transaction_id is None
    &&& r.status is None
    &&& r.total_amount is None
    &&& r.paid_amount is None
    &&& r.pay_time is None
    &&& r.raw_response is None
}

/// The response to a failed query, reporting `message`.
pub fn query_failure(message: String) -> (r: UnifiedQueryResponse)
    ensures
        is_failed_query(r, message@),
{
    UnifiedQueryResponse {
        success: false,
        error_msg: Some(message),
        out_trade_no: None,
        transaction_id: None,
        status: None,
        total_amount: None,
        paid_amount: None,
        pay_time: None,
        raw_response: None,
    }
}

/// `r` identifies the order of `request`: by merchant order number when one
/// is given, else by transaction id, else neither can be queried.
pub open spec fn is_query_key_for(request: UnifiedQueryRequest, r: Result<QueryKey, UnifiedQueryResponse>) -> bool {
    match request.out_trade_no {
        Some(n) => r matches Ok(QueryKey::OutTradeNo(k)) && k == n,
        None => match request.transaction_id {
            Some(t) => r matches Ok(QueryKey::TransactionId(k)) && k == t,
            None => r matches Err(resp) && is_failed_query(
                resp,
                "out_trade_no or transaction_id is required"@,
            ),
        },
    }
}

/// How to identify the order of `request` in a query.
pub fn query_key(request: UnifiedQueryRequest) -> (r: Result<QueryKey, UnifiedQueryResponse>)
    ensures
        is_query_key_for(request, r),
{
    match request.out_trade_no {
        Some(n) => Ok(QueryKey::OutTradeNo(n)),
        None => match request.transaction_id {
            Some(t) => Ok(QueryKey::TransactionId(t)),
            None => Err(query_failure("out_trade_no or transaction_id is required".to_owned())),
        },
    }
}

impl UnifiedPayment {
    /// How to query WeChat Pay for `request`, or the failed response when
    /// WeChat Pay is not configured or the request names no order.
    pub fn prepare_wechat_query(&self, request: UnifiedQueryRequest) -> (r: Result<
        QueryKey,
        UnifiedQueryResponse,
    >)
        ensures
            match self.wechat() {
                Some(_) => is_query_key_for(request, r),
                None => r matches Err(resp) && is_failed_query(resp, "Wechat payment not configured"@),
            },
    {
        match self.get_wechat_payment() {
            Err(e) => Err(query_failure(e.message)),
            Ok(_) => query_key(request),
        }
    }

    /// How to query Alipay for `request`, or the failed response when Alipay
    /// is not configured or the request names no order.
    pub fn prepare_alipay_query(&self, request: UnifiedQueryRequest) -> (r: Result<
        QueryKey,
        UnifiedQueryResponse,
    >)
        ensures
            match self.alipay() {
                Some(_) => is_query_key_for(request, r),
                None => r matches Err(resp) && is_failed_query(resp, "Alipay payment not configured"@),
            },
    {
        match self.get_alipay_payment() {
            Err(e) => Err(query_failure(e.message)),
            Ok(_) => query_key(request),
        }
    }
}

/// WeChat Pay trade states.
#[derive(Clone, Copy, Debug, PartialEq, Eq, Structural)]
pub enum WechatTradeState {
    Success,
    Refund,
    NotPay,
    Closed,
    Revoked,
    UserPaying,
    PayError,
}

/// The unified status of a WeChat Pay trade state; revoked and in-progress
/// trades have none.
pub open spec fn spec_wechat_status(state: WechatTradeState) -> Option<OrderStatus> {
    match state {
        WechatTradeState::Success => Some(OrderStatus::Success),
        WechatTradeState::NotPay => Some(OrderStatus::Pending),
        WechatTradeState::Closed => Some(OrderStatus::Closed),
        WechatTradeState::Refund => Some(OrderStatus::Refunded),
        WechatTradeState::PayError => Some(OrderStatus::Failed),
        _ => None,
    }
}

/// The unified status of `state`.
pub fn wechat_order_status(state: WechatTradeState) -> (r: Option<OrderStatus>)
    ensures
        r == spec_wechat_status(state),
{
    match state {
        WechatTradeState::Success => Some(OrderStatus::Success),
        WechatTradeState::NotPay => Some(OrderStatus::Pending),
        WechatTradeState::Closed => Some(OrderStatus::Closed),
        WechatTradeState::Refund => Some(OrderStatus::Refunded),
        WechatTradeState::PayError => Some(OrderStatus::Failed),
        _ => None,
    }
}

/// A WeChat Pay order as a query returns it; `serialized` is the order as JSON.
#[derive(Debug)]
pub struct WechatOrderInfo {
    pub trade_state: WechatTradeState,
    /// Order amount in cents.
    pub total: i32,
    /// Amount paid by the payer, in cents.
    pub payer_total: i32,
    pub success_time: String,
    pub out_trade_no: String,
    pub transaction_id: String,
    pub serialized: String,
}

/// The response to a WeChat Pay query that returned `result`. Amounts are
/// converted to `u64` as `as` does.
pub open spec fn is_wechat_query_response(
    result: Result<WechatOrderInfo, WeaError>,
    r: UnifiedQueryResponse,
) -> bool {
    match result {
        Err(e) => is_failed_query(r, e.message@),
        Ok(o) => {
            &&& r.success
            &&& r.error_msg is None
            &&& r.out_trade_no == Some(o.out_trade_no)
            &&& r.transaction_id == Some(o.transaction_id)
            &&& r.status == spec_wechat_status(o.trade_state)
            &&& r.total_amount == Some(o.total as u64)
            &&& r.paid_amount == Some(o.payer_total as u64)
            &&& r.pay_time == Some(o.success_time)
            &&& r.raw_response == Some(o.serialized)
        },
    }
}

/// The unified response to WeChat Pay's query answer `result`.
pub fn wechat_query_response(result: Result<WechatOrderInfo, WeaError>) -> (r: UnifiedQueryResponse)
    ensures
        is_wechat_query_response(result, r),
{
    match result {
        Err(e) => query_failure(e.message),
        Ok(o) => UnifiedQueryResponse {
            success: true,
            error_msg: None,
            out_trade_no: Some(o.out_trade_no),
            transaction_id: Some(o.transaction_id),
            status: wechat_order_status(o.trade_state),
            total_amount: Some(o.total as u64),
            paid_amount: Some(o.payer_total as u64),
            pay_time: Some(o.success_time),
            raw_response: Some(o.serialized),
        },
    }
}

/// The unified status of an Alipay trade status, as a query reports it:
/// finished and successful trades are both successes; other statuses have
/// none.
pub open spec fn spec_alipay_query_status(status: Option<Seq<char>>) -> Option<OrderStatus> {
    match status {
        Some(s) => if s == "TRADE_SUCCESS"@ {
            Some(OrderStatus::Success)
        } else if s == "WAIT_BUYER_PAY"@ {
            Some(OrderStatus::Pending)
        } else if s == "TRADE_CLOSED"@ {
            Some(OrderStatus::Closed)
        } else if s == "TRADE_FINISHED"@ {
            Some(OrderStatus::Success)
        } else {
            None
        },
        None => None,
    }
}

/// The unified status of the Alipay trade status `status`.
pub fn alipay_query_status(status: &Option<String>) -> (r: Option<OrderStatus>)
    ensures
        r == spec_alipay_query_status(opt_view(*status)),
{
    match status {
        None => None,
        Some(s) => if same_text(s.as_str(), "TRADE_SUCCESS") {
            Some(OrderStatus::Success)
        } else if same_text(s.as_str(), "WAIT_BUYER_PAY") {
            Some(OrderStatus::Pending)
        } else if same_text(s.as_str(), "TRADE_CLOSED") {
            Some(OrderStatus::Closed)
        } else if same_text(s.as_str(), "TRADE_FINISHED") {
            Some(OrderStatus::Success)
        } else {
            None
        },
    }
}

/// An Alipay order as a query returns it. Amounts are in cents, absent when
/// Alipay gave none or gave one that is not a number; `serialized` is the
/// order as JSON.
#[derive(Debug)]
pub struct AlipayOrderInfo {
    pub trade_status: Option<String>,
    pub total_amount_cents: Option<u64>,
    pub receipt_amount_cents: Option<u64>,
    pub gmt_payment: Option<String>,
    pub out_trade_no: Option<String>,
    pub trade_no: Option<String>,
    pub serialized: String,
}

/// The response to an Alipay query that returned `result`.
pub open spec fn is_alipay_query_response(
    result: Result<AlipayOrderInfo, WeaError>,
    r: UnifiedQueryResponse,
) -> bool {
    match result {
        Err(e) => is_failed_query(r, e.message@),
        Ok(o) => {
            &&& r.success
            &&& r.error_msg is None
            &&& r.out_trade_no == o.out_trade_no
            &&& r.transaction_id == o.trade_no
            &&& r.status == spec_alipay_query_status(opt_view(o.trade_status))
            &&& r.total_amount == o.total_amount_cents
            &&& r.paid_amount == o.receipt_amount_cents
            &&& r.pay_time == o.gmt_payment
            &&& r.raw_response == Some(o.serialized)
        },
    }
}

/// The unified response to Alipay's query answer `result`.
pub fn alipay_query_response(result: Result<AlipayOrderInfo, WeaError>) -> (r: UnifiedQueryResponse)
    ensures
        is_alipay_query_response(result, r),
{
    match result {
        Err(e) => query_failure(e.message),
        Ok(o) => {
            let status = alipay_query_status(&o.trade_status);
            UnifiedQueryResponse {
                success: true,
                error_msg: None,
                out_trade_no: o.out_trade_no,
                transaction_id: o.trade_no,
                status,
                total_amount: o.total_amount_cents,
                paid_amount: o.receipt_amount_cents,
                pay_time: o.gmt_payment,
                raw_response: Some(o.serialized),
            }
        },
    }
}

/// A request to close an order.
#[derive(Debug)]
pub enum CloseCall {
    /// Close the WeChat Pay order with this merchant order number.
    Wechat(String),
    /// Close the Alipay order with this merchant order number.
    Alipay(Option<String>),
}

impl UnifiedPayment {
    /// How to close the order `out_trade_no` at `provider`, or the error
    /// when that provider is not configured.
    pub fn prepare_close(&self, provider: PaymentProvider, out_trade_no: &str) -> (r: Result<
        CloseCall,
        WeaError,
    >)
        ensures
            match provider {
                PaymentProvider::Wechat => match self.wechat() {
                    Some(_) => r matches Ok(CloseCall::Wechat(n)) && n@
                        == out_trade_no@,
                    None => r matches Err(e) && is_wea_error(e, "Wechat payment not configured"@),
                },
                PaymentProvider::Alipay => match self.alipay() {
                    Some(_) => r matches Ok(CloseCall::Alipay(Some(n))) && n@
                        == out_trade_no@,
                    None => r matches Err(e) && is_wea_error(e, "Alipay payment not configured"@),
                },
            },
    {
        match provider {
            PaymentProvider::Wechat => {
                let _p = self.get_wechat_payment()?;
                Ok(CloseCall::Wechat(out_trade_no.to_owned()))
            },
            PaymentProvider::Alipay => {
                let _p = self.get_alipay_payment()?;
                Ok(CloseCall::Alipay(Some(out_trade_no.to_owned())))
            },
        }
    }
}

/// The unified status of an Alipay notification's trade status: finished
/// and successful trades are successes, any status other than the four known
/// ones is a failure.
pub open spec fn spec_alipay_notify_status(status: Seq<char>) -> OrderStatus {
    if status == "TRADE_SUCCESS"@ {
        OrderStatus::Success
    } else if status == "WAIT_BUYER_PAY"@ {
        OrderStatus::Pending
    } else if status == "TRADE_CLOSED"@ {
        OrderStatus::Closed
    } else if status == "TRADE_FINISHED"@ {
        OrderStatus::Success
    } else {
        OrderStatus::Failed
    }
}

/// The unified status of the notified Alipay trade status `status`.
pub fn alipay_notify_status(status: &str) -> (r: OrderStatus)
    ensures
        r == spec_alipay_notify_status(status@),
{
    if same_text(status, "TRADE_SUCCESS") {
        OrderStatus::Success
    } else if same_text(status, "WAIT_BUYER_PAY") {
        OrderStatus::Pending
    } else if same_text(status, "TRADE_CLOSED") {
        OrderStatus::Closed
    } else if same_text(status, "TRADE_FINISHED") {
        OrderStatus::Success
    } else {
        OrderStatus::Failed
    }
}

/// An Alipay payment notification, checked by Alipay's client. Amounts are
/// in cents, absent when the notification's amount is not a number.
#[derive(Debug)]
pub struct AlipayNotify {
    pub trade_status: String,
    pub total_amount_cents: Option<u64>,
    pub receipt_amount_cents: Option<u64>,
    pub gmt_payment: Option<String>,
    pub out_trade_no: String,
    pub trade_no: String,
}

/// `r` is the outcome of handling the Alipay notification `notify_data`,
/// which Alipay's client turned into `notify`.
pub open spec fn is_alipay_notify_outcome(
    notify: Result<AlipayNotify, WeaError>,
    notify_data: Seq<char>,
    r: Result<UnifiedNotifyData, WeaError>,
) -> bool {
    match notify {
        Err(e) => r matches Err(e2) && e2 == e,
        Ok(n) => match n.total_amount_cents {
            None => r matches Err(e) && is_wea_error(e, "Invalid total_amount"@),
            Some(total) => match n.receipt_amount_cents {
                None => r matches Err(e) && is_wea_error(e, "Invalid receipt_amount"@),
                Some(paid) => r matches Ok(d) && d.out_trade_no == n.out_trade_no && d.transaction_id
                    == n.trade_no && d.status == spec_alipay_notify_status(n.trade_status@)
                    && d.total_amount == total && d.paid_amount == paid && d.pay_time@ == match n.gmt_payment {
                    Some(t) => t@,
                    None => Seq::<char>::empty(),
                } && d.attach is None && d.raw_data@ == notify_data,
            },
        },
    }
}

impl UnifiedPayment {
    /// Handles a WeChat Pay notification; these are not supported and are
    /// always refused.
    pub fn handle_wechat_notify(
        &self,
        notify_data: &str,
        headers: Option<HashMap<String, String>>,
    ) -> (r: Result<UnifiedNotifyData, WeaError>)
        ensures
            r matches Err(e) && is_wea_error(e, "Wechat notify handling not implemented yet"@),
    {
        proof {
            reveal_strlit("");
            assert(""@ =~= Seq::<char>::empty());
        }
        Err(WeaError::new("", "Wechat notify handling not implemented yet".to_owned()))
    }

    /// Handles the Alipay notification `notify_data`, which Alipay's client
    /// turned into `notify`: refused when Alipay is not configured, when the
    /// client refused it, or when an amount is not a number.
    pub fn handle_alipay_notify(&self, notify: Result<AlipayNotify, WeaError>, notify_data: &str) -> (r:
        Result<UnifiedNotifyData, WeaError>)
        ensures
            match self.alipay() {
                None => r matches Err(e) && is_wea_error(e, "Alipay payment not configured"@),
                Some(_) => is_alipay_notify_outcome(notify, notify_data@, r),
            },
    {
        proof {
            reveal_strlit("");
            assert(""@ =~= Seq::<char>::empty());
        }
        let _payment = self.get_alipay_payment()?;
        let n = notify?;
        let status = alipay_notify_status(n.trade_status.as_str());
        let total_amount = match n.total_amount_cents {
            Some(t) => t,
            None => {
                return Err(WeaError::new("", "Invalid total_amount".to_owned()));
            },
        };
        let paid_amount = match n.receipt_amount_cents {
            Some(p) => p,
            None => {
                return Err(WeaError::new("", "Invalid receipt_amount".to_owned()));
            },
        };
        let pay_time = match n.gmt_payment {
            Some(t) => t,
            None => String::new(),
        };
        Ok(
            UnifiedNotifyData {
                out_trade_no: n.out_trade_no,
                transaction_id: n.trade_no,
                status,
                total_amount,
                paid_amount,
                pay_time,
                attach: None,
                raw_data: notify_data.to_owned(),
            },
        )
    }
}

/// What handling a notification needs first.
#[derive(Debug)]
pub enum NotifyStep {
    /// Have Alipay's client check the notification, then call `handle_notify`.
    VerifyAlipay,
    /// The notification is answered without asking any provider.
    Reply(Result<UnifiedNotifyData, WeaError>),
}

impl UnifiedPayment {
    /// The first step of handling a notification from `provider`: WeChat Pay
    /// notifications are refused, and so are Alipay's when Alipay is not
    /// configured; only a configured Alipay has its client check the
    /// notification.
    pub fn begin_notify(&self, provider: PaymentProvider) -> (s: NotifyStep)
        ensures
            match provider {
                PaymentProvider::Wechat => s matches NotifyStep::Reply(Err(e)) && is_wea_error(
                    e,
                    "Wechat notify handling not implemented yet"@,
                ),
                PaymentProvider::Alipay => match self.alipay() {
                    None => s matches NotifyStep::Reply(Err(e)) && is_wea_error(
                        e,
                        "Alipay payment not configured"@,
                    ),
                    Some(_) => s is VerifyAlipay,
                },
            },
    {
        match provider {
            PaymentProvider::Wechat => NotifyStep::Reply(self.handle_wechat_notify("", None)),
            PaymentProvider::Alipay => match self.get_alipay_payment() {
                Err(e) => NotifyStep::Reply(Err(e)),
                Ok(_) => NotifyStep::VerifyAlipay,
            },
        }
    }
}

/// The call to make at a provider to create an order.
#[derive(Debug)]
pub enum OrderCall {
    /// Create a WeChat Pay order of this trade type.
    Wechat(WechatTradeType, WechatOrderRequest),
    /// Call this Alipay API method.
    Alipay(&'static str, AlipayOrderRequest),
}

/// The call to make at a provider to query an order.
#[derive(Debug)]
pub enum QueryCall {
    /// Query WeChat Pay.
    Wechat(QueryKey),
    /// Query Alipay.
    Alipay(QueryKey),
}

/// The payment operations over both providers. Each operation decides what
/// to ask the chosen provider, or answers at once when there is nothing to
/// ask; the caller makes the call and reads the reply with
/// `wechat_order_response`, `alipay_order_response`, `wechat_query_response`
/// or `alipay_query_response`.
pub trait UnifiedPaymentTrait {
    /// Creating an order at `provider`; `total_amount` is the order's amount
    /// as Alipay's yuan text.
    fn create_order(
        &self,
        provider: PaymentProvider,
        method: PaymentMethod,
        request: UnifiedOrderRequest,
        total_amount: String,
    ) -> Result<OrderCall, UnifiedOrderResponse>;

    /// Querying an order at `provider`.
    fn query_order(&self, provider: PaymentProvider, request: UnifiedQueryRequest) -> Result<
        QueryCall,
        UnifiedQueryResponse,
    >;

    /// Closing the order `out_trade_no` at `provider`.
    fn close_order(&self, provider: PaymentProvider, out_trade_no: &str) -> Result<
        CloseCall,
        WeaError,
    >;

    /// Handling the notification `notify_data` from `provider`;
    /// `alipay_notify` is what Alipay's client made of it, read only for Alipay.
    fn handle_notify(
        &self,
        provider: PaymentProvider,
        notify_data: &str,
        headers: Option<HashMap<String, String>>,
        alipay_notify: Result<AlipayNotify, WeaError>,
    ) -> Result<UnifiedNotifyData, WeaError>;
}

impl UnifiedPaymentTrait for UnifiedPayment {
    fn create_order(
        &self,
        provider: PaymentProvider,
        method: PaymentMethod,
        request: UnifiedOrderRequest,
        total_amount: String,
    ) -> (r: Result<OrderCall, UnifiedOrderResponse>)
        ensures
            match provider {
                PaymentProvider::Wechat => match self.wechat() {
                    Some(_) => r matches Ok(OrderCall::Wechat(t, w)) && t == spec_wechat_trade_type(
                        method,
                    ) && is_wechat_request_for(w, request),
                    None => r matches Err(resp) && is_unconfigured_order(
                        resp,
                        "Wechat payment not configured"@,
                    ),
                },
                PaymentProvider::Alipay => match self.alipay() {
                    Some(_) => r matches Ok(OrderCall::Alipay(m, a)) && m@ == spec_alipay_method(
                        method,
                    ) && is_alipay_request_for(
                        a,
                        request,
                        spec_alipay_product_code(method),
                        total_amount,
                    ),
                    None => r matches Err(resp) && is_unconfigured_order(
                        resp,
                        "Alipay payment not configured"@,
                    ),
                },
            },
    {
        match provider {
            PaymentProvider::Wechat => match self.prepare_wechat_order(method, request) {
                Ok((t, w)) => Ok(OrderCall::Wechat(t, w)),
                Err(resp) => Err(resp),
            },
            PaymentProvider::Alipay => match self.prepare_alipay_order(method, request, total_amount) {
                Ok((m, a)) => Ok(OrderCall::Alipay(m, a)),
                Err(resp) => Err(resp),
            },
        }
    }

    fn query_order(&self, provider: PaymentProvider, request: UnifiedQueryRequest) -> (r: Result<
        QueryCall,
        UnifiedQueryResponse,
    >)
        ensures
            match provider {
                PaymentProvider::Wechat => match self.wechat() {
                    Some(_) => match r {
                        Ok(QueryCall::Wechat(k)) => is_query_key_for(request, Ok(k)),
                        Ok(QueryCall::Alipay(_)) => false,
                        Err(resp) => is_query_key_for(request, Err(resp)),
                    },
                    None => r matches Err(resp) && is_failed_query(
                        resp,
                        "Wechat payment not configured"@,
                    ),
                },
                PaymentProvider::Alipay => match self.alipay() {
                    Some(_) => match r {
                        Ok(QueryCall::Alipay(k)) => is_query_key_for(request, Ok(k)),
                        Ok(QueryCall::Wechat(_)) => false,
                        Err(resp) => is_query_key_for(request, Err(resp)),
                    },
                    None => r matches Err(resp) && is_failed_query(
                        resp,
                        "Alipay payment not configured"@,
                    ),
                },
            },
    {
        match provider {
            PaymentProvider::Wechat => match self.prepare_wechat_query(request) {
                Ok(k) => Ok(QueryCall::Wechat(k)),
                Err(resp) => Err(resp),
            },
            PaymentProvider::Alipay => match self.prepare_alipay_query(request) {
                Ok(k) => Ok(QueryCall::Alipay(k)),
                Err(resp) => Err(resp),
            },
        }
    }

    fn close_order(&self, provider: PaymentProvider, out_trade_no: &str) -> (r: Result<
        CloseCall,
        WeaError,
    >)
        ensures
            match provider {
                PaymentProvider::Wechat => match self.wechat() {
                    Some(_) => r matches Ok(CloseCall::Wechat(n)) && n@ == out_trade_no@,
                    None => r matches Err(e) && is_wea_error(e, "Wechat payment not configured"@),
                },
                PaymentProvider::Alipay => match self.alipay() {
                    Some(_) => r matches Ok(CloseCall::Alipay(Some(n))) && n@ == out_trade_no@,
                    None => r matches Err(e) && is_wea_error(e, "Alipay payment not configured"@),
                },
            },
    {
        self.prepare_close(provider, out_trade_no)
    }

    fn handle_notify(
        &self,
        provider: PaymentProvider,
        notify_data: &str,
        headers: Option<HashMap<String, String>>,
        alipay_notify: Result<AlipayNotify, WeaError>,
    ) -> (r: Result<UnifiedNotifyData, WeaError>)
        ensures
            match provider {
                PaymentProvider::Wechat => r matches Err(e) && is_wea_error(
                    e,
                    "Wechat notify handling not implemented yet"@,
                ),
                PaymentProvider::Alipay => match self.alipay() {
                    None => r matches Err(e) && is_wea_error(e, "Alipay payment not configured"@),
                    Some(_) => is_alipay_notify_outcome(alipay_notify, notify_data@, r),
                },
            },
    {
        match provider {
            PaymentProvider::Wechat => self.handle_wechat_notify(notify_data, headers),
            PaymentProvider::Alipay => self.handle_alipay_notify(alipay_notify, notify_data),
        }
    }
}

/// A successful WeChat Pay app or mini-program order gives the payer what
/// it needs to start paying: the response succeeds, carries the prepay id,
/// and carries the serialized payment parameters as `pay_params`; a native
/// (QR code) order instead carries the code URL as both pay URL and QR code.
pub proof fn law_wechat_order_gives_payer_what_it_needs(
    result: WechatCreateResult,
    r: UnifiedOrderResponse,
)
    requires
        is_wechat_order_response(Ok(result), r),
    ensures
        r.success,
        r.error_msg is None,
        r.prepay_id is Some || result is Native,
        result matches WechatCreateResult::App { prepay_id, serialized } ==> r.prepay_id == Some(
            prepay_id,
        ) && r.pay_params == Some(serialized),
        result matches WechatCreateResult::Jsapi { package, serialized } ==> r.pay_params == Some(
            serialized,
        ) && (r.prepay_id matches Some(p) && p@ == remove_all(package@, "prepay_id="@)),
        result matches WechatCreateResult::Native { prepay, code_url, serialized } ==> r.prepay_id
            == prepay && r.pay_url == code_url && r.qr_code == code_url,
        r.raw_response is Some,
{
}

/// A provider's failure to create an order is reported as a failed
/// response with the provider's message and no payment data, for either
/// provider.
pub proof fn law_failed_creation_reports_provider_message(
    e: WeaError,
    w: UnifiedOrderResponse,
    a: UnifiedOrderResponse,
)
    requires
        is_wechat_order_response(Err(e), w),
        is_alipay_order_response(Err(e), a),
    ensures
        !w.success && !a.success,
        w.error_msg matches Some(m) && m@ == e.message@,
        a.error_msg matches Some(m) && m@ == e.message@,
        w.prepay_id is None && w.pay_url is None && w.qr_code is None && w.pay_params is None,
        a.prepay_id is None && a.pay_url is None && a.qr_code is None && a.pay_params is None,
{
}

/// A successful Alipay order gives the payer Alipay's trade number, page
/// (redirect) data and QR code unchanged, and keeps Alipay's answer.
pub proof fn law_alipay_order_gives_payer_what_it_needs(a: AlipayCreateResult, r: UnifiedOrderResponse)
    requires
        is_alipay_order_response(Ok(a), r),
    ensures
        r.success,
        r.error_msg is None,
        r.prepay_id == a.trade_no,
        r.pay_url == a.page_redirection_data,
        r.qr_code == a.qr_code,
        r.raw_response == Some(a.serialized),
{
}

/// A successful WeChat Pay query reports the order's numbers and amounts
/// unchanged (amounts as cents), its payment time, and a status that is a
/// success exactly for a paid order and pending exactly for an unpaid one.
pub proof fn law_wechat_query_reports_order(o: WechatOrderInfo, r: UnifiedQueryResponse)
    requires
        is_wechat_query_response(Ok(o), r),
        o.total >= 0,
        o.payer_total >= 0,
    ensures
        r.success,
        r.out_trade_no == Some(o.out_trade_no),
        r.transaction_id == Some(o.transaction_id),
        r.total_amount matches Some(t) && t == o.total,
        r.paid_amount matches Some(p) && p == o.payer_total,
        r.pay_time == Some(o.success_time),
        r.status == Some(OrderStatus::Success) <==> o.trade_state == WechatTradeState::Success,
        r.status == Some(OrderStatus::Pending) <==> o.trade_state == WechatTradeState::NotPay,
{
}

/// A successful Alipay query reports the order's numbers, amounts and
/// payment time unchanged; a successful or finished trade is a success.
pub proof fn law_alipay_query_reports_order(o: AlipayOrderInfo, r: UnifiedQueryResponse)
    requires
        is_alipay_query_response(Ok(o), r),
    ensures
        r.success,
        r.out_trade_no == o.out_trade_no,
        r.transaction_id == o.trade_no,
        r.total_amount == o.total_amount_cents,
        r.paid_amount == o.receipt_amount_cents,
        r.pay_time == o.gmt_payment,
        o.trade_status matches Some(t) && (t@ == "TRADE_SUCCESS"@ || t@ == "TRADE_FINISHED"@)
            ==> r.status == Some(OrderStatus::Success),
        o.trade_status is None ==> r.status is None,
{
    if let Some(t) = o.trade_status {
        assert(opt_view(o.trade_status) == Some(t@));
        reveal_strlit("TRADE_SUCCESS");
        reveal_strlit("WAIT_BUYER_PAY");
        reveal_strlit("TRADE_CLOSED");
        reveal_strlit("TRADE_FINISHED");
        assert("TRADE_FINISHED"@[0] != "WAIT_BUYER_PAY"@[0]);
        assert("TRADE_FINISHED"@.len() != "TRADE_CLOSED"@.len());
        assert("TRADE_SUCCESS"@.len() != "WAIT_BUYER_PAY"@.len());
    }
}

/// A handled Alipay notification reports the notified order, trade and
/// amounts unchanged and keeps the raw notification; a notification whose
/// amount is not a number is refused.
pub proof fn law_alipay_notify_reports_order(
    n: AlipayNotify,
    notify_data: Seq<char>,
    r: Result<UnifiedNotifyData, WeaError>,
)
    requires
        is_alipay_notify_outcome(Ok(n), notify_data, r),
    ensures
        r is Ok <==> (n.total_amount_cents is Some && n.receipt_amount_cents is Some),
        r matches Ok(d) ==> d.out_trade_no == n.out_trade_no && d.transaction_id == n.trade_no
            && Some(d.total_amount) == n.total_amount_cents && Some(d.paid_amount)
            == n.receipt_amount_cents && d.raw_data@ == notify_data,
        r matches Ok(d) ==> (n.trade_status@ == "TRADE_SUCCESS"@ ==> d.status == OrderStatus::Success),
{
}

/// The provider requests carry the merchant's order unchanged: its number,
/// description, expiry, notification address and payer, and its amount
/// (in cents for WeChat Pay, as the given yuan text for Alipay).
pub proof fn law_provider_requests_carry_order(
    request: UnifiedOrderRequest,
    w: WechatOrderRequest,
    a: AlipayOrderRequest,
    product_code: Seq<char>,
    total_amount: String,
)
    requires
        is_wechat_request_for(w, request),
        is_alipay_request_for(a, request, product_code, total_amount),
        request.total_amount <= i32::MAX,
    ensures
        w.out_trade_no == request.out_trade_no && a.out_trade_no == request.out_trade_no,
        w.description == request.description && a.subject == request.description,
        w.time_expire == request.time_expire && a.time_expire == request.time_expire,
        w.notify_url == request.notify_url && a.notify_url == request.notify_url,
        w.payer_openid == request.user_id && a.buyer_id == request.user_id,
        w.total == request.total_amount,
        a.total_amount == total_amount,
        a.product_code matches Some(p) && p@ == product_code,
{
}

/// A query names the order by the merchant's order number when the request
/// gives one, else by the transaction id, and is refused when it gives
/// neither.
pub proof fn law_query_key_prefers_merchant_number(
    request: UnifiedQueryRequest,
    r: Result<QueryKey, UnifiedQueryResponse>,
)
    requires
        is_query_key_for(request, r),
    ensures
        match request.out_trade_no {
            Some(n) => r == Ok::<QueryKey, UnifiedQueryResponse>(QueryKey::OutTradeNo(n)),
            None => match request.transaction_id {
                Some(t) => r == Ok::<QueryKey, UnifiedQueryResponse>(QueryKey::TransactionId(t)),
                None => r matches Err(resp) && !resp.success,
            },
        },
{
}

/// A query reports every known Alipay trade status as a notification does;
/// a status it does not know it leaves out, where a notification calls it a
/// failure.
pub proof fn law_alipay_status_agreement(status: Seq<char>)
    ensures
        spec_alipay_query_status(Some(status)) matches Some(q) ==> q == spec_alipay_notify_status(
            status,
        ),
        spec_alipay_query_status(Some(status)) is None ==> spec_alipay_notify_status(status)
            == OrderStatus::Failed,
{
}

/// Of all payment methods only web and QR-code payments share a WeChat Pay
/// trade type; every method has its own Alipay API method.
pub proof fn law_trade_types(a: PaymentMethod, b: PaymentMethod)
    ensures
        spec_wechat_trade_type(a) == spec_wechat_trade_type(b) <==> (a == b || (a
            == PaymentMethod::Web && b == PaymentMethod::QrCode) || (a == PaymentMethod::QrCode && b
            == PaymentMethod::Web)),
        spec_alipay_method(a) == spec_alipay_method(b) ==> a == b,
{
    if spec_alipay_method(a) == spec_alipay_method(b) && a != b {
        reveal_strlit("alipay.trade.app.pay");
        reveal_strlit("alipay.trade.page.pay");
        reveal_strlit("alipay.trade.precreate");
        reveal_strlit("alipay.trade.create");
        reveal_strlit("alipay.trade.wap.pay");
        assert(spec_alipay_method(a)[13] != spec_alipay_method(b)[13] || spec_alipay_method(a).len()
            != spec_alipay_method(b).len());
    }
}

} // verus!
