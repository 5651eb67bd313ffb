use license_hub::checkout::{
    order_query_request, order_status_text, parse_payment_method, parse_provider,
    payment_close_result, payment_notify_result, payment_order_result, payment_query_result,
    prepare_payment_order, unified_payment_config, CreatePaymentOrderReq,
};
use license_hub::errors::AppError;
use license_hub::payment::{
    OrderStatus, PaymentMethod, PaymentProvider, UnifiedNotifyData, UnifiedOrderResponse,
    UnifiedQueryResponse, WeaError,
};

fn bad_request(e: AppError) -> String {
    match e {
        AppError::BadRequest(m) => m,
        other => panic!("{:?}", other),
    }
}

fn payment_error(e: AppError) -> String {
    match e {
        AppError::PaymentError(m) => m,
        other => panic!("{:?}", other),
    }
}

#[test]
fn provider_and_method_names() {
    assert_eq!(parse_provider("wechat").unwrap(), PaymentProvider::Wechat);
    assert_eq!(parse_provider("alipay").unwrap(), PaymentProvider::Alipay);
    assert_eq!(bad_request(parse_provider("Wechat").unwrap_err()), "Unsupported payment provider");
    assert_eq!(parse_payment_method("app").unwrap(), PaymentMethod::App);
    assert_eq!(parse_payment_method("web").unwrap(), PaymentMethod::Web);
    assert_eq!(parse_payment_method("qr").unwrap(), PaymentMethod::QrCode);
    assert_eq!(parse_payment_method("miniprogram").unwrap(), PaymentMethod::MiniProgram);
    assert_eq!(parse_payment_method("h5").unwrap(), PaymentMethod::H5);
    assert_eq!(bad_request(parse_payment_method("qrcode").unwrap_err()), "Unsupported payment method");
}

#[test]
fn status_texts_are_distinct() {
    let all = [
        (OrderStatus::Pending, "pending"),
        (OrderStatus::Success, "success"),
        (OrderStatus::Failed, "failed"),
        (OrderStatus::Closed, "closed"),
        (OrderStatus::Refunded, "refunded"),
        (OrderStatus::PartialRefunded, "partial_refunded"),
    ];
    for (s, t) in all {
        assert_eq!(order_status_text(s), t);
    }
    let mut texts: Vec<String> = all.iter().map(|(s, _)| order_status_text(*s)).collect();
    texts.sort();
    texts.dedup();
    assert_eq!(texts.len(), 6);
}

fn request(provider: &str, method: &str) -> CreatePaymentOrderReq {
    CreatePaymentOrderReq {
        provider: provider.into(),
        payment_method: method.into(),
        out_trade_no: "O1".into(),
        description: "d".into(),
        total_amount: 100,
        currency: None,
        user_id: None,
        notify_url: None,
        time_expire: None,
        goods_tag: None,
        attach: None,
        extra: None,
    }
}

#[test]
fn preparing_a_payment_order() {
    let (p, m, u) = prepare_payment_order(request("alipay", "qr")).unwrap();
    assert_eq!((p, m), (PaymentProvider::Alipay, PaymentMethod::QrCode));
    assert_eq!(u.out_trade_no, "O1");
    assert_eq!(u.total_amount, 100);
    assert_eq!(bad_request(prepare_payment_order(request("paypal", "nope")).unwrap_err()), "Unsupported payment provider");
    assert_eq!(bad_request(prepare_payment_order(request("wechat", "nope")).unwrap_err()), "Unsupported payment method");
}

#[test]
fn order_results() {
    let ok = UnifiedOrderResponse { success: true, prepay_id: Some("p".into()), ..Default::default() };
    let r = payment_order_result(ok).unwrap();
    assert!(r.success && r.prepay_id.as_deref() == Some("p") && r.error_msg.is_none());
    let failed = UnifiedOrderResponse { error_msg: Some("denied".into()), ..Default::default() };
    assert_eq!(payment_error(payment_order_result(failed).unwrap_err()), "denied");
    assert_eq!(payment_error(payment_order_result(UnifiedOrderResponse::default()).unwrap_err()), "Payment creation failed");
}

#[test]
fn query_results() {
    let ok = UnifiedQueryResponse {
        success: true,
        status: Some(OrderStatus::PartialRefunded),
        total_amount: Some(5),
        ..Default::default()
    };
    let r = payment_query_result(ok).unwrap();
    assert_eq!(r.status.as_deref(), Some("partial_refunded"));
    assert_eq!(r.total_amount, Some(5));
    assert_eq!(payment_error(payment_query_result(UnifiedQueryResponse::default()).unwrap_err()), "Query failed");
    let q = order_query_request("O9".into());
    assert_eq!(q.out_trade_no.as_deref(), Some("O9"));
    assert!(q.transaction_id.is_none());
}

#[test]
fn close_and_notify_results() {
    assert_eq!(payment_close_result(Ok(())).unwrap(), "Order closed successfully");
    assert_eq!(payment_error(payment_close_result(Err(WeaError::new("", "gone".into()))).unwrap_err()), "gone");
    let d = UnifiedNotifyData {
        out_trade_no: "O".into(),
        transaction_id: "T".into(),
        status: OrderStatus::Closed,
        total_amount: 7,
        paid_amount: 0,
        pay_time: "".into(),
        attach: None,
        raw_data: "raw".into(),
    };
    let r = payment_notify_result(Ok(d)).unwrap();
    assert_eq!(r.status, "closed");
    assert_eq!(r.total_amount, 7);
    assert_eq!(payment_error(payment_notify_result(Err(WeaError::new("", "x".into()))).unwrap_err()), "x");
}

#[test]
fn endpoint_configuration() {
    let c = unified_payment_config();
    let w = c.wechat.unwrap();
    assert_eq!(w.app_id, "your_wechat_app_id");
    assert_eq!(w.notify_url, "https://your-domain.com/api/payment/wechat/notify");
    let a = c.alipay.unwrap();
    assert_eq!(a.is_sandbox, Some(true));
    assert_eq!(a.alipay_public_cert, "path/to/alipay_public_cert.crt");
}
