use statechain_transfer::token::{
    invoice_request, pod_info, token_payment_checked, token_verify, Invoice, PODStatus,
    RTLInvoice, TokenCheck, INVOICE_DELAY,
};

#[test]
fn invoice_request_fields() {
    let r = invoice_request("tok-1", "0.0001");
    assert_eq!(r.title, "tok-1");
    assert_eq!(r.description, "");
    assert_eq!(r.amount, "0.0001");
    assert_eq!(r.unit, "BTC");
    assert_eq!(r.emailLanguage, "en");
    assert!(r.onChain);
    assert_eq!(r.delay, 1440);
    assert_eq!(INVOICE_DELAY, 1440);
    assert_eq!(r.extra.tag, "invoice-web");
}

#[test]
fn pod_info_from_invoice() {
    let rtl = RTLInvoice {
        id: "proc".to_string(),
        pr: "lnbc1".to_string(),
        checkoutUrl: "https://pay".to_string(),
        onChainAddr: "bc1q".to_string(),
    };
    let inv = Invoice::from_rtl(rtl);
    assert_eq!(inv.checkoutUrl, "https://pay");
    let info = pod_info("tok".to_string(), "10", inv);
    assert_eq!(info.token_id, "tok");
    assert_eq!(info.fee, "10");
    assert_eq!(info.lightning_invoice, "lnbc1");
    assert_eq!(info.btc_payment_address, "bc1q");
    assert_eq!(info.processor_id, "proc");
}

#[test]
fn token_verify_steps() {
    assert_eq!(token_verify(true, true), TokenCheck::Reply(PODStatus { confirmed: false }));
    assert_eq!(token_verify(false, true), TokenCheck::Reply(PODStatus { confirmed: false }));
    assert_eq!(token_verify(true, false), TokenCheck::Reply(PODStatus { confirmed: true }));
    assert_eq!(token_verify(false, false), TokenCheck::QueryPayment);
}

#[test]
fn payment_result_decides_confirmation() {
    assert_eq!(token_payment_checked(true), (PODStatus { confirmed: true }, true));
    assert_eq!(token_payment_checked(false), (PODStatus { confirmed: false }, false));
}
