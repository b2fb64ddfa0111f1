//! The pay-to-use token gate: the messages exchanged with the invoicing
//! service, and the decisions taken on them.

use vstd::prelude::*;

verus! {

/// An invoice as the token gate hands it on.
#[allow(non_snake_case)]
pub struct Invoice {
    pub id: String,
    pub pr: String,
    pub checkoutUrl: String,
    pub onChainAddr: String,
}

/// A request to the invoicing service for a new invoice.
#[allow(non_snake_case)]
pub struct ReqInvoice {
    pub title: String,
    pub description: String,
    pub amount: String,
    pub unit: String,
    pub redirectAfterPaid: String,
    pub email: String,
    pub emailLanguage: String,
    pub onChain: bool,
    pub delay: u64,
    pub extra: Extra,
}

/// Extra fields of an invoice request.
pub struct Extra {
    pub tag: String,
}

/// An invoice as the invoicing service returns it.
#[allow(non_snake_case)]
pub struct RTLInvoice {
    pub id: String,
    pub pr: String,
    pub checkoutUrl: String,
    pub onChainAddr: String,
}

/// An invoice as a lightning node reports it.
pub struct RTLData {
    pub label: String,
    pub bolt11: String,
    pub payment_hash: String,
    pub msatoshi: u64,
    pub amount_msat: String,
    pub status: String,
    pub description: String,
    pub expires_at: u64,
}

/// What a new token costs and how to pay for it.
pub struct PODInfo {
    pub token_id: String,
    pub fee: String,
    pub lightning_invoice: String,
    pub btc_payment_address: String,
    pub processor_id: String,
}

/// Whether a token has been paid for and may be used.
#[derive(Clone, Copy, Debug, PartialEq, Eq, Structural)]
pub struct PODStatus {
    pub confirmed: bool,
}

/// Minutes that an invoice stays open.
pub const INVOICE_DELAY: u64 = 1440;

/// The invoice request for token `token_id` at price `fee`.
pub fn invoice_request(token_id: &str, fee: &str) -> (r: ReqInvoice)
    ensures
        r.title@ == token_id@,
        r.description@ == ""@,
        r.amount@ == fee@,
        r.unit@ == "BTC"@,
        r.redirectAfterPaid@ == ""@,
        r.email@ == ""@,
        r.emailLanguage@ == "en"@,
        r.onChain,
        r.delay == INVOICE_DELAY,
        r.extra.tag@ == "invoice-web"@,
{
    ReqInvoice {
        title: token_id.to_owned(),
        description: "".to_owned(),
        amount: fee.to_owned(),
        unit: "BTC".to_owned(),
        redirectAfterPaid: "".to_owned(),
        email: "".to_owned(),
        emailLanguage: "en".to_owned(),
        onChain: true,
        delay: INVOICE_DELAY,
        extra: Extra { tag: "invoice-web".to_owned() },
    }
}

impl Invoice {
    /// The invoice carried by a reply of the invoicing service.
    pub fn from_rtl(i: RTLInvoice) -> (r: Invoice)
        ensures
            r.id == i.id,
            r.pr == i.pr,
            r.checkoutUrl == i.checkoutUrl,
            r.onChainAddr == i.onChainAddr,
    {
        Invoice { id: i.id, pr: i.pr, checkoutUrl: i.checkoutUrl, onChainAddr: i.onChainAddr }
    }
}

/// What the holder of new token `token_id` is told to pay, given the invoice
/// issued for it.
pub fn pod_info(token_id: String, fee: &str, invoice: Invoice) -> (r: PODInfo)
    ensures
        r.token_id == token_id,
        r.fee@ == fee@,
        r.lightning_invoice == invoice.pr,
        r.btc_payment_address == invoice.onChainAddr,
        r.processor_id == invoice.id,
{
    PODInfo {
        token_id,
        fee: fee.to_owned(),
        lightning_invoice: invoice.pr,
        btc_payment_address: invoice.onChainAddr,
        processor_id: invoice.id,
    }
}

/// The next step in checking a token.
#[derive(Clone, Copy, Debug, PartialEq, Eq, Structural)]
pub enum TokenCheck {
    /// Answer with this status.
    Reply(PODStatus),
    /// Ask the invoicing service whether the invoice was paid.
    QueryPayment,
}

/// The step taken on a token that the store shows as `confirmed` and
/// `spent`: a spent token is no longer valid, a confirmed one is, and for any
/// other the payment is looked up.
pub fn token_verify(confirmed: bool, spent: bool) -> (r: TokenCheck)
    ensures
        spent ==> r == TokenCheck::Reply(PODStatus { confirmed: false }),
        !spent && confirmed ==> r == TokenCheck::Reply(PODStatus { confirmed: true }),
        !spent && !confirmed ==> r == TokenCheck::QueryPayment,
{
    if spent {
        TokenCheck::Reply(PODStatus { confirmed: false })
    } else if confirmed {
        TokenCheck::Reply(PODStatus { confirmed: true })
    } else {
        TokenCheck::QueryPayment
    }
}

/// The answer once the invoicing service has said whether the invoice was
/// `paid`, and whether the token is to be marked confirmed in the store.
pub fn token_payment_checked(paid: bool) -> (r: (PODStatus, bool))
    ensures
        r.0 == (PODStatus { confirmed: paid }),
        r.1 == paid,
{
    (PODStatus { confirmed: paid }, paid)
}

} // verus!
