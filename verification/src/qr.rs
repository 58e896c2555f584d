//! Payment QR payloads: the `bitcoin:` URI and a placeholder SVG body.

use vstd::prelude::*;
use crate::decimal::spec_btc_amount;

verus! {

/// The percent-encoded form of a string.
pub uninterp spec fn url_encoded(s: Seq<char>) -> Seq<char>;

/// Relies on urlencoding::encode: percent-encodes every byte except
/// alphanumerics and `-`, `_`, `.`, `~`, determined by the input alone; an
/// empty input stays empty.
#[verifier::external_body]
fn url_encode(s: &String) -> (r: String)
    ensures
        r@ == url_encoded(s@),
        s@.len() == 0 ==> r@.len() == 0,
{
    urlencoding::encode(s.as_str()).into_owned()
}

/// What a rendered QR code carries.
#[derive(Debug)]
pub struct QRCodeData {
    pub bitcoin_address: String,
    pub invoice_id: String,
    pub qr_code_svg: String,
    pub bitcoin_uri: String,
    pub amount_satoshi: u64,
}

/// What to encode into a QR code.
#[derive(Debug)]
pub struct QRCodeRequest {
    pub address: String,
    pub amount_satoshi: u64,
    pub label: String,
    pub message: Option<String>,
}

impl QRCodeRequest {
    /// A request with no message.
    pub fn new(address: String, amount_satoshi: u64, label: String) -> (r: Self)
        ensures
            r == (QRCodeRequest { address, amount_satoshi, label, message: None }),
    {
        QRCodeRequest { address, amount_satoshi, label, message: None }
    }

    /// The same request under another label.
    pub fn with_label(self, label: String) -> (r: Self)
        ensures
            r == (QRCodeRequest { label, ..self }),
    {
        QRCodeRequest { label, ..self }
    }

    /// The same request with a message attached.
    pub fn with_message(self, message: String) -> (r: Self)
        ensures
            r == (QRCodeRequest { message: Some(message), ..self }),
    {
        QRCodeRequest { message: Some(message), ..self }
    }
}

/// The `bitcoin:` URI for an address and amount in whole coins, with the
/// percent-encoded label and message where present.
pub open spec fn spec_bitcoin_uri_parts(
    address: Seq<char>,
    amount_satoshi: nat,
    label: Seq<char>,
    message: Option<Seq<char>>,
) -> Seq<char> {
    "bitcoin:"@ + address + "?amount="@ + spec_btc_amount(amount_satoshi) + (if label.len() > 0 {
        "&label="@ + url_encoded(label)
    } else {
        Seq::<char>::empty()
    }) + (match message {
        Some(m) => "&message="@ + url_encoded(m),
        None => Seq::<char>::empty(),
    })
}

/// The `bitcoin:` URI of a request.
pub open spec fn spec_bitcoin_uri(req: QRCodeRequest) -> Seq<char> {
    spec_bitcoin_uri_parts(
        req.address@,
        req.amount_satoshi as nat,
        req.label@,
        match req.message {
            Some(m) => Some(m@),
            None => None,
        },
    )
}

/// The placeholder SVG body for an address.
pub open spec fn spec_qr_svg(address: Seq<char>) -> Seq<char> {
    "<svg>QR for "@ + address + "</svg>"@
}

/// Renders QR payloads.
pub struct QRService;

impl QRService {
    /// Builds the QR payload of a request: the `bitcoin:` URI as
    /// `spec_bitcoin_uri` describes, a placeholder SVG, and the request's
    /// address, label and amount carried through.
    pub fn generate_qr_code(request: QRCodeRequest) -> (r: QRCodeData)
        ensures
            r.bitcoin_address == request.address,
            r.invoice_id == request.label,
            r.amount_satoshi == request.amount_satoshi,
            r.qr_code_svg@ == spec_qr_svg(request.address@),
            r.bitcoin_uri@ == spec_bitcoin_uri(request),
    {
        let mut bitcoin_uri = String::from_str("bitcoin:");
        bitcoin_uri.append(request.address.as_str());
        bitcoin_uri.append("?amount=");
        let amount = crate::decimal::btc_amount_string(request.amount_satoshi);
        bitcoin_uri.append(amount.as_str());
        if !request.label.as_str().is_empty() {
            bitcoin_uri.append("&label=");
            let encoded = url_encode(&request.label);
            bitcoin_uri.append(encoded.as_str());
        }
        match &request.message {
            Some(message) => {
                bitcoin_uri.append("&message=");
                let encoded = url_encode(message);
                bitcoin_uri.append(encoded.as_str());
            },
            None => {},
        }
        let mut qr_code_svg = String::from_str("<svg>QR for ");
        qr_code_svg.append(request.address.as_str());
        qr_code_svg.append("</svg>");
        proof {
            assert(bitcoin_uri@ =~= spec_bitcoin_uri(request));
            assert(qr_code_svg@ =~= spec_qr_svg(request.address@));
        }
        QRCodeData {
            bitcoin_address: request.address,
            invoice_id: request.label,
            qr_code_svg,
            bitcoin_uri,
            amount_satoshi: request.amount_satoshi,
        }
    }
}

/// The message attached to an invoice's QR payload: the fiat amount with
/// two decimals and the currency code.
pub open spec fn spec_pay_message(inv: crate::invoice::Invoice) -> Seq<char> {
    "Pay "@ + crate::decimal::spec_cents_amount(inv.fiat_amount as nat) + " "@
        + inv.currency.code_spec()
}

/// Builds the QR payload of an invoice for its owner: the invoice's
/// address, amount and identifier, with no message.
pub fn generate_qr_code(
    invoices: &crate::invoice::InvoiceStore,
    invoice_id: &String,
    caller_id: &String,
) -> (r: Result<QRCodeData, crate::errors::IrisError>)
    requires
        invoices.wf(),
    ensures
        invoices.spec_get(invoice_id@) is None ==> r == Err::<QRCodeData, _>(
            crate::errors::IrisError::NotFound,
        ),
        invoices.spec_get(invoice_id@) matches Some(inv) ==> if inv.merchant_id@ != caller_id@ {
            r == Err::<QRCodeData, _>(crate::errors::IrisError::Unauthorized)
        } else {
            r matches Ok(q) && q.bitcoin_address == inv.bitcoin_address && q.invoice_id == inv.id
                && q.amount_satoshi == inv.amount_satoshi && q.qr_code_svg@ == spec_qr_svg(
                inv.bitcoin_address@,
            ) && q.bitcoin_uri@ == spec_bitcoin_uri(
                QRCodeRequest {
                    address: inv.bitcoin_address,
                    amount_satoshi: inv.amount_satoshi,
                    label: inv.id,
                    message: None,
                },
            )
        },
{
    let invoice = match invoices.get_invoice(invoice_id, caller_id) {
        Ok(inv) => inv,
        Err(e) => {
            return Err(e);
        },
    };
    let request = QRCodeRequest::new(
        invoice.bitcoin_address,
        invoice.amount_satoshi,
        invoice.id,
    );
    Ok(QRService::generate_qr_code(request))
}

/// Builds the QR payload of an invoice for its owner, with a payment
/// message quoting the fiat amount and currency.
pub fn generate_invoice_qr(
    invoices: &crate::invoice::InvoiceStore,
    invoice_id: &String,
    caller_id: &String,
) -> (r: Result<QRCodeData, crate::errors::IrisError>)
    requires
        invoices.wf(),
    ensures
        invoices.spec_get(invoice_id@) is None ==> r == Err::<QRCodeData, _>(
            crate::errors::IrisError::NotFound,
        ),
        invoices.spec_get(invoice_id@) matches Some(inv) ==> if inv.merchant_id@ != caller_id@ {
            r == Err::<QRCodeData, _>(crate::errors::IrisError::Unauthorized)
        } else {
            r matches Ok(q) && q.bitcoin_address == inv.bitcoin_address && q.invoice_id == inv.id
                && q.amount_satoshi == inv.amount_satoshi && q.qr_code_svg@ == spec_qr_svg(
                inv.bitcoin_address@,
            ) && q.bitcoin_uri@ == spec_bitcoin_uri_parts(
                inv.bitcoin_address@,
                inv.amount_satoshi as nat,
                inv.id@,
                Some(spec_pay_message(inv)),
            )
        },
{
    let invoice = match invoices.get_invoice(invoice_id, caller_id) {
        Ok(inv) => inv,
        Err(e) => {
            return Err(e);
        },
    };
    let mut message = String::from_str("Pay ");
    let fiat = crate::decimal::cents_amount_string(invoice.fiat_amount);
    message.append(fiat.as_str());
    message.append(" ");
    message.append(invoice.currency.code());
    proof {
        assert(message@ =~= spec_pay_message(invoice));
    }
    let request = QRCodeRequest::new(
        invoice.bitcoin_address,
        invoice.amount_satoshi,
        invoice.id,
    ).with_message(message);
    Ok(QRService::generate_qr_code(request))
}

} // verus!
