use vstd::prelude::*;
use crate::error::PunctureError;
use crate::decode::{
    bolt11_reading, bolt11_view, offer_reading, offer_view, or_empty, read_bolt11, read_offer,
    text_or_empty,
};
use crate::text::{decimal, has_prefix, is_last_index_of, last_index_of, starts_with};

verus! {

/// The four wire formats of a payment request.
#[derive(Debug, Clone, Copy, PartialEq, Eq)]
pub enum RequestKind {
    Bolt11,
    Bolt12,
    LnUrl,
    LightningAddress,
}

/// `user@domain`: exactly one `@`, neither first nor last.
pub open spec fn is_lightning_address(s: Seq<char>) -> bool {
    exists|k: int|
        is_last_index_of(s, '@', k) && 0 < k && k + 1 < s.len() && forall|j: int|
            0 <= j < k ==> s[j] != '@'
}

/// A character of the bech32 data alphabet, in either case: digits but `1`,
/// letters but `b`, `i` and `o`.
pub open spec fn is_bech32_char(c: char) -> bool {
    ('0' <= c && c <= '9' && c != '1') || ('a' <= c && c <= 'z' && c != 'b' && c != 'i' && c
        != 'o') || ('A' <= c && c <= 'Z' && c != 'B' && c != 'I' && c != 'O')
}

/// An LNURL: `lnurl1` (or all in capitals, as bech32 allows) and one or more
/// bech32 characters.
pub open spec fn is_lnurl(s: Seq<char>) -> bool {
    &&& starts_with(s, "lnurl1"@) || starts_with(s, "LNURL1"@)
    &&& s.len() > "lnurl1"@.len()
    &&& forall|j: int| "lnurl1"@.len() <= j < s.len() ==> is_bech32_char(#[trigger] s[j])
}

/// The format of `s` read as a request that carries no amount, given what it
/// reads as a Bolt11 invoice and as a Bolt12 offer.
pub open spec fn kind_from(
    s: Seq<char>,
    bolt11: Option<(Option<u64>, Option<Seq<char>>)>,
    offer: Option<(Option<u64>, bool, Option<Seq<char>>)>,
) -> Option<RequestKind> {
    if is_lnurl(s) {
        Some(RequestKind::LnUrl)
    } else if bolt11 matches Some((None, _)) {
        Some(RequestKind::Bolt11)
    } else if offer matches Some((None, false, _)) {
        Some(RequestKind::Bolt12)
    } else if is_lightning_address(s) {
        Some(RequestKind::LightningAddress)
    } else {
        None
    }
}

/// The description that a request of kind `k` carries, given the readings.
pub open spec fn described_from(
    k: RequestKind,
    bolt11: Option<(Option<u64>, Option<Seq<char>>)>,
    offer: Option<(Option<u64>, bool, Option<Seq<char>>)>,
) -> Seq<char> {
    match k {
        RequestKind::Bolt11 => match bolt11 {
            Some((_, d)) => text_or_empty(d),
            None => Seq::empty(),
        },
        RequestKind::Bolt12 => match offer {
            Some((_, _, d)) => text_or_empty(d),
            None => Seq::empty(),
        },
        _ => Seq::empty(),
    }
}

/// The format of `s` read as a request that carries no amount, if it is one.
pub open spec fn request_kind(s: Seq<char>) -> Option<RequestKind> {
    kind_from(s, bolt11_reading(s), offer_reading(s))
}

/// A payment target whose amount is not known yet.
#[derive(Debug, Clone, PartialEq, Eq)]
pub enum PaymentRequestWithoutAmount {
    /// An invoice and its description.
    Bolt11(String, String),
    /// An offer and its description.
    Bolt12(String, String),
    LnUrl(String),
    LightningAddress(String),
}

/// A Bolt11 invoice with the amount to pay.
#[derive(Debug, Clone, PartialEq, Eq)]
pub struct Bolt11Payment {
    pub invoice: String,
    pub amount_msat: u64,
    pub description: String,
    /// The Lightning Address the invoice was obtained from, if any.
    pub ln_address: Option<String>,
}

/// A Bolt12 offer with the amount to pay.
#[derive(Debug, Clone, PartialEq, Eq)]
pub struct Bolt12Payment {
    pub offer: String,
    pub amount_msat: u64,
    pub description: String,
}

/// A payment target that is ready to be sent.
#[derive(Debug, Clone, PartialEq, Eq)]
pub enum PaymentRequestWithAmount {
    Bolt11(Bolt11Payment),
    Bolt12(Bolt12Payment),
}

/// A parsed request without an amount; it becomes payable only through resolution.
#[derive(Debug)]
pub struct PaymentRequestWithoutAmountWrapper {
    request: PaymentRequestWithoutAmount,
}

/// A payable request. Its amount is fixed when it is built.
#[derive(Debug)]
pub struct PaymentRequestWithAmountWrapper {
    request: PaymentRequestWithAmount,
}

/// Amount bounds that a payee's service advertises.
#[derive(Debug, Clone, Copy, PartialEq, Eq)]
pub struct ServiceBounds {
    pub min_sendable_msat: u64,
    pub max_sendable_msat: u64,
}

/// The invoice that a payee's service minted for a requested amount.
#[derive(Debug, Clone, PartialEq, Eq)]
pub struct ServiceInvoice {
    pub invoice: String,
    pub description: String,
}

impl PaymentRequestWithoutAmountWrapper {
    pub closed spec fn kind(&self) -> RequestKind {
        match self.request {
            PaymentRequestWithoutAmount::Bolt11(_, _) => RequestKind::Bolt11,
            PaymentRequestWithoutAmount::Bolt12(_, _) => RequestKind::Bolt12,
            PaymentRequestWithoutAmount::LnUrl(_) => RequestKind::LnUrl,
            PaymentRequestWithoutAmount::LightningAddress(_) => RequestKind::LightningAddress,
        }
    }

    /// The request's text: invoice, offer, LNURL or address.
    pub closed spec fn target(&self) -> Seq<char> {
        match self.request {
            PaymentRequestWithoutAmount::Bolt11(t, _) => t@,
            PaymentRequestWithoutAmount::Bolt12(t, _) => t@,
            PaymentRequestWithoutAmount::LnUrl(t) => t@,
            PaymentRequestWithoutAmount::LightningAddress(t) => t@,
        }
    }

    /// The description an invoice or offer carries; empty for the others.
    pub closed spec fn described(&self) -> Seq<char> {
        match self.request {
            PaymentRequestWithoutAmount::Bolt11(_, d) => d@,
            PaymentRequestWithoutAmount::Bolt12(_, d) => d@,
            _ => Seq::empty(),
        }
    }

    pub fn description(&self) -> (r: String)
        ensures
            r@ == self.described(),
    {
        match &self.request {
            PaymentRequestWithoutAmount::Bolt11(_, d) => d.clone(),
            PaymentRequestWithoutAmount::Bolt12(_, d) => d.clone(),
            _ => String::new(),
        }
    }

    pub fn request_kind(&self) -> (r: RequestKind)
        ensures
            r == self.kind(),
    {
        match &self.request {
            PaymentRequestWithoutAmount::Bolt11(_, _) => RequestKind::Bolt11,
            PaymentRequestWithoutAmount::Bolt12(_, _) => RequestKind::Bolt12,
            PaymentRequestWithoutAmount::LnUrl(_) => RequestKind::LnUrl,
            PaymentRequestWithoutAmount::LightningAddress(_) => RequestKind::LightningAddress,
        }
    }

    /// The request's text.
    pub fn text(&self) -> (r: String)
        ensures
            r@ == self.target(),
    {
        match &self.request {
            PaymentRequestWithoutAmount::Bolt11(t, _) => t.clone(),
            PaymentRequestWithoutAmount::Bolt12(t, _) => t.clone(),
            PaymentRequestWithoutAmount::LnUrl(t) => t.clone(),
            PaymentRequestWithoutAmount::LightningAddress(t) => t.clone(),
        }
    }

    /// A short label: the format's name, or the address itself.
    pub fn display(&self) -> (r: String)
        ensures
            r@ == match self.kind() {
                RequestKind::Bolt11 => "Bolt11 Invoice"@,
                RequestKind::Bolt12 => "Bolt12 Offer"@,
                RequestKind::LnUrl => "LnUrl"@,
                RequestKind::LightningAddress => self.target(),
            },
    {
        match &self.request {
            PaymentRequestWithoutAmount::Bolt11(_, _) => String::from_str("Bolt11 Invoice"),
            PaymentRequestWithoutAmount::Bolt12(_, _) => String::from_str("Bolt12 Offer"),
            PaymentRequestWithoutAmount::LnUrl(_) => String::from_str("LnUrl"),
            PaymentRequestWithoutAmount::LightningAddress(address) => address.clone(),
        }
    }
}

impl PaymentRequestWithAmountWrapper {
    pub closed spec fn is_bolt11(&self) -> bool {
        self.request is Bolt11
    }

    pub closed spec fn amount(&self) -> u64 {
        match self.request {
            PaymentRequestWithAmount::Bolt11(p) => p.amount_msat,
            PaymentRequestWithAmount::Bolt12(p) => p.amount_msat,
        }
    }

    /// The invoice or offer to pay.
    pub closed spec fn target(&self) -> Seq<char> {
        match self.request {
            PaymentRequestWithAmount::Bolt11(p) => p.invoice@,
            PaymentRequestWithAmount::Bolt12(p) => p.offer@,
        }
    }

    pub closed spec fn described(&self) -> Seq<char> {
        match self.request {
            PaymentRequestWithAmount::Bolt11(p) => p.description@,
            PaymentRequestWithAmount::Bolt12(p) => p.description@,
        }
    }

    /// The Lightning Address a Bolt11 invoice came from, if any.
    pub closed spec fn address(&self) -> Option<Seq<char>> {
        match self.request {
            PaymentRequestWithAmount::Bolt11(p) => match p.ln_address {
                Some(a) => Some(a@),
                None => None,
            },
            PaymentRequestWithAmount::Bolt12(_) => None,
        }
    }

    /// Amount to pay, in millisatoshis.
    pub fn amount_msat(&self) -> (r: u64)
        ensures
            r == self.amount(),
    {
        match &self.request {
            PaymentRequestWithAmount::Bolt11(p) => p.amount_msat,
            PaymentRequestWithAmount::Bolt12(p) => p.amount_msat,
        }
    }

    pub fn description(&self) -> (r: String)
        ensures
            r@ == self.described(),
    {
        match &self.request {
            PaymentRequestWithAmount::Bolt11(p) => p.description.clone(),
            PaymentRequestWithAmount::Bolt12(p) => p.description.clone(),
        }
    }

    /// "Invoice for N sats" or "Offer for N sats"; N is the amount in whole
    /// satoshis, the sub-satoshi remainder dropped.
    pub fn display(&self) -> (r: String)
        ensures
            r@ == (if self.is_bolt11() { "Invoice for "@ } else { "Offer for "@ }) + decimal(
                (self.amount() / 1000) as nat,
            ) + " sats"@,
    {
        let mut r = match &self.request {
            PaymentRequestWithAmount::Bolt11(_) => String::from_str("Invoice for "),
            PaymentRequestWithAmount::Bolt12(_) => String::from_str("Offer for "),
        };
        let sats = decimal_string(self.amount_msat() / 1000);
        r.append(sats.as_str());
        r.append(" sats");
        r
    }
}

/// The decimal digits of `n`, most significant first.
pub(crate) fn decimal_string(n: u64) -> (r: String)
    ensures
        r@ == decimal(n as nat),
    decreases n,
{
    let digits = "0123456789";
    proof {
        reveal_strlit("0123456789");
    }
    let d = (n % 10) as usize;
    let last = digits.substring_char(d, d + 1);
    assert(last@ =~= seq![('0' as u8 + (n % 10) as nat) as char]) by {
        assert(last@[0] == digits@[d as int]);
        assert(digits@ =~= seq!['0', '1', '2', '3', '4', '5', '6', '7', '8', '9']);
    }
    if n < 10 {
        String::from_str(last)
    } else {
        let mut r = decimal_string(n / 10);
        r.append(last);
        r
    }
}


fn lnurl(s: &str) -> (r: bool)
    ensures
        r == is_lnurl(s@),
{
    let start = "lnurl1".unicode_len();
    let n = s.unicode_len();
    if !(has_prefix(s, "lnurl1") || has_prefix(s, "LNURL1")) || n <= start {
        return false;
    }
    let mut j: usize = start;
    while j < n
        invariant
            start == "lnurl1"@.len(),
            start <= j <= n == s@.len(),
            forall|i: int| start <= i < j ==> is_bech32_char(#[trigger] s@[i]),
        decreases n - j,
    {
        let c = s.get_char(j);
        let ok = ('0' <= c && c <= '9' && c != '1') || ('a' <= c && c <= 'z' && c != 'b' && c
            != 'i' && c != 'o') || ('A' <= c && c <= 'Z' && c != 'B' && c != 'I' && c != 'O');
        if !ok {
            assert(!is_bech32_char(s@[j as int]));
            return false;
        }
        j = j + 1;
    }
    true
}

fn lightning_address(s: &str) -> (r: bool)
    ensures
        r == is_lightning_address(s@),
{
    let k = match last_index_of(s, '@') {
        None => return false,
        Some(k) => k,
    };
    proof {
        if is_lightning_address(s@) {
            let w = choose|w: int|
                is_last_index_of(s@, '@', w) && 0 < w && w + 1 < s@.len() && forall|j: int|
                    0 <= j < w ==> s@[j] != '@';
            assert(w == k);
        }
    }
    if k == 0 || k >= s.unicode_len() - 1 {
        return false;
    }
    let mut j: usize = 0;
    while j < k
        invariant
            j <= k,
            is_last_index_of(s@, '@', k as int),
            forall|i: int| 0 <= i < j ==> s@[i] != '@',
        decreases k - j,
    {
        if s.get_char(j) == '@' {
            return false;
        }
        j = j + 1;
    }
    true
}

/// A request resolves without its payee's service exactly when it is a Bolt11
/// invoice or a Bolt12 offer.
pub open spec fn resolves_locally(k: RequestKind) -> bool {
    k == RequestKind::Bolt11 || k == RequestKind::Bolt12
}

/// Builds the request that `text` states with its own amount, from what
/// `text` reads as a Bolt11 invoice and as a Bolt12 offer: an invoice with an
/// amount, else an offer with an amount in bitcoin, each with its description.
pub fn with_amount_from(
    text: &str,
    bolt11: Option<(Option<u64>, Option<String>)>,
    offer: Option<(Option<u64>, bool, Option<String>)>,
) -> (r: Option<PaymentRequestWithAmountWrapper>)
    ensures
        match bolt11_view(bolt11) {
            Some((Some(a), d)) => r matches Some(w) && w.is_bolt11() && w.amount() == a
                && w.target() == text@ && w.described() == text_or_empty(d) && w.address()
                == None::<Seq<char>>,
            _ => match offer_view(offer) {
                Some((Some(a), _, d)) => r matches Some(w) && !w.is_bolt11() && w.amount() == a
                    && w.target() == text@ && w.described() == text_or_empty(d),
                _ => r.is_none(),
            },
        },
{
    match bolt11 {
        Some((Some(a), d)) => {
            return Some(
                PaymentRequestWithAmountWrapper {
                    request: PaymentRequestWithAmount::Bolt11(
                        Bolt11Payment {
                            invoice: String::from_str(text),
                            amount_msat: a,
                            description: or_empty(d),
                            ln_address: None,
                        },
                    ),
                },
            );
        },
        _ => {},
    }
    match offer {
        Some((Some(a), _, d)) => Some(
            PaymentRequestWithAmountWrapper {
                request: PaymentRequestWithAmount::Bolt12(
                    Bolt12Payment {
                        offer: String::from_str(text),
                        amount_msat: a,
                        description: or_empty(d),
                    },
                ),
            },
        ),
        _ => None,
    }
}

/// Reads `text` as a request that carries its own amount: a valid Bolt11
/// invoice with an amount, or a valid Bolt12 offer with an amount in bitcoin.
pub fn parse_with_amount(text: &str) -> (r: Option<PaymentRequestWithAmountWrapper>)
    ensures
        match bolt11_reading(text@) {
            Some((Some(a), d)) => r matches Some(w) && w.is_bolt11() && w.amount() == a
                && w.target() == text@ && w.described() == text_or_empty(d) && w.address()
                == None::<Seq<char>>,
            _ => match offer_reading(text@) {
                Some((Some(a), _, d)) => r matches Some(w) && !w.is_bolt11() && w.amount() == a
                    && w.target() == text@ && w.described() == text_or_empty(d),
                _ => r.is_none(),
            },
        },
{
    with_amount_from(text, read_bolt11(text), read_offer(text))
}

/// Builds the request without an amount that `text` states, given what it
/// reads as a Bolt11 invoice and as a Bolt12 offer, as `kind_from` decides.
pub fn without_amount_from(
    text: &str,
    bolt11: Option<(Option<u64>, Option<String>)>,
    offer: Option<(Option<u64>, bool, Option<String>)>,
) -> (r: Option<PaymentRequestWithoutAmountWrapper>)
    ensures
        match kind_from(text@, bolt11_view(bolt11), offer_view(offer)) {
            Some(k) => r matches Some(w) && w.kind() == k && w.target() == text@ && w.described()
                == described_from(k, bolt11_view(bolt11), offer_view(offer)),
            None => r.is_none(),
        },
{
    let t = String::from_str(text);
    if lnurl(text) {
        return Some(
            PaymentRequestWithoutAmountWrapper { request: PaymentRequestWithoutAmount::LnUrl(t) },
        );
    }
    match bolt11 {
        Some((None, d)) => {
            return Some(
                PaymentRequestWithoutAmountWrapper {
                    request: PaymentRequestWithoutAmount::Bolt11(t, or_empty(d)),
                },
            );
        },
        _ => {},
    }
    match offer {
        Some((None, false, d)) => {
            return Some(
                PaymentRequestWithoutAmountWrapper {
                    request: PaymentRequestWithoutAmount::Bolt12(t, or_empty(d)),
                },
            );
        },
        _ => {},
    }
    if lightning_address(text) {
        Some(
            PaymentRequestWithoutAmountWrapper {
                request: PaymentRequestWithoutAmount::LightningAddress(t),
            },
        )
    } else {
        None
    }
}

/// Reads `text` as a request without an amount, in whichever of the four
/// formats it is written.
pub fn parse_without_amount(text: &str) -> (r: Option<PaymentRequestWithoutAmountWrapper>)
    ensures
        match request_kind(text@) {
            Some(k) => r matches Some(w) && w.kind() == k && w.target() == text@ && w.described()
                == described_from(k, bolt11_reading(text@), offer_reading(text@)),
            None => r.is_none(),
        },
{
    without_amount_from(text, read_bolt11(text), read_offer(text))
}

/// Attaches `amount_msat` to a Bolt11 invoice or Bolt12 offer, which keeps
/// its description. An LNURL or Lightning Address needs its payee's service:
/// `None`.
pub fn resolve_locally(request: &PaymentRequestWithoutAmountWrapper, amount_msat: u64) -> (r:
    Option<PaymentRequestWithAmountWrapper>)
    ensures
        match request.kind() {
            RequestKind::Bolt11 => r matches Some(w) && w.is_bolt11() && w.amount() == amount_msat
                && w.target() == request.target() && w.described() == request.described()
                && w.address() == None::<Seq<char>>,
            RequestKind::Bolt12 => r matches Some(w) && !w.is_bolt11() && w.amount() == amount_msat
                && w.target() == request.target() && w.described() == request.described(),
            _ => r.is_none(),
        },
{
    match &request.request {
        PaymentRequestWithoutAmount::Bolt11(invoice, description) => Some(
            PaymentRequestWithAmountWrapper {
                request: PaymentRequestWithAmount::Bolt11(
                    Bolt11Payment {
                        invoice: invoice.clone(),
                        amount_msat,
                        description: description.clone(),
                        ln_address: None,
                    },
                ),
            },
        ),
        PaymentRequestWithoutAmount::Bolt12(offer, description) => Some(
            PaymentRequestWithAmountWrapper {
                request: PaymentRequestWithAmount::Bolt12(
                    Bolt12Payment {
                        offer: offer.clone(),
                        amount_msat,
                        description: description.clone(),
                    },
                ),
            },
        ),
        _ => None,
    }
}

/// Checks `amount_msat` against what the payee's service answered: its own
/// failure is passed on, an amount outside its bounds is refused with them.
pub fn check_service_bounds(amount_msat: u64, bounds: Result<ServiceBounds, PunctureError>) -> (r:
    Result<(), PunctureError>)
    ensures
        match bounds {
            Err(e) => r == Err::<(), PunctureError>(e),
            Ok(b) => if b.min_sendable_msat <= amount_msat <= b.max_sendable_msat {
                r == Ok::<(), PunctureError>(())
            } else {
                r == Err::<(), PunctureError>(
                    PunctureError::AmountOutOfBounds {
                        min_msat: b.min_sendable_msat,
                        max_msat: b.max_sendable_msat,
                    },
                )
            },
        },
{
    match bounds {
        Err(e) => Err(e),
        Ok(b) => if b.min_sendable_msat <= amount_msat && amount_msat <= b.max_sendable_msat {
            Ok(())
        } else {
            Err(
                PunctureError::AmountOutOfBounds {
                    min_msat: b.min_sendable_msat,
                    max_msat: b.max_sendable_msat,
                },
            )
        },
    }
}

/// What `resolve_with_service` returns: for a Bolt11 or Bolt12 request, the
/// request with `amount_msat` attached and its description kept; for an LNURL or Lightning Address, the
/// service's failure, or its invoice if that is a Bolt11 invoice for exactly
/// `amount_msat` (carrying the address it came from), else
/// `InvalidServiceInvoice`.
pub open spec fn resolved_with_service(
    request: PaymentRequestWithoutAmountWrapper,
    amount_msat: u64,
    minted: Result<ServiceInvoice, PunctureError>,
    r: Result<PaymentRequestWithAmountWrapper, PunctureError>,
) -> bool {
    match request.kind() {
        RequestKind::Bolt11 | RequestKind::Bolt12 => r matches Ok(w) && w.amount() == amount_msat
            && w.target() == request.target() && w.is_bolt11() == (request.kind()
            == RequestKind::Bolt11) && w.described() == request.described() && w.address()
            == None::<Seq<char>>,
        _ => match minted {
            Err(e) => r == Err::<PaymentRequestWithAmountWrapper, PunctureError>(e),
            Ok(m) => if bolt11_reading(m.invoice@) matches Some((Some(a), _)) && a == amount_msat {
                r matches Ok(w) && w.is_bolt11() && w.amount() == amount_msat && w.target()
                    == m.invoice@ && w.described() == m.description@ && w.address() == (
                if request.kind() == RequestKind::LightningAddress {
                    Some(request.target())
                } else {
                    None
                })
            } else {
                r matches Err(e) && e is InvalidServiceInvoice
            },
        },
    }
}

/// What resolving needs next, or its outcome.
pub enum ResolveAction {
    /// Resolution is over.
    Done(Result<PaymentRequestWithAmountWrapper, PunctureError>),
    /// Ask the payee's service for its amount bounds.
    FetchBounds,
    /// Ask the payee's service to mint an invoice for the amount.
    FetchInvoice,
}

/// What the caller hands to the next step of resolving.
pub enum ResolveInput {
    /// The first step.
    Start,
    /// The service's answer to `FetchBounds`.
    Bounds(Result<ServiceBounds, PunctureError>),
    /// The service's answer to `FetchInvoice`.
    Minted(Result<ServiceInvoice, PunctureError>),
}

/// One step of resolving `request` for `amount_msat`. A Bolt11 or Bolt12
/// request is done at the start; an LNURL or Lightning Address first asks for
/// the service's bounds, stops if the amount lies outside them, and then asks
/// for an invoice.
pub fn resolve_payment_request(
    request: &PaymentRequestWithoutAmountWrapper,
    amount_msat: u64,
    input: ResolveInput,
) -> (r: ResolveAction)
    ensures
        match input {
            ResolveInput::Start => if resolves_locally(request.kind()) {
                r matches ResolveAction::Done(Ok(w)) && w.amount() == amount_msat && w.target()
                    == request.target() && w.is_bolt11() == (request.kind() == RequestKind::Bolt11)
                    && w.described() == request.described() && w.address() == None::<Seq<char>>
            } else {
                r is FetchBounds
            },
            ResolveInput::Bounds(Err(e)) => r matches ResolveAction::Done(d) && d == Err::<
                PaymentRequestWithAmountWrapper,
                PunctureError,
            >(e),
            ResolveInput::Bounds(Ok(b)) => if b.min_sendable_msat <= amount_msat
                <= b.max_sendable_msat {
                r is FetchInvoice
            } else {
                r matches ResolveAction::Done(d) && d == Err::<
                    PaymentRequestWithAmountWrapper,
                    PunctureError,
                >(
                    PunctureError::AmountOutOfBounds {
                        min_msat: b.min_sendable_msat,
                        max_msat: b.max_sendable_msat,
                    },
                )
            },
            ResolveInput::Minted(m) => r matches ResolveAction::Done(d) && resolved_with_service(
                *request,
                amount_msat,
                m,
                d,
            ),
        },
{
    match input {
        ResolveInput::Start => match resolve_locally(request, amount_msat) {
            Some(w) => ResolveAction::Done(Ok(w)),
            None => ResolveAction::FetchBounds,
        },
        ResolveInput::Bounds(b) => match check_service_bounds(amount_msat, b) {
            Ok(()) => ResolveAction::FetchInvoice,
            Err(e) => ResolveAction::Done(Err(e)),
        },
        ResolveInput::Minted(m) => ResolveAction::Done(resolve_with_service(request, amount_msat, m)),
    }
}

/// Completes the resolution of `request` for `amount_msat`. A Bolt11 or Bolt12
/// request resolves as `resolve_locally` does and ignores `minted`. For an
/// LNURL or Lightning Address, `minted` is what the payee's service answered:
/// its failure is passed on, and its invoice is taken only if it is a Bolt11
/// invoice for exactly `amount_msat`.
pub fn resolve_with_service(
    request: &PaymentRequestWithoutAmountWrapper,
    amount_msat: u64,
    minted: Result<ServiceInvoice, PunctureError>,
) -> (r: Result<PaymentRequestWithAmountWrapper, PunctureError>)
    ensures
        resolved_with_service(*request, amount_msat, minted, r),
{
    match resolve_locally(request, amount_msat) {
        Some(w) => return Ok(w),
        None => {},
    }
    let m = match minted {
        Err(e) => return Err(e),
        Ok(m) => m,
    };
    match read_bolt11(m.invoice.as_str()) {
        Some((Some(a), _)) => if a == amount_msat {
            let ln_address = match &request.request {
                PaymentRequestWithoutAmount::LightningAddress(address) => Some(address.clone()),
                _ => None,
            };
            Ok(
                PaymentRequestWithAmountWrapper {
                    request: PaymentRequestWithAmount::Bolt11(
                        Bolt11Payment {
                            invoice: m.invoice,
                            amount_msat,
                            description: m.description,
                            ln_address,
                        },
                    ),
                },
            )
        } else {
            Err(PunctureError::InvalidServiceInvoice)
        },
        _ => Err(PunctureError::InvalidServiceInvoice),
    }
}


/// What a connection transmits to pay a request.
#[derive(Debug, Clone, PartialEq, Eq)]
pub enum SendCommand {
    Bolt11 { invoice: String, amount_msat: u64, ln_address: Option<String> },
    Bolt12 { offer: String, amount_msat: u64 },
}

impl PaymentRequestWithAmountWrapper {
    /// The command that pays this request: the invoice (with the address it
    /// came from) or the offer, and always the request's own amount.
    pub fn send_command(&self) -> (r: SendCommand)
        ensures
            match r {
                SendCommand::Bolt11 { invoice, amount_msat, ln_address } => self.is_bolt11()
                    && invoice@ == self.target() && amount_msat == self.amount() && self.address()
                    == match ln_address {
                    Some(a) => Some(a@),
                    None => None::<Seq<char>>,
                },
                SendCommand::Bolt12 { offer, amount_msat } => !self.is_bolt11() && offer@
                    == self.target() && amount_msat == self.amount(),
            },
    {
        match &self.request {
            PaymentRequestWithAmount::Bolt11(p) => SendCommand::Bolt11 {
                invoice: p.invoice.clone(),
                amount_msat: p.amount_msat,
                ln_address: match &p.ln_address {
                    Some(a) => Some(a.clone()),
                    None => None,
                },
            },
            PaymentRequestWithAmount::Bolt12(p) => SendCommand::Bolt12 {
                offer: p.offer.clone(),
                amount_msat: p.amount_msat,
            },
        }
    }
}

} // verus!
