use vstd::prelude::*;
use lightning::offers::offer::{Amount, Offer};
use lightning_invoice::{Bolt11Invoice, Bolt11InvoiceDescriptionRef};

verus! {

/// What a Bolt11 invoice text states, when it is a valid invoice: its amount
/// in msat (if any) and its description (none when only a hash is given).
pub uninterp spec fn bolt11_reading(s: Seq<char>) -> Option<(Option<u64>, Option<Seq<char>>)>;

/// What a Bolt12 offer text states, when it is a valid offer: its amount in
/// msat (if any and in bitcoin), whether its amount is in another currency,
/// and its description, if it has one.
pub uninterp spec fn offer_reading(s: Seq<char>) -> Option<(Option<u64>, bool, Option<Seq<char>>)>;

pub open spec fn text_view(d: Option<String>) -> Option<Seq<char>> {
    match d {
        Some(t) => Some(t@),
        None => None,
    }
}

pub open spec fn bolt11_view(r: Option<(Option<u64>, Option<String>)>) -> Option<
    (Option<u64>, Option<Seq<char>>),
> {
    match r {
        Some((a, d)) => Some((a, text_view(d))),
        None => None,
    }
}

pub open spec fn offer_view(r: Option<(Option<u64>, bool, Option<String>)>) -> Option<
    (Option<u64>, bool, Option<Seq<char>>),
> {
    match r {
        Some((a, c, d)) => Some((a, c, text_view(d))),
        None => None,
    }
}

/// Relies on lightning_invoice's `Bolt11Invoice::from_str` (bech32, checksum,
/// fields and signature), then reads `amount_milli_satoshis` and `description`.
#[verifier::external_body]
pub(crate) fn read_bolt11(s: &str) -> (r: Option<(Option<u64>, Option<String>)>)
    ensures
        bolt11_view(r) == bolt11_reading(s@),
{
    let invoice = s.parse::<Bolt11Invoice>().ok()?;
    let description = match invoice.description() {
        Bolt11InvoiceDescriptionRef::Direct(d) => Some(d.to_string()),
        Bolt11InvoiceDescriptionRef::Hash(_) => None,
    };
    Some((invoice.amount_milli_satoshis(), description))
}

/// Relies on lightning's `Offer::from_str` (bech32 and the offer's fields),
/// then reads `amount` and `description`.
#[verifier::external_body]
pub(crate) fn read_offer(s: &str) -> (r: Option<(Option<u64>, bool, Option<String>)>)
    ensures
        offer_view(r) == offer_reading(s@),
{
    let offer = s.parse::<Offer>().ok()?;
    let (amount, in_currency) = match offer.amount() {
        Some(Amount::Bitcoin { amount_msats }) => (Some(amount_msats), false),
        Some(Amount::Currency { .. }) => (None, true),
        None => (None, false),
    };
    let description = match offer.description() {
        Some(d) => Some(d.to_string()),
        None => None,
    };
    Some((amount, in_currency, description))
}

/// A description as a request holds it: empty where the text gives none.
pub open spec fn text_or_empty(d: Option<Seq<char>>) -> Seq<char> {
    match d {
        Some(t) => t,
        None => Seq::empty(),
    }
}

pub fn or_empty(d: Option<String>) -> (r: String)
    ensures
        r@ == text_or_empty(text_view(d)),
{
    match d {
        Some(t) => t,
        None => String::new(),
    }
}

} // verus!
