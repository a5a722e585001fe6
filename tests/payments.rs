use puncture::{
    check_service_bounds, parse_with_amount, parse_without_amount, quote_fee, resolve_locally,
    resolve_payment_request, resolve_with_service, with_amount_from, without_amount_from,
    FeeSchedule, PunctureError, RequestKind, ResolveAction, ResolveInput, SendCommand,
    ServiceBounds, ServiceInvoice,
};

// Bolt11 invoices: no amount; 2500u with a description; 20m with a description hash.
const INVOICE_NO_AMOUNT: &str = "lnbc1pvjluezsp5zyg3zyg3zyg3zyg3zyg3zyg3zyg3zyg3zyg3zyg3zyg3zyg3zygspp5qqqsyqcyq5rqwzqfqqqsyqcyq5rqwzqfqqqsyqcyq5rqwzqfqypqdpl2pkx2ctnv5sxxmmwwd5kgetjypeh2ursdae8g6twvus8g6rfwvs8qun0dfjkxaq9qrsgq357wnc5r2ueh7ck6q93dj32dlqnls087fxdwk8qakdyafkq3yap9us6v52vjjsrvywa6rt52cm9r9zqt8r2t7mlcwspyetp5h2tztugp9lfyql";
const INVOICE_COFFEE: &str = "lnbc2500u1pvjluezsp5zyg3zyg3zyg3zyg3zyg3zyg3zyg3zyg3zyg3zyg3zyg3zyg3zygspp5qqqsyqcyq5rqwzqfqqqsyqcyq5rqwzqfqqqsyqcyq5rqwzqfqypqdq5xysxxatsyp3k7enxv4jsxqzpu9qrsgquk0rl77nj30yxdy8j9vdx85fkpmdla2087ne0xh8nhedh8w27kyke0lp53ut353s06fv3qfegext0eh0ymjpf39tuven09sam30g4vgpfna3rh";
const INVOICE_HASHED: &str = "lnbc20m1pvjluezsp5zyg3zyg3zyg3zyg3zyg3zyg3zyg3zyg3zyg3zyg3zyg3zyg3zygspp5qqqsyqcyq5rqwzqfqqqsyqcyq5rqwzqfqqqsyqcyq5rqwzqfqypqhp58yjmdan79s6qqdhdzgynm4zwqd5d7xmw5fk98klysy043l2ahrqs9qrsgq7ea976txfraylvgzuxs8kgcw23ezlrszfnh8r6qtfpr6cxga50aj6txm9rxrydzd06dfeawfk6swupvz4erwnyutnjq7x39ymw6j38gp7ynn44";
// Bolt12 offers: with a description and no amount; minimal; with an amount; in a currency.
const OFFER_NO_AMOUNT: &str = "lno1pgx9getnwss8vetrw3hhyuckyypwa3eyt44h6txtxquqh7lz5djge4afgfjn7k4rgrkuag0jsd5xvxg";
const OFFER_MINIMAL: &str = "lno1zcss9mk8y3wkklfvevcrszlmu23kfrxh49px20665dqwmn4p72pksese";
const OFFER_AMOUNT: &str = "lno1pqpzwyq2p32x2um5ypmx2cm5dae8x93pqthvwfzadd7jejes8q9lhc4rvjxd022zv5l44g6qah82ru5rdpnpj";
const OFFER_CURRENCY: &str = "lno1qcp4256ypqpzwyq2p32x2um5ypmx2cm5dae8x93pqthvwfzadd7jejes8q9lhc4rvjxd022zv5l44g6qah82ru5rdpnpj";
const LNURL: &str = "lnurl1dp68gurn8ghj7um9wfmxjcm99e3k7mf0v9cxj0m385ekvcenxc6r2c35xvukxefcv5mkvv34x5ekzd3ev56nyd3hxqurzepexejxxepnxscrvwfnv9nxzcn9xq6xyefhvgcxxcmyxymnserxfq5fns";

#[test]
fn quote_fee_formula() {
    let fees = FeeSchedule { fee_ppm: 5_000, base_fee_msat: 1_000 };
    assert_eq!(quote_fee(1_000_000, &fees), Some(6_000));
    assert_eq!(quote_fee(0, &fees), Some(1_000));
    // floor division: 199 * 5000 / 1e6 = 0.995 -> 0
    assert_eq!(quote_fee(199, &fees), Some(1_000));
    assert_eq!(quote_fee(12_345_678, &FeeSchedule { fee_ppm: 2_500, base_fee_msat: 0 }), Some(30_864));
}

#[test]
fn quote_fee_overflow() {
    let fees = FeeSchedule { fee_ppm: 1_000_000, base_fee_msat: 1 };
    assert_eq!(quote_fee(u64::MAX, &fees), None);
    let fees = FeeSchedule { fee_ppm: 1_000_000, base_fee_msat: 0 };
    assert_eq!(quote_fee(u64::MAX, &fees), Some(u64::MAX));
    let fees = FeeSchedule { fee_ppm: u64::MAX, base_fee_msat: u64::MAX };
    assert_eq!(quote_fee(0, &fees), Some(u64::MAX));
}

#[test]
fn parse_with_amount_invoice() {
    let r = parse_with_amount(INVOICE_COFFEE).unwrap();
    assert_eq!(r.amount_msat(), 250_000_000);
    assert_eq!(r.description(), "1 cup coffee");
    assert_eq!(r.display(), "Invoice for 250000 sats");
    assert_eq!(
        r.send_command(),
        SendCommand::Bolt11 { invoice: INVOICE_COFFEE.to_string(), amount_msat: 250_000_000, ln_address: None }
    );
    let hashed = parse_with_amount(INVOICE_HASHED).unwrap();
    assert_eq!(hashed.amount_msat(), 2_000_000_000);
    assert_eq!(hashed.description(), "");
}

#[test]
fn parse_with_amount_offer() {
    let r = parse_with_amount(OFFER_AMOUNT).unwrap();
    assert_eq!(r.amount_msat(), 10_000);
    assert_eq!(r.description(), "Test vectors");
    assert_eq!(r.display(), "Offer for 10 sats");
    assert_eq!(r.send_command(), SendCommand::Bolt12 { offer: OFFER_AMOUNT.to_string(), amount_msat: 10_000 });
}

#[test]
fn parse_with_amount_rejects() {
    assert!(parse_with_amount(INVOICE_NO_AMOUNT).is_none());
    assert!(parse_with_amount(OFFER_NO_AMOUNT).is_none());
    assert!(parse_with_amount(OFFER_CURRENCY).is_none());
    assert!(parse_with_amount(LNURL).is_none());
    assert!(parse_with_amount("alice@example.com").is_none());
    assert!(parse_with_amount("").is_none());
    // a broken checksum is no invoice
    let mut broken = INVOICE_COFFEE.to_string();
    broken.pop();
    broken.push('q');
    assert!(parse_with_amount(&broken).is_none());
    assert!(parse_with_amount(&INVOICE_COFFEE[..INVOICE_COFFEE.len() - 5]).is_none());
}

#[test]
fn with_amount_from_readings() {
    let r = with_amount_from("x", Some((Some(5), Some("d".to_string()))), None).unwrap();
    assert_eq!(r.amount_msat(), 5);
    assert_eq!(r.description(), "d");
    assert_eq!(r.send_command(), SendCommand::Bolt11 { invoice: "x".to_string(), amount_msat: 5, ln_address: None });
    let r = with_amount_from("y", Some((None, None)), Some((Some(7), false, Some("o".to_string())))).unwrap();
    assert_eq!(r.send_command(), SendCommand::Bolt12 { offer: "y".to_string(), amount_msat: 7 });
    assert_eq!(r.description(), "o");
    assert!(with_amount_from("z", Some((None, None)), None).is_none());
    assert!(with_amount_from("z", None, Some((None, true, None))).is_none());
    let hashed = with_amount_from("h", Some((Some(9), None)), None).unwrap();
    assert_eq!(hashed.description(), "");
}

#[test]
fn without_amount_from_readings() {
    let k = |t: &str, b, o| without_amount_from(t, b, o).map(|r| (r.request_kind(), r.description()));
    let some = |d: &str| Some(d.to_string());
    assert_eq!(k("abc", Some((None, some("tip"))), None), Some((RequestKind::Bolt11, "tip".to_string())));
    assert_eq!(k("abc", Some((None, None)), None), Some((RequestKind::Bolt11, String::new())));
    assert_eq!(k("abc", Some((Some(1), some("x"))), None), None);
    assert_eq!(k("abc", None, Some((None, false, some("o")))), Some((RequestKind::Bolt12, "o".to_string())));
    assert_eq!(k("abc", None, Some((None, true, None))), None);
    assert_eq!(k("LNURL1DP68", None, None), Some((RequestKind::LnUrl, String::new())));
    assert_eq!(k("lnurl1dp6b", None, None), None);
    assert_eq!(k("a@b", None, None), Some((RequestKind::LightningAddress, String::new())));
    assert_eq!(k("abc", None, None), None);
}

#[test]
fn parse_without_amount_kinds() {
    let upper = LNURL.to_uppercase();
    let cases = [
        (INVOICE_NO_AMOUNT, RequestKind::Bolt11, "Bolt11 Invoice"),
        (OFFER_NO_AMOUNT, RequestKind::Bolt12, "Bolt12 Offer"),
        (OFFER_MINIMAL, RequestKind::Bolt12, "Bolt12 Offer"),
        (LNURL, RequestKind::LnUrl, "LnUrl"),
        (upper.as_str(), RequestKind::LnUrl, "LnUrl"),
        ("alice@example.com", RequestKind::LightningAddress, "alice@example.com"),
    ];
    for (text, kind, label) in cases.iter() {
        let r = parse_without_amount(text).unwrap();
        assert_eq!(r.request_kind(), *kind);
        assert_eq!(r.text(), *text);
        assert_eq!(r.display(), *label);
    }
}

#[test]
fn parse_without_amount_rejects() {
    assert!(parse_without_amount(INVOICE_COFFEE).is_none());
    assert!(parse_without_amount(OFFER_AMOUNT).is_none());
    assert!(parse_without_amount("@example.com").is_none());
    assert!(parse_without_amount("alice@").is_none());
    assert!(parse_without_amount("a@b@c").is_none());
    assert!(parse_without_amount("lno1").is_none());
    assert!(parse_without_amount("hello").is_none());
    assert!(parse_without_amount("").is_none());
}

#[test]
fn parsing_is_deterministic() {
    for text in [INVOICE_NO_AMOUNT, INVOICE_COFFEE, OFFER_AMOUNT, "bob@pay.example", "junk"] {
        let a = parse_without_amount(text).map(|r| (r.request_kind(), r.text()));
        let b = parse_without_amount(text).map(|r| (r.request_kind(), r.text()));
        assert_eq!(a, b);
        let c = parse_with_amount(text).map(|r| (r.amount_msat(), r.description()));
        let d = parse_with_amount(text).map(|r| (r.amount_msat(), r.description()));
        assert_eq!(c, d);
    }
}

#[test]
fn resolve_round_trip() {
    for text in [INVOICE_NO_AMOUNT, OFFER_NO_AMOUNT] {
        let request = parse_without_amount(text).unwrap();
        for n in [0u64, 1, 1_999, 21_000_000_000, u64::MAX] {
            let r = resolve_locally(&request, n).unwrap();
            assert_eq!(r.amount_msat(), n);
            let again = resolve_locally(&request, n).unwrap();
            assert_eq!(again.send_command(), r.send_command());
        }
    }
    let remote = parse_without_amount("alice@example.com").unwrap();
    assert!(resolve_locally(&remote, 1_000).is_none());
}

#[test]
fn resolution_keeps_description() {
    let invoice = parse_without_amount(INVOICE_NO_AMOUNT).unwrap();
    assert_eq!(invoice.description(), "Please consider supporting this project");
    let r = resolve_locally(&invoice, 5_000).unwrap();
    assert_eq!(r.description(), "Please consider supporting this project");
    let offer = parse_without_amount(OFFER_NO_AMOUNT).unwrap();
    let described = offer.description();
    assert!(!described.is_empty());
    assert_eq!(resolve_locally(&offer, 5).unwrap().description(), described);
    assert_eq!(parse_without_amount(OFFER_MINIMAL).unwrap().description(), "");
    match resolve_payment_request(&invoice, 7, ResolveInput::Start) {
        ResolveAction::Done(Ok(w)) => assert_eq!(w.description(), "Please consider supporting this project"),
        _ => panic!("an invoice resolves at the start"),
    }
}

#[test]
fn display_truncates_sats() {
    let invoice = parse_without_amount(INVOICE_NO_AMOUNT).unwrap();
    let r = resolve_locally(&invoice, 1_999).unwrap();
    assert_eq!(r.amount_msat(), 1_999);
    assert_eq!(r.display(), "Invoice for 1 sats");
    let offer = parse_without_amount(OFFER_NO_AMOUNT).unwrap();
    assert_eq!(resolve_locally(&offer, 1_999).unwrap().display(), "Offer for 1 sats");
    assert_eq!(resolve_locally(&offer, 2_000_000).unwrap().display(), "Offer for 2000 sats");
    assert_eq!(resolve_locally(&offer, 999).unwrap().display(), "Offer for 0 sats");
}

#[test]
fn service_bounds() {
    let b = ServiceBounds { min_sendable_msat: 1_000, max_sendable_msat: 5_000 };
    assert_eq!(check_service_bounds(1_000, Ok(b)), Ok(()));
    assert_eq!(check_service_bounds(5_000, Ok(b)), Ok(()));
    assert_eq!(
        check_service_bounds(999, Ok(b)),
        Err(PunctureError::AmountOutOfBounds { min_msat: 1_000, max_msat: 5_000 })
    );
    assert_eq!(
        check_service_bounds(5_001, Ok(b)),
        Err(PunctureError::AmountOutOfBounds { min_msat: 1_000, max_msat: 5_000 })
    );
    let down = PunctureError::Unreachable("timeout".to_string());
    assert_eq!(check_service_bounds(2_000, Err(down.clone())), Err(down));
}

#[test]
fn resolve_with_service_outcomes() {
    let address = parse_without_amount("alice@example.com").unwrap();
    let minted = INVOICE_COFFEE.to_string();
    let r = resolve_with_service(
        &address,
        250_000_000,
        Ok(ServiceInvoice { invoice: minted.clone(), description: "coffee".to_string() }),
    )
    .unwrap();
    assert_eq!(r.amount_msat(), 250_000_000);
    assert_eq!(r.description(), "coffee");
    assert_eq!(
        r.send_command(),
        SendCommand::Bolt11 {
            invoice: minted.clone(),
            amount_msat: 250_000_000,
            ln_address: Some("alice@example.com".to_string())
        }
    );

    let lnurl = parse_without_amount(LNURL).unwrap();
    let r = resolve_with_service(
        &lnurl,
        250_000_000,
        Ok(ServiceInvoice { invoice: minted.clone(), description: String::new() }),
    )
    .unwrap();
    assert_eq!(
        r.send_command(),
        SendCommand::Bolt11 { invoice: minted.clone(), amount_msat: 250_000_000, ln_address: None }
    );

    let wrong = resolve_with_service(
        &address,
        3_000,
        Ok(ServiceInvoice { invoice: minted.clone(), description: String::new() }),
    );
    assert_eq!(wrong.err(), Some(PunctureError::InvalidServiceInvoice));
    let junk = resolve_with_service(
        &address,
        3_000,
        Ok(ServiceInvoice { invoice: "lnbc30n1junk".to_string(), description: String::new() }),
    );
    assert_eq!(junk.err(), Some(PunctureError::InvalidServiceInvoice));

    let down = PunctureError::Unreachable("dns".to_string());
    assert_eq!(resolve_with_service(&address, 2_000, Err(down.clone())).err(), Some(down));

    let offer = parse_without_amount(OFFER_NO_AMOUNT).unwrap();
    let r = resolve_with_service(&offer, 7, Err(PunctureError::SessionClosed)).unwrap();
    assert_eq!(r.send_command(), SendCommand::Bolt12 { offer: OFFER_NO_AMOUNT.to_string(), amount_msat: 7 });
}

#[test]
fn resolve_steps() {
    let offer = parse_without_amount(OFFER_NO_AMOUNT).unwrap();
    match resolve_payment_request(&offer, 42, ResolveInput::Start) {
        ResolveAction::Done(Ok(w)) => assert_eq!(w.amount_msat(), 42),
        _ => panic!("an offer resolves at the start"),
    }
    let address = parse_without_amount("alice@example.com").unwrap();
    assert!(matches!(resolve_payment_request(&address, 2_000, ResolveInput::Start), ResolveAction::FetchBounds));
    let bounds = ServiceBounds { min_sendable_msat: 1_000, max_sendable_msat: 5_000 };
    assert!(matches!(
        resolve_payment_request(&address, 2_000, ResolveInput::Bounds(Ok(bounds))),
        ResolveAction::FetchInvoice
    ));
    match resolve_payment_request(&address, 9_000, ResolveInput::Bounds(Ok(bounds))) {
        ResolveAction::Done(Err(e)) => {
            assert_eq!(e, PunctureError::AmountOutOfBounds { min_msat: 1_000, max_msat: 5_000 })
        }
        _ => panic!("out of bounds"),
    }
    let down = PunctureError::Unreachable("offline".to_string());
    match resolve_payment_request(&address, 2_000, ResolveInput::Bounds(Err(down.clone()))) {
        ResolveAction::Done(Err(e)) => assert_eq!(e, down),
        _ => panic!("unreachable service"),
    }
    let minted = ServiceInvoice { invoice: INVOICE_COFFEE.to_string(), description: "tea".to_string() };
    match resolve_payment_request(&address, 250_000_000, ResolveInput::Minted(Ok(minted))) {
        ResolveAction::Done(Ok(w)) => {
            assert_eq!(w.amount_msat(), 250_000_000);
            assert_eq!(w.description(), "tea");
        }
        _ => panic!("minted invoice"),
    }
}
