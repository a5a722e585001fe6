use puncture::{
    parse_status, status_after, BalanceEvent, Event, PaymentTracker, PunctureError, UpdateEvent,
};
use puncture::PaymentStatus::{Failed, Pending, Settled};

#[test]
fn status_names() {
    assert_eq!(parse_status("pending"), Some(Pending));
    assert_eq!(parse_status("settled"), Some(Settled));
    assert_eq!(parse_status("failed"), Some(Failed));
    assert_eq!(parse_status("Pending"), None);
    assert_eq!(parse_status("settle"), None);
    assert_eq!(parse_status("settledx"), None);
    assert_eq!(parse_status(""), None);
}

#[test]
fn updates_move_forward_only() {
    assert_eq!(status_after(Pending, Settled), Settled);
    assert_eq!(status_after(Settled, Pending), Settled);
    assert_eq!(status_after(Failed, Pending), Failed);
    assert_eq!(status_after(Settled, Failed), Failed);
    let once = status_after(Pending, Settled);
    assert_eq!(status_after(once, Settled), once);
}

#[test]
fn error_messages() {
    assert_eq!(PunctureError::InvalidInvite.message(), "invalid invite");
    assert_eq!(PunctureError::Unreachable("dns".to_string()).message(), "unreachable: dns");
    assert_eq!(PunctureError::Rejected("no funds".to_string()).message(), "rejected: no funds");
    assert_eq!(
        PunctureError::AmountOutOfBounds { min_msat: 1_000, max_msat: 250_000 }.message(),
        "amount must be between 1000 and 250000 msat"
    );
    assert_eq!(PunctureError::DaemonUnregistered.message(), "daemon is no longer registered");
}

#[test]
fn tracker_last_terminal_status_wins() {
    let update = |id: &str, status: &str| Event::Update(UpdateEvent { id: id.to_string(), status: status.to_string() });
    let mut t = PaymentTracker::new();
    assert_eq!(t.status_of(&"1".to_string()), None);
    assert_eq!(t.observe(&Event::Balance(BalanceEvent { amount_msat: 100 })), None);
    assert_eq!(t.observe(&update("1", "pending")), Some(Pending));
    assert_eq!(t.observe(&update("1", "settled")), Some(Settled));
    // a late pending update does not move the payment back
    assert_eq!(t.observe(&update("1", "pending")), Some(Settled));
    assert_eq!(t.observe(&update("1", "settled")), Some(Settled));
    assert_eq!(t.observe(&update("2", "failed")), Some(Failed));
    assert_eq!(t.observe(&update("1", "failed")), Some(Failed));
    assert_eq!(t.observe(&update("1", "unknown")), None);
    assert_eq!(t.status_of(&"1".to_string()), Some(Failed));
    assert_eq!(t.status_of(&"2".to_string()), Some(Failed));
    assert_eq!(t.status_of(&"3".to_string()), None);
}
