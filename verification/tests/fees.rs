use hedera::{resolve_fee, ClientContext, EntityId, FileAppendTransaction, Hbar, TokenUnpauseTransaction};

fn h(t: i64) -> Hbar {
    Hbar::from_tinybars(t)
}

#[test]
fn fee_precedence_in_all_eight_combinations() {
    let e = Some(h(11));
    let c = Some(h(22));
    let d = Some(h(33));
    assert_eq!(resolve_fee(e, c, d), e);
    assert_eq!(resolve_fee(e, c, None), e);
    assert_eq!(resolve_fee(e, None, d), e);
    assert_eq!(resolve_fee(e, None, None), e);
    assert_eq!(resolve_fee(None, c, d), c);
    assert_eq!(resolve_fee(None, c, None), c);
    assert_eq!(resolve_fee(None, None, d), d);
    assert_eq!(resolve_fee(None, None, None), None);
}

#[test]
fn client_default_at_or_below_the_floor_counts_as_absent() {
    let d = Some(h(33));
    assert_eq!(resolve_fee(None, Some(h(1)), d), d);
    assert_eq!(resolve_fee(None, Some(h(0)), d), d);
    assert_eq!(resolve_fee(None, Some(h(-5)), d), d);
    assert_eq!(resolve_fee(None, Some(h(1)), None), None);
    assert_eq!(resolve_fee(None, Some(h(2)), d), Some(h(2)));
    // an explicit fee is taken as it is, whatever its size
    assert_eq!(resolve_fee(Some(h(0)), Some(h(5)), d), Some(h(0)));
}

#[test]
fn freeze_applies_the_precedence() {
    let nodes = vec![EntityId::new(0, 0, 3)];

    let mut tx = TokenUnpauseTransaction::new();
    tx.max_transaction_fee(h(7)).unwrap();
    let mut ctx = ClientContext::new(nodes.clone());
    ctx.max_transaction_fee = Some(h(50));
    tx.freeze_with(Some(ctx)).unwrap();
    assert_eq!(tx.get_max_transaction_fee(), Some(h(7)));

    let mut tx = TokenUnpauseTransaction::new();
    let mut ctx = ClientContext::new(nodes.clone());
    ctx.max_transaction_fee = Some(h(50));
    tx.freeze_with(Some(ctx)).unwrap();
    assert_eq!(tx.get_max_transaction_fee(), Some(h(50)));

    let mut tx = TokenUnpauseTransaction::new();
    let mut ctx = ClientContext::new(nodes.clone());
    ctx.max_transaction_fee = Some(h(1));
    tx.freeze_with(Some(ctx)).unwrap();
    assert_eq!(tx.get_max_transaction_fee(), Some(h(200_000_000)));

    let mut tx = FileAppendTransaction::new();
    tx.freeze_with(Some(ClientContext::new(nodes))).unwrap();
    assert_eq!(tx.get_max_transaction_fee(), Some(h(500_000_000)));
}

#[test]
fn hbar_amounts() {
    assert_eq!(Hbar::new(1).to_tinybars(), 100_000_000);
    assert_eq!(Hbar::new(-2).to_tinybars(), -200_000_000);
    assert_eq!(Hbar::checked_new(3), Some(h(300_000_000)));
    assert_eq!(Hbar::checked_new(92_233_720_368), Some(h(9_223_372_036_800_000_000)));
    assert_eq!(Hbar::checked_new(92_233_720_369), None);
    assert_eq!(Hbar::checked_new(i64::MIN), None);
}
