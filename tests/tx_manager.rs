use supply_chain::{
    ActionKind, ActorId, Reservation, SupplyChainError, TransactionGuard, TransactionManager,
    MAX_NUMBER_OF_TXS,
};

const MAX_TX_AMOUNT: u64 = u8::MAX as u64;

fn make_tx(start: u64, tx_id: u64) -> Reservation {
    let tx_id = start + tx_id * MAX_TX_AMOUNT;
    Reservation {
        tx_id,
        owner: ActorId::from(tx_id),
        width: u8::MAX,
    }
}

fn sorted(mut list: Vec<Reservation>) -> Vec<(u64, ActorId, u8)> {
    list.sort_by_key(|r| r.tx_id);
    list.into_iter().map(|r| (r.tx_id, r.owner, r.width)).collect()
}

#[test]
fn errors() {
    let mut tx_manager = TransactionManager::new();

    assert_eq!(
        tx_manager.asquire_transaction(ActionKind::Retry, ActorId::zero()),
        Err(SupplyChainError::TransactionNotFound)
    );

    // The reservation is left live, as after an aborted action.
    tx_manager
        .asquire_transaction(ActionKind::New, ActorId::zero())
        .unwrap();

    assert_eq!(
        tx_manager.asquire_transactions(ActionKind::Retry, ActorId::zero(), 2),
        Err(SupplyChainError::UnexpectedTransactionAmount)
    );
}

#[test]
fn tx_cycle() {
    let mut tx_count = MAX_NUMBER_OF_TXS as u64 + 1;
    let mut latest_tx_id = tx_count * MAX_TX_AMOUNT;

    // ( | - X X X X X X X X X + | | | | | | | | )

    let prepared: Vec<Reservation> = (1..tx_count).map(|tx_id| make_tx(0, tx_id)).collect();
    let mut tx_manager = TransactionManager::from_reservations(&prepared, latest_tx_id);
    assert_eq!(tx_manager.reservation_list().len(), MAX_NUMBER_OF_TXS);

    tx_manager
        .asquire_transaction(ActionKind::New, ActorId::zero())
        .unwrap();

    let mut expected: Vec<Reservation> = prepared
        .iter()
        .copied()
        .filter(|r| r.tx_id != MAX_TX_AMOUNT)
        .collect();
    expected.push(Reservation {
        tx_id: latest_tx_id,
        owner: ActorId::zero(),
        width: 1,
    });
    assert!(sorted(tx_manager.reservation_list()) == sorted(expected));

    // ( X X X X + | | | | | | | | | - X X X X X )

    latest_tx_id /= 2;
    tx_count /= 2;
    let middle_tx_id = u64::MAX - latest_tx_id;

    let mut prepared: Vec<Reservation> = (0..tx_count)
        .map(|tx_id| make_tx(middle_tx_id, tx_id))
        .collect();
    prepared.extend((1..tx_count).map(|tx_id| make_tx(0, tx_id)));
    let mut tx_manager = TransactionManager::from_reservations(&prepared, latest_tx_id);

    tx_manager
        .asquire_transaction(ActionKind::New, ActorId::zero())
        .unwrap();

    let mut expected: Vec<Reservation> = prepared
        .iter()
        .copied()
        .filter(|r| r.tx_id != middle_tx_id)
        .collect();
    expected.push(Reservation {
        tx_id: latest_tx_id,
        owner: ActorId::zero(),
        width: 1,
    });
    assert!(sorted(tx_manager.reservation_list()) == sorted(expected));
}

#[test]
fn new_reservation_takes_ids_at_the_cursor() {
    let mut tx_manager = TransactionManager::new();
    let a = ActorId::from(1);
    let b = ActorId::from(2);

    let first = tx_manager.asquire_transactions(ActionKind::New, a, 2).unwrap();
    assert_eq!(first, TransactionGuard { msg_source: a, tx_id: 0 });
    let second = tx_manager.asquire_transaction(ActionKind::New, b).unwrap();
    assert_eq!(second, TransactionGuard { msg_source: b, tx_id: 2 });
}

#[test]
fn retry_gets_the_same_ids_back() {
    let mut tx_manager = TransactionManager::new();
    let a = ActorId::from(1);
    tx_manager.asquire_transaction(ActionKind::New, ActorId::from(9)).unwrap();

    let guard = tx_manager.asquire_transactions(ActionKind::New, a, 2).unwrap();
    assert_eq!(guard.tx_id, 1);
    assert_eq!(tx_manager.asquire_transactions(ActionKind::Retry, a, 2), Ok(guard));
    assert_eq!(tx_manager.asquire_transactions(ActionKind::Retry, a, 2), Ok(guard));
}

#[test]
fn new_action_while_a_reservation_lives_is_refused() {
    let mut tx_manager = TransactionManager::new();
    let a = ActorId::from(1);
    tx_manager.asquire_transaction(ActionKind::New, a).unwrap();
    assert_eq!(
        tx_manager.asquire_transaction(ActionKind::New, a),
        Err(SupplyChainError::TransactionPending)
    );
}

#[test]
fn released_reservation_cannot_be_retried() {
    let mut tx_manager = TransactionManager::new();
    let a = ActorId::from(1);
    let guard = tx_manager.asquire_transaction(ActionKind::New, a).unwrap();
    tx_manager.release(guard);
    assert!(tx_manager.reservation_list().is_empty());
    assert_eq!(
        tx_manager.asquire_transaction(ActionKind::Retry, a),
        Err(SupplyChainError::TransactionNotFound)
    );
    // A new action gets fresh ids.
    let again = tx_manager.asquire_transaction(ActionKind::New, a).unwrap();
    assert_eq!(again.tx_id, 1);
}

#[test]
fn cursor_wraps_around() {
    let a = ActorId::from(1);
    let b = ActorId::from(2);
    let mut tx_manager = TransactionManager::from_reservations(&Vec::new(), u64::MAX);
    let guard = tx_manager.asquire_transactions(ActionKind::New, a, 2).unwrap();
    assert_eq!(guard.tx_id, u64::MAX);
    let next = tx_manager.asquire_transaction(ActionKind::New, b).unwrap();
    assert_eq!(next.tx_id, 1);
}

#[test]
fn stale_reservation_at_the_cursor_gives_way() {
    let old_owner = ActorId::from(7);
    let a = ActorId::from(1);
    let entries = vec![Reservation { tx_id: 5, owner: old_owner, width: 1 }];
    let mut tx_manager = TransactionManager::from_reservations(&entries, 5);
    let guard = tx_manager.asquire_transaction(ActionKind::New, a).unwrap();
    assert_eq!(guard.tx_id, 5);
    assert_eq!(
        sorted(tx_manager.reservation_list()),
        vec![(5, a, 1)]
    );
    assert_eq!(
        tx_manager.asquire_transaction(ActionKind::Retry, old_owner),
        Err(SupplyChainError::TransactionNotFound)
    );
}

#[test]
fn new_reservation_removes_every_range_it_meets() {
    let old_owner = ActorId::from(7);
    let a = ActorId::from(1);
    let entries = vec![Reservation { tx_id: 5, owner: old_owner, width: 1 }];
    let mut tx_manager = TransactionManager::from_reservations(&entries, 4);
    let guard = tx_manager.asquire_transactions(ActionKind::New, a, 2).unwrap();
    assert_eq!(guard.tx_id, 4);
    // Ids 4 and 5 now belong to `a` alone.
    assert_eq!(sorted(tx_manager.reservation_list()), vec![(4, a, 2)]);
    assert_eq!(
        tx_manager.asquire_transaction(ActionKind::Retry, old_owner),
        Err(SupplyChainError::TransactionNotFound)
    );
}

#[test]
fn new_reservation_keeps_ranges_it_does_not_meet() {
    let before = ActorId::from(7);
    let after = ActorId::from(8);
    let a = ActorId::from(1);
    let entries = vec![
        Reservation { tx_id: 2, owner: before, width: 2 },
        Reservation { tx_id: 6, owner: after, width: 1 },
    ];
    let mut tx_manager = TransactionManager::from_reservations(&entries, 4);
    tx_manager.asquire_transactions(ActionKind::New, a, 2).unwrap();
    assert_eq!(
        sorted(tx_manager.reservation_list()),
        vec![(2, before, 2), (4, a, 2), (6, after, 1)]
    );
}

#[test]
fn new_reservation_removes_a_range_that_wraps_onto_it() {
    let old_owner = ActorId::from(7);
    let a = ActorId::from(1);
    // Holds ids u64::MAX, 0 and 1.
    let entries = vec![Reservation { tx_id: u64::MAX, owner: old_owner, width: 3 }];
    let mut tx_manager = TransactionManager::from_reservations(&entries, 1);
    tx_manager.asquire_transaction(ActionKind::New, a).unwrap();
    assert_eq!(sorted(tx_manager.reservation_list()), vec![(1, a, 1)]);
}
