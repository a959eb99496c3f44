use rundler::bundle::{plan_bundle_tx, BundlePlan};
use rundler::bundle_sender::{
    report_polled_update, result_metrics, Action, BuiltBundle, FeeEscalation, Metric, Phase,
    Settings,
};
use rundler::gas::GasFees;
use rundler::types::{
    AggregatorOps, BuilderEvent, Entity, EntityType, ProposedBundle, SendBundleResult, SendResult,
    TrackerUpdate, H256,
};

fn hash(b: u8) -> H256 {
    [b; 32]
}

fn fees(max: u128, prio: u128) -> GasFees {
    GasFees { max_fee_per_gas: max, max_priority_fee_per_gas: prio }
}

fn bundle_with(n_ops: u8, gas_estimate: u64, gas_fees: GasFees) -> ProposedBundle {
    ProposedBundle {
        ops_per_aggregator: vec![AggregatorOps {
            aggregator: None,
            op_hashes: (0..n_ops).map(|i| hash(i + 1)).collect(),
        }],
        gas_estimate,
        gas_fees,
        rejected_op_hashes: vec![],
        rejected_entities: vec![],
    }
}

fn built_from(plan: &BundlePlan) -> Option<BuiltBundle> {
    plan.tx.as_ref().map(|t| BuiltBundle { op_hashes: t.op_hashes.clone(), gas_fees: t.gas_fees })
}

fn settings(percent: u64, max: u64) -> Settings {
    Settings { replacement_fee_percent_increase: percent, max_fee_increases: max }
}

#[test]
fn mine_on_first_attempt() {
    let mut e = FeeEscalation::new(7, settings(10, 3), 5, None);
    assert!(matches!(e.first_action(), Action::BuildBundle { nonce: 5, required_fees: None }));
    let plan = plan_bundle_tx(&bundle_with(1, 100_000, fees(10, 1)), 5);
    let tx = plan.tx.as_ref().unwrap();
    assert_eq!(tx.gas, 110_000);
    assert_eq!(tx.nonce, 5);
    let step = e.on_bundle(built_from(&plan));
    assert!(matches!(step.action, Action::SendTransaction));
    assert_eq!(step.metrics, vec![Metric::BundleTxnsSent, Metric::CurrentFees(fees(10, 1))]);
    let h = hash(0xaa);
    let step = e.on_send_result(SendResult::TxHash(h));
    assert!(matches!(step.action, Action::WaitForUpdate));
    match step.event {
        Some(BuilderEvent::FormedBundle { builder_id: 7, tx_details: Some(d), nonce: 5, fee_increase_count: 0, required_fees: None }) => {
            assert_eq!(d.tx_hash, h);
            assert_eq!(d.op_hashes, vec![hash(1)]);
        }
        other => panic!("unexpected event {:?}", other),
    }
    let step = e.on_update(TrackerUpdate::Mined {
        tx_hash: h,
        nonce: 5,
        gas_fees: fees(10, 1),
        block_number: 1000,
        attempt_number: 0,
    });
    match step.action {
        Action::Finish(SendBundleResult::Success { block_number: 1000, attempt_number: 0, tx_hash }) => {
            assert_eq!(tx_hash, h)
        }
        other => panic!("unexpected action {:?}", other),
    }
    assert!(matches!(step.event, Some(BuilderEvent::TransactionMined { builder_id: 7, nonce: 5, block_number: 1000, .. })));
    assert_eq!(step.metrics, vec![Metric::BundleTxnsSuccess]);
    assert_eq!(e.phase, Phase::Done);
}

#[test]
fn escalate_then_mine() {
    let mut e = FeeEscalation::new(1, settings(20, 3), 5, None);
    let plan = plan_bundle_tx(&bundle_with(1, 100_000, fees(10, 1)), 5);
    e.on_bundle(built_from(&plan));
    e.on_send_result(SendResult::TxHash(hash(0xa1)));
    let step = e.on_update(TrackerUpdate::StillPendingAfterWait);
    assert_eq!(step.metrics, vec![Metric::BundleTxnFeeIncreases]);
    assert!(step.event.is_none());
    match step.action {
        Action::BuildBundle { nonce: 5, required_fees: Some(f) } => assert_eq!(f, fees(12, 2)),
        other => panic!("unexpected action {:?}", other),
    }
    assert_eq!(e.fee_increase_count, 1);
    let plan = plan_bundle_tx(&bundle_with(1, 100_000, fees(12, 2)), 5);
    let step = e.on_bundle(built_from(&plan));
    assert_eq!(step.metrics, vec![Metric::BundleTxnsSent, Metric::CurrentFees(fees(12, 2))]);
    let step = e.on_send_result(SendResult::TxHash(hash(0xa2)));
    assert!(matches!(step.event, Some(BuilderEvent::FormedBundle { fee_increase_count: 1, required_fees: Some(_), .. })));
    let step = e.on_update(TrackerUpdate::Mined {
        tx_hash: hash(0xa2),
        nonce: 5,
        gas_fees: fees(12, 2),
        block_number: 1001,
        attempt_number: 1,
    });
    assert!(matches!(step.action, Action::Finish(SendBundleResult::Success { attempt_number: 1, .. })));
}

#[test]
fn starve_out_after_fee_increase() {
    let mut e = FeeEscalation::new(2, settings(10, 3), 9, None);
    let plan = plan_bundle_tx(&bundle_with(3, 50_000, fees(10, 1)), 9);
    e.on_bundle(built_from(&plan));
    e.on_send_result(SendResult::TxHash(hash(3)));
    e.on_update(TrackerUpdate::StillPendingAfterWait);
    let plan = plan_bundle_tx(&bundle_with(0, 50_000, fees(11, 2)), 9);
    assert!(plan.tx.is_none());
    let step = e.on_bundle(built_from(&plan));
    assert!(matches!(
        step.action,
        Action::Finish(SendBundleResult::NoOperationsAfterFeeIncreases { initial_op_count: 3, attempt_number: 1 })
    ));
    assert!(matches!(step.event, Some(BuilderEvent::FormedBundle { tx_details: None, fee_increase_count: 1, .. })));
    assert_eq!(step.metrics, vec![Metric::BundleTxnsAbandoned]);
}

#[test]
fn never_any_ops() {
    let mut e = FeeEscalation::new(3, settings(10, 3), 0, Some(fees(4, 4)));
    let step = e.on_bundle(None);
    assert!(matches!(step.action, Action::Finish(SendBundleResult::NoOperationsInitially)));
    assert!(matches!(step.event, Some(BuilderEvent::FormedBundle { tx_details: None, fee_increase_count: 0, required_fees: Some(_), .. })));
    assert!(step.metrics.is_empty());
}

#[test]
fn external_nonce_collision() {
    let mut e = FeeEscalation::new(4, settings(10, 3), 5, None);
    let plan = plan_bundle_tx(&bundle_with(1, 1000, fees(10, 1)), 5);
    e.on_bundle(built_from(&plan));
    e.on_send_result(SendResult::TxHash(hash(5)));
    let step = e.on_update(TrackerUpdate::NonceUsedForOtherTx { nonce: 5 });
    let result = match step.action {
        Action::Finish(r) => r,
        other => panic!("unexpected action {:?}", other),
    };
    match &result {
        SendBundleResult::Error(m) => assert_eq!(m, "nonce used by external transaction"),
        other => panic!("unexpected result {:?}", other),
    }
    assert!(matches!(step.event, Some(BuilderEvent::NonceUsedForOtherTransaction { builder_id: 4, nonce: 5 })));
    assert_eq!(step.metrics, vec![Metric::BundleTxnsNonceUsed]);
    assert_eq!(result_metrics(&result), vec![Metric::BundleTxnsFailed]);
}

#[test]
fn rejections_without_a_bundle() {
    let e1 = Entity { kind: EntityType::Paymaster, address: [9; 20] };
    let bundle = ProposedBundle {
        ops_per_aggregator: vec![],
        gas_estimate: 0,
        gas_fees: fees(1, 1),
        rejected_op_hashes: vec![hash(0x11), hash(0x12)],
        rejected_entities: vec![e1],
    };
    assert!(bundle.is_empty());
    let plan = plan_bundle_tx(&bundle, 0);
    assert_eq!(plan.remove_op_hashes, vec![hash(0x11), hash(0x12)]);
    assert_eq!(plan.remove_entities.len(), 1);
    assert_eq!(plan.remove_entities[0].kind, EntityType::Paymaster);
    assert_eq!(plan.remove_entities[0].address, [9; 20]);
    assert!(plan.tx.is_none());
    let mut e = FeeEscalation::new(5, settings(10, 3), 0, None);
    let step = e.on_bundle(built_from(&plan));
    assert!(matches!(step.action, Action::Finish(SendBundleResult::NoOperationsInitially)));
}

#[test]
fn stalled_at_max_fee_increases() {
    let mut e = FeeEscalation::new(6, settings(10, 0), 1, None);
    e.on_bundle(built_from(&plan_bundle_tx(&bundle_with(2, 10, fees(10, 1)), 1)));
    e.on_send_result(SendResult::TxHash(hash(6)));
    let step = e.on_update(TrackerUpdate::LatestTxDropped { nonce: 1 });
    assert!(matches!(step.action, Action::Finish(SendBundleResult::StalledAtMaxFeeIncreases)));
    assert!(matches!(step.event, Some(BuilderEvent::LatestTransactionDropped { builder_id: 6, nonce: 1 })));
    assert_eq!(
        step.metrics,
        vec![Metric::BundleTxnsDropped, Metric::BundleTxnFeeIncreases, Metric::BundleTxnsAbandoned]
    );
}

#[test]
fn submissions_bounded_by_fee_increases() {
    let max: u64 = 2;
    let mut e = FeeEscalation::new(8, settings(10, max), 3, None);
    let mut submissions = 0;
    let mut f = fees(100, 10);
    loop {
        let step = e.on_bundle(Some(BuiltBundle { op_hashes: vec![hash(1)], gas_fees: f }));
        assert!(matches!(step.action, Action::SendTransaction));
        submissions += 1;
        e.on_send_result(SendResult::TxHash(hash(submissions)));
        let step = e.on_update(TrackerUpdate::StillPendingAfterWait);
        match step.action {
            Action::BuildBundle { required_fees: Some(next), .. } => {
                assert!(next.max_fee_per_gas * 100 >= f.max_fee_per_gas * 110);
                assert!(next.max_priority_fee_per_gas * 100 >= f.max_priority_fee_per_gas * 110);
                f = next;
            }
            Action::Finish(SendBundleResult::StalledAtMaxFeeIncreases) => break,
            other => panic!("unexpected action {:?}", other),
        }
    }
    assert_eq!(submissions as u64, max + 1);
}

#[test]
fn update_reported_at_submission() {
    let mut e = FeeEscalation::new(9, settings(10, 3), 5, None);
    e.on_bundle(Some(BuiltBundle { op_hashes: vec![hash(1)], gas_fees: fees(10, 1) }));
    let step = e.on_send_result(SendResult::TrackerUpdate(TrackerUpdate::Mined {
        tx_hash: hash(0x77),
        nonce: 5,
        gas_fees: fees(10, 1),
        block_number: 42,
        attempt_number: 0,
    }));
    assert!(matches!(step.action, Action::Finish(SendBundleResult::Success { block_number: 42, .. })));
    assert!(matches!(step.event, Some(BuilderEvent::TransactionMined { .. })));
}

#[test]
fn fee_overflow_ends_sequence() {
    let mut e = FeeEscalation::new(10, settings(10, 3), 5, None);
    e.on_bundle(Some(BuiltBundle { op_hashes: vec![hash(1)], gas_fees: fees(u128::MAX, 1) }));
    e.on_send_result(SendResult::TxHash(hash(2)));
    let step = e.on_update(TrackerUpdate::StillPendingAfterWait);
    assert!(matches!(step.action, Action::Finish(SendBundleResult::Error(_))));
    assert_eq!(step.metrics, vec![Metric::BundleTxnFeeIncreases]);
}

#[test]
fn failure_ends_sequence() {
    let mut e = FeeEscalation::new(11, settings(10, 3), 5, None);
    let step = e.on_failure("proposer should create bundle for builder".to_string());
    match step.action {
        Action::Finish(SendBundleResult::Error(m)) => assert_eq!(m, "proposer should create bundle for builder"),
        other => panic!("unexpected action {:?}", other),
    }
    assert!(step.metrics.is_empty());
}

#[test]
fn nonce_events_carry_low_bits() {
    let big: u128 = (1u128 << 64) + 5;
    let (event, metrics) = report_polled_update(12, Some(TrackerUpdate::LatestTxDropped { nonce: big }));
    assert!(matches!(event, Some(BuilderEvent::LatestTransactionDropped { builder_id: 12, nonce: 5 })));
    assert_eq!(metrics, vec![Metric::BundleTxnsDropped]);
}

#[test]
fn polled_updates_are_reported() {
    let (event, metrics) = report_polled_update(13, None);
    assert!(event.is_none() && metrics.is_empty());
    let (event, metrics) = report_polled_update(13, Some(TrackerUpdate::StillPendingAfterWait));
    assert!(event.is_none() && metrics.is_empty());
    let (event, metrics) = report_polled_update(
        13,
        Some(TrackerUpdate::Mined { tx_hash: hash(1), nonce: 2, gas_fees: fees(1, 1), block_number: 3, attempt_number: 0 }),
    );
    match event {
        Some(BuilderEvent::TransactionMined { builder_id: 13, tx_hash, nonce: 2, block_number: 3 }) => {
            assert_eq!(tx_hash, hash(1))
        }
        other => panic!("unexpected event {:?}", other),
    }
    assert_eq!(metrics, vec![Metric::BundleTxnsSuccess]);
    let (event, metrics) = report_polled_update(13, Some(TrackerUpdate::NonceUsedForOtherTx { nonce: 8 }));
    assert!(matches!(event, Some(BuilderEvent::NonceUsedForOtherTransaction { builder_id: 13, nonce: 8 })));
    assert_eq!(metrics, vec![Metric::BundleTxnsNonceUsed]);
    assert!(result_metrics(&SendBundleResult::StalledAtMaxFeeIncreases).is_empty());
}

#[test]
fn sent_count_covers_reported_outcomes() {
    let mut e = FeeEscalation::new(14, settings(10, 5), 2, None);
    let mut recorded: Vec<Metric> = Vec::new();
    let updates = [
        TrackerUpdate::LatestTxDropped { nonce: 2 },
        TrackerUpdate::StillPendingAfterWait,
        TrackerUpdate::LatestTxDropped { nonce: 2 },
        TrackerUpdate::NonceUsedForOtherTx { nonce: 2 },
    ];
    let mut f = fees(50, 5);
    for update in updates {
        recorded.extend(e.on_bundle(Some(BuiltBundle { op_hashes: vec![hash(1)], gas_fees: f })).metrics);
        recorded.extend(e.on_send_result(SendResult::TxHash(hash(2))).metrics);
        let step = e.on_update(update);
        recorded.extend(step.metrics.iter().copied());
        match step.action {
            Action::BuildBundle { required_fees: Some(next), .. } => f = next,
            Action::Finish(_) => break,
            other => panic!("unexpected action {:?}", other),
        }
    }
    let count = |m: Metric| recorded.iter().filter(|x| **x == m).count();
    assert_eq!(count(Metric::BundleTxnsSent), 4);
    assert_eq!(count(Metric::BundleTxnsDropped), 2);
    assert_eq!(count(Metric::BundleTxnsNonceUsed), 1);
    assert!(
        count(Metric::BundleTxnsSent)
            >= count(Metric::BundleTxnsSuccess) + count(Metric::BundleTxnsDropped) + count(Metric::BundleTxnsNonceUsed)
    );
}

#[test]
fn zero_percent_floor_is_the_fees_sent() {
    let big = fees(u128::MAX - 1, u128::MAX / 3);
    let mut e = FeeEscalation::new(15, settings(0, 2), 5, None);
    e.on_bundle(Some(BuiltBundle { op_hashes: vec![hash(1)], gas_fees: big }));
    e.on_send_result(SendResult::TxHash(hash(2)));
    let step = e.on_update(TrackerUpdate::StillPendingAfterWait);
    match step.action {
        Action::BuildBundle { nonce: 5, required_fees: Some(f) } => assert_eq!(f, big),
        other => panic!("unexpected action {:?}", other),
    }
}

#[test]
fn raised_floor_near_the_limit() {
    let f = fees(u128::MAX / 2, 3);
    let mut e = FeeEscalation::new(16, settings(100, 2), 5, None);
    e.on_bundle(Some(BuiltBundle { op_hashes: vec![hash(1)], gas_fees: f }));
    e.on_send_result(SendResult::TxHash(hash(2)));
    let step = e.on_update(TrackerUpdate::LatestTxDropped { nonce: 5 });
    match step.action {
        Action::BuildBundle { required_fees: Some(next), .. } => assert_eq!(next, fees(u128::MAX - 1, 6)),
        other => panic!("unexpected action {:?}", other),
    }
}
