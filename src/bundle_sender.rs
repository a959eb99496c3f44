//! The bundle sender's decisions. One submission sequence at one nonce is a
//! state machine: the driver performs each action it asks for (propose and
//! build a bundle, send it, wait for the tracker) and hands back what came of
//! it, until the machine finishes with a `SendBundleResult`. Each step also
//! names the event to publish and the metrics to record.
use vstd::prelude::*;

use crate::bundle::copy_all;
use crate::gas::{lemma_fees_increase_by_zero, lemma_increase_ratio, GasFees};
use crate::types::{low_u64, low_u64_spec, BuilderEvent, BundleTxDetails, SendBundleResult, SendResult, TrackerUpdate, H256};

verus! {

/// Settings of the bundle sender.
#[derive(Clone, Copy, Debug, PartialEq, Eq, Structural)]
pub struct Settings {
    /// How much, in percent, each replacement raises the fees of the one before.
    pub replacement_fee_percent_increase: u64,
    /// How many times a sequence may replace its transaction with higher fees.
    pub max_fee_increases: u64,
}

/// A metric that the sender records, per builder.
#[derive(Clone, Copy, Debug, PartialEq, Eq, Structural)]
pub enum Metric {
    BundleTxnsSent,
    BundleTxnsSuccess,
    BundleTxnsDropped,
    BundleTxnsAbandoned,
    BundleTxnsFailed,
    BundleTxnsNonceUsed,
    BundleTxnFeeIncreases,
    /// The fees of the latest submission, for the two fee gauges.
    CurrentFees(GasFees),
}

/// Where a submission sequence stands.
#[derive(Clone, Copy, Debug, PartialEq, Eq, Structural)]
pub enum Phase {
    /// Waiting for the bundle proposed at the current fee floor.
    Build,
    /// Waiting for the tracker's answer to a submission.
    Send,
    /// Waiting for the tracker's update on the transaction in flight.
    Wait,
    /// The sequence has finished.
    Done,
}

/// What the driver is to do next.
#[derive(Clone, Debug)]
pub enum Action {
    /// Propose a bundle at this fee floor and build its transaction at this nonce.
    BuildBundle { nonce: u128, required_fees: Option<GasFees> },
    /// Send the transaction just built to the tracker.
    SendTransaction,
    /// Wait for the tracker's update on the transaction in flight.
    WaitForUpdate,
    /// The sequence is over, with this result.
    Finish(SendBundleResult),
}

/// One step of the machine: the next action, the event to publish, the metrics to record.
#[derive(Clone, Debug)]
pub struct Step {
    pub action: Action,
    pub event: Option<BuilderEvent>,
    pub metrics: Vec<Metric>,
}

/// A bundle transaction that the driver built: the hashes of its operations
/// and the fees that its envelope carries.
#[derive(Clone, Debug)]
pub struct BuiltBundle {
    pub op_hashes: Vec<H256>,
    pub gas_fees: GasFees,
}

/// The message of the error that ends a sequence whose nonce another transaction took.
pub open spec fn nonce_used_message() -> Seq<char> {
    "nonce used by external transaction"@
}

/// The message of the error that ends a sequence whose fees cannot be raised further.
pub open spec fn fee_overflow_message() -> Seq<char> {
    "replacement fees exceed the largest representable fee"@
}

/// One submission sequence at one nonce, with rising fees.
pub struct FeeEscalation {
    pub builder_id: u64,
    pub settings: Settings,
    pub nonce: u128,
    /// The fee floor for the next bundle.
    pub required_fees: Option<GasFees>,
    /// How many operations the first bundle of the sequence held.
    pub initial_op_count: Option<usize>,
    /// How many times the fees were raised so far.
    pub fee_increase_count: u64,
    /// The fees of the latest submission.
    pub current_fees: GasFees,
    /// The operation hashes of the latest submission.
    pub pending_op_hashes: Vec<H256>,
    pub phase: Phase,
    /// How many transactions the sequence submitted.
    pub sent: Ghost<nat>,
    /// How many submissions the tracker reported mined, dropped or preempted.
    pub fates: Ghost<nat>,
    /// The fees of each submission, in order.
    pub sent_fees: Ghost<Seq<GasFees>>,
    /// The fee floor under which each submission was proposed, in order.
    pub floors: Ghost<Seq<Option<GasFees>>>,
}

impl FeeEscalation {
    pub open spec fn percent(&self) -> u64 {
        self.settings.replacement_fee_percent_increase
    }

    /// The machine's invariant.
    pub open spec fn wf(&self) -> bool {
        let sent = self.sent@;
        &&& self.fee_increase_count <= self.settings.max_fee_increases
        &&& self.fates@ <= sent
        &&& self.sent_fees@.len() == sent
        &&& self.floors@.len() == sent
        &&& (self.phase == Phase::Build ==> sent == self.fee_increase_count)
        &&& (self.phase == Phase::Send || self.phase == Phase::Wait) ==> {
            &&& sent == self.fee_increase_count + 1
            &&& self.fates@ + 1 <= sent
            &&& self.sent_fees@.last() == self.current_fees
            &&& self.floors@.last() == self.required_fees
        }
        &&& (self.phase == Phase::Done ==> sent <= self.fee_increase_count + 1)
        &&& (self.phase != Phase::Done ==> (self.initial_op_count.is_some() <==> sent > 0))
        &&& (self.phase == Phase::Build && sent > 0) ==> {
            &&& self.sent_fees@.last().increase_fits(self.percent())
            &&& self.required_fees == Some(self.sent_fees@.last().increased_spec(self.percent()))
        }
        &&& forall|i: int|
            0 < i < sent ==> {
                &&& #[trigger] self.floors@[i] == Some(
                    self.sent_fees@[i - 1].increased_spec(self.percent()),
                )
                &&& self.sent_fees@[i - 1].increase_fits(self.percent())
            }
    }

    /// Starts a sequence at the tracker's nonce and fee floor; the first action
    /// is to build a bundle at that floor.
    pub fn new(builder_id: u64, settings: Settings, nonce: u128, required_fees: Option<GasFees>) -> (r: FeeEscalation)
        ensures
            r.wf(),
            r.phase == Phase::Build,
            r.builder_id == builder_id,
            r.settings == settings,
            r.nonce == nonce,
            r.required_fees == required_fees,
            r.initial_op_count.is_none(),
            r.fee_increase_count == 0,
            r.sent@ == 0,
            r.fates@ == 0,
    {
        FeeEscalation {
            builder_id,
            settings,
            nonce,
            required_fees,
            initial_op_count: None,
            fee_increase_count: 0,
            current_fees: GasFees { max_fee_per_gas: 0, max_priority_fee_per_gas: 0 },
            pending_op_hashes: Vec::new(),
            phase: Phase::Build,
            sent: Ghost(0),
            fates: Ghost(0),
            sent_fees: Ghost(Seq::empty()),
            floors: Ghost(Seq::empty()),
        }
    }

    /// The action that starts the sequence.
    pub fn first_action(&self) -> (r: Action)
        ensures
            r == (Action::BuildBundle { nonce: self.nonce, required_fees: self.required_fees }),
    {
        Action::BuildBundle { nonce: self.nonce, required_fees: self.required_fees }
    }

    /// Takes the bundle built at the current floor, or `None` where the
    /// proposer had no operation. Without a bundle the sequence ends: with
    /// `NoOperationsInitially` at the first attempt, else with
    /// `NoOperationsAfterFeeIncreases`, counted as abandoned; either way an
    /// empty formed-bundle event is published. With one, its transaction is
    /// sent next and counted as sent.
    pub fn on_bundle(&mut self, built: Option<BuiltBundle>) -> (r: Step)
        requires
            old(self).wf(),
            old(self).phase == Phase::Build,
        ensures
            final(self).wf(),
            sent_count(r.metrics@) == one_if(built.is_some()),
            outcome_count(r.metrics@) == 0,
            final(self).builder_id == old(self).builder_id,
            final(self).settings == old(self).settings,
            final(self).nonce == old(self).nonce,
            final(self).required_fees == old(self).required_fees,
            final(self).fee_increase_count == old(self).fee_increase_count,
            final(self).fates@ == old(self).fates@,
            built.is_none() ==> {
                &&& final(self).phase == Phase::Done
                &&& final(self).sent@ == old(self).sent@
                &&& r.event == Some(
                    BuilderEvent::FormedBundle {
                        builder_id: old(self).builder_id,
                        tx_details: None,
                        nonce: low_u64_spec(old(self).nonce),
                        fee_increase_count: old(self).fee_increase_count,
                        required_fees: old(self).required_fees,
                    },
                )
                &&& match old(self).initial_op_count {
                    None => {
                        &&& r.action == Action::Finish(SendBundleResult::NoOperationsInitially)
                        &&& r.metrics@ == Seq::<Metric>::empty()
                    },
                    Some(count) => {
                        &&& r.action == Action::Finish(
                            SendBundleResult::NoOperationsAfterFeeIncreases {
                                initial_op_count: count,
                                attempt_number: old(self).fee_increase_count,
                            },
                        )
                        &&& r.metrics@ == seq![Metric::BundleTxnsAbandoned]
                    },
                }
            },
            built.is_some() ==> {
                let b = built.unwrap();
                &&& final(self).phase == Phase::Send
                &&& final(self).sent@ == old(self).sent@ + 1
                &&& final(self).current_fees == b.gas_fees
                &&& final(self).pending_op_hashes@ == b.op_hashes@
                &&& final(self).sent_fees@ == old(self).sent_fees@.push(b.gas_fees)
                &&& final(self).floors@ == old(self).floors@.push(old(self).required_fees)
                &&& final(self).initial_op_count == match old(self).initial_op_count {
                    None => Some(b.op_hashes@.len() as usize),
                    Some(c) => Some(c),
                }
                &&& r.action == Action::SendTransaction
                &&& r.event.is_none()
                &&& r.metrics@ == seq![Metric::BundleTxnsSent, Metric::CurrentFees(b.gas_fees)]
            },
    {
        proof {
            lemma_step_list_counts();
        }
        match built {
            None => {
                let event = BuilderEvent::FormedBundle {
                    builder_id: self.builder_id,
                    tx_details: None,
                    nonce: low_u64(self.nonce),
                    fee_increase_count: self.fee_increase_count,
                    required_fees: self.required_fees,
                };
                self.phase = Phase::Done;
                match self.initial_op_count {
                    None => Step {
                        action: Action::Finish(SendBundleResult::NoOperationsInitially),
                        event: Some(event),
                        metrics: Vec::new(),
                    },
                    Some(count) => {
                        let metrics = vec![Metric::BundleTxnsAbandoned];
                        assert(metrics@ =~= seq![Metric::BundleTxnsAbandoned]);
                        Step {
                            action: Action::Finish(
                                SendBundleResult::NoOperationsAfterFeeIncreases {
                                    initial_op_count: count,
                                    attempt_number: self.fee_increase_count,
                                },
                            ),
                            event: Some(event),
                            metrics,
                        }
                    },
                }
            },
            Some(b) => {
                if self.initial_op_count.is_none() {
                    self.initial_op_count = Some(b.op_hashes.len());
                }
                let fees = b.gas_fees;
                self.current_fees = fees;
                self.pending_op_hashes = b.op_hashes;
                self.sent = Ghost(self.sent@ + 1);
                self.sent_fees = Ghost(self.sent_fees@.push(fees));
                self.floors = Ghost(self.floors@.push(self.required_fees));
                self.phase = Phase::Send;
                proof {
                    assert(self.sent_fees@.drop_last() =~= old(self).sent_fees@);
                    assert forall|i: int| 0 < i < self.sent@ implies {
                        &&& #[trigger] self.floors@[i] == Some(
                            self.sent_fees@[i - 1].increased_spec(self.percent()),
                        )
                        &&& self.sent_fees@[i - 1].increase_fits(self.percent())
                    } by {
                        if i < old(self).sent@ {
                            assert(old(self).floors@[i] == self.floors@[i]);
                        } else {
                            assert(self.sent_fees@[i - 1] == old(self).sent_fees@.last());
                        }
                    }
                }
                let metrics = vec![Metric::BundleTxnsSent, Metric::CurrentFees(fees)];
                assert(metrics@ =~= seq![Metric::BundleTxnsSent, Metric::CurrentFees(fees)]);
                Step { action: Action::SendTransaction, event: None, metrics }
            },
        }
    }

    /// What classifying the tracker's update `u` on the submission in flight
    /// does, from `pre` to `post`, with step `r`. A mined transaction ends the
    /// sequence in success. A nonce that another transaction took ends it in
    /// an error. A pending or dropped transaction raises the fees from those
    /// of the latest submission, or ends the sequence, counted as abandoned,
    /// once the fees were raised as often as the settings allow.
    pub open spec fn classified(pre: FeeEscalation, post: FeeEscalation, u: TrackerUpdate, r: Step) -> bool {
        &&& post.builder_id == pre.builder_id
        &&& post.settings == pre.settings
        &&& post.nonce == pre.nonce
        &&& post.sent@ == pre.sent@
        &&& post.sent_fees@ == pre.sent_fees@
        &&& post.floors@ == pre.floors@
        &&& post.initial_op_count == pre.initial_op_count
        &&& post.current_fees == pre.current_fees
        &&& post.pending_op_hashes@ == pre.pending_op_hashes@
        &&& (post.phase == Phase::Done ==> {
            &&& post.required_fees == pre.required_fees
            &&& post.fee_increase_count == pre.fee_increase_count
        })
        &&& match u {
            TrackerUpdate::Mined { tx_hash, nonce, gas_fees: _, block_number, attempt_number } => {
                &&& post.phase == Phase::Done
                &&& post.fates@ == pre.fates@ + 1
                &&& r.event == Some(
                    BuilderEvent::TransactionMined {
                        builder_id: pre.builder_id,
                        tx_hash,
                        nonce: low_u64_spec(nonce),
                        block_number,
                    },
                )
                &&& r.metrics@ == seq![Metric::BundleTxnsSuccess]
                &&& r.action == Action::Finish(
                    SendBundleResult::Success { block_number, attempt_number, tx_hash },
                )
            },
            TrackerUpdate::NonceUsedForOtherTx { nonce } => {
                &&& post.phase == Phase::Done
                &&& post.fates@ == pre.fates@ + 1
                &&& r.event == Some(
                    BuilderEvent::NonceUsedForOtherTransaction {
                        builder_id: pre.builder_id,
                        nonce: low_u64_spec(nonce),
                    },
                )
                &&& r.metrics@ == seq![Metric::BundleTxnsNonceUsed]
                &&& r.action matches Action::Finish(SendBundleResult::Error(m)) && m@ == nonce_used_message()
            },
            _ => {
                let dropped = u matches TrackerUpdate::LatestTxDropped { .. };
                let reported: Seq<Metric> = if dropped {
                    seq![Metric::BundleTxnsDropped]
                } else {
                    Seq::empty()
                };
                let p = pre.percent();
                &&& post.fates@ == pre.fates@ + if dropped { 1int } else { 0 }
                &&& r.event == match u {
                    TrackerUpdate::LatestTxDropped { nonce } => Some(
                        BuilderEvent::LatestTransactionDropped {
                            builder_id: pre.builder_id,
                            nonce: low_u64_spec(nonce),
                        },
                    ),
                    _ => None,
                }
                &&& if pre.fee_increase_count == pre.settings.max_fee_increases {
                    &&& post.phase == Phase::Done
                    &&& r.metrics@ == reported + seq![Metric::BundleTxnFeeIncreases, Metric::BundleTxnsAbandoned]
                    &&& r.action == Action::Finish(SendBundleResult::StalledAtMaxFeeIncreases)
                } else if !pre.current_fees.increase_fits(p) {
                    &&& post.phase == Phase::Done
                    &&& r.metrics@ == reported + seq![Metric::BundleTxnFeeIncreases]
                    &&& r.action matches Action::Finish(SendBundleResult::Error(m)) && m@ == fee_overflow_message()
                } else {
                    &&& post.phase == Phase::Build
                    &&& post.fee_increase_count == pre.fee_increase_count + 1
                    &&& post.required_fees == Some(pre.current_fees.increased_spec(p))
                    &&& r.metrics@ == reported + seq![Metric::BundleTxnFeeIncreases]
                    &&& r.action == Action::BuildBundle { nonce: pre.nonce, required_fees: post.required_fees }
                }
            },
        }
    }

    fn classify(&mut self, u: TrackerUpdate) -> (r: Step)
        requires
            old(self).wf(),
            old(self).phase == Phase::Send || old(self).phase == Phase::Wait,
        ensures
            final(self).wf(),
            Self::classified(*old(self), *final(self), u, r),
    {
        match u {
            TrackerUpdate::Mined { tx_hash, nonce, gas_fees: _, block_number, attempt_number } => {
                self.phase = Phase::Done;
                self.fates = Ghost(self.fates@ + 1);
                let metrics = vec![Metric::BundleTxnsSuccess];
                assert(metrics@ =~= seq![Metric::BundleTxnsSuccess]);
                Step {
                    action: Action::Finish(
                        SendBundleResult::Success { block_number, attempt_number, tx_hash },
                    ),
                    event: Some(
                        BuilderEvent::TransactionMined {
                            builder_id: self.builder_id,
                            tx_hash,
                            nonce: low_u64(nonce),
                            block_number,
                        },
                    ),
                    metrics,
                }
            },
            TrackerUpdate::NonceUsedForOtherTx { nonce } => {
                self.phase = Phase::Done;
                self.fates = Ghost(self.fates@ + 1);
                let message = "nonce used by external transaction".to_owned();
                proof {
                    reveal_strlit("nonce used by external transaction");
                }
                let metrics = vec![Metric::BundleTxnsNonceUsed];
                assert(metrics@ =~= seq![Metric::BundleTxnsNonceUsed]);
                Step {
                    action: Action::Finish(SendBundleResult::Error(message)),
                    event: Some(
                        BuilderEvent::NonceUsedForOtherTransaction {
                            builder_id: self.builder_id,
                            nonce: low_u64(nonce),
                        },
                    ),
                    metrics,
                }
            },
            _ => {
                let mut metrics: Vec<Metric> = Vec::new();
                let mut event: Option<BuilderEvent> = None;
                if let TrackerUpdate::LatestTxDropped { nonce } = u {
                    event = Some(
                        BuilderEvent::LatestTransactionDropped {
                            builder_id: self.builder_id,
                            nonce: low_u64(nonce),
                        },
                    );
                    metrics.push(Metric::BundleTxnsDropped);
                    self.fates = Ghost(self.fates@ + 1);
                }
                let ghost reported = metrics@;
                assert(reported =~= if u matches TrackerUpdate::LatestTxDropped { .. } {
                    seq![Metric::BundleTxnsDropped]
                } else {
                    Seq::empty()
                });
                metrics.push(Metric::BundleTxnFeeIncreases);
                assert(metrics@ =~= reported + seq![Metric::BundleTxnFeeIncreases]);
                let percent = self.settings.replacement_fee_percent_increase;
                if self.fee_increase_count == self.settings.max_fee_increases {
                    metrics.push(Metric::BundleTxnsAbandoned);
                    assert(metrics@ =~= reported + seq![
                        Metric::BundleTxnFeeIncreases,
                        Metric::BundleTxnsAbandoned,
                    ]);
                    self.phase = Phase::Done;
                    Step {
                        action: Action::Finish(SendBundleResult::StalledAtMaxFeeIncreases),
                        event,
                        metrics,
                    }
                } else if !self.current_fees.can_increase_by_percent(percent) {
                    self.phase = Phase::Done;
                    let message = "replacement fees exceed the largest representable fee".to_owned();
                    proof {
                        reveal_strlit("replacement fees exceed the largest representable fee");
                    }
                    Step { action: Action::Finish(SendBundleResult::Error(message)), event, metrics }
                } else {
                    let raised = self.current_fees.increase_by_percent(percent);
                    self.required_fees = Some(raised);
                    self.fee_increase_count = self.fee_increase_count + 1;
                    self.phase = Phase::Build;
                    proof {
                        assert(self.sent_fees@.last() == old(self).current_fees);
                    }
                    Step {
                        action: Action::BuildBundle { nonce: self.nonce, required_fees: Some(raised) },
                        event,
                        metrics,
                    }
                }
            },
        }
    }

    /// Takes the tracker's answer to the submission. A hash means the
    /// transaction is in flight: a formed-bundle event with that hash and the
    /// submission's operation hashes is published, and the tracker's update is
    /// awaited next. An update is classified at once.
    pub fn on_send_result(&mut self, result: SendResult) -> (r: Step)
        requires
            old(self).wf(),
            old(self).phase == Phase::Send,
        ensures
            final(self).wf(),
            match result {
                SendResult::TxHash(h) => {
                    &&& *final(self) == (FeeEscalation { phase: Phase::Wait, ..*old(self) })
                    &&& r.action == Action::WaitForUpdate
                    &&& r.metrics@ == Seq::<Metric>::empty()
                    &&& r.event matches Some(
                        BuilderEvent::FormedBundle {
                            builder_id,
                            tx_details: Some(details),
                            nonce,
                            fee_increase_count,
                            required_fees,
                        },
                    ) && builder_id == old(self).builder_id && details.tx_hash == h
                        && details.op_hashes@ == old(self).pending_op_hashes@ && nonce
                        == low_u64_spec(old(self).nonce) && fee_increase_count
                        == old(self).fee_increase_count && required_fees == old(
                        self,
                    ).required_fees
                },
                SendResult::TrackerUpdate(u) => Self::classified(*old(self), *final(self), u, r),
            },
            sent_count(r.metrics@) == 0,
            outcome_count(r.metrics@) == match result {
                SendResult::TxHash(_) => 0,
                SendResult::TrackerUpdate(u) => one_if(reports_fate(u)),
            },
    {
        proof {
            lemma_step_list_counts();
        }
        match result {
            SendResult::TxHash(tx_hash) => {
                let op_hashes = copy_all(&self.pending_op_hashes);
                self.phase = Phase::Wait;
                Step {
                    action: Action::WaitForUpdate,
                    event: Some(
                        BuilderEvent::FormedBundle {
                            builder_id: self.builder_id,
                            tx_details: Some(BundleTxDetails { tx_hash, op_hashes }),
                            nonce: low_u64(self.nonce),
                            fee_increase_count: self.fee_increase_count,
                            required_fees: self.required_fees,
                        },
                    ),
                    metrics: Vec::new(),
                }
            },
            SendResult::TrackerUpdate(u) => {
                let step = self.classify(u);
                proof {
                    lemma_classified_counts(*old(self), *self, u, step);
                }
                step
            },
        }
    }

    /// Takes the tracker's update on the transaction in flight and classifies it.
    pub fn on_update(&mut self, update: TrackerUpdate) -> (r: Step)
        requires
            old(self).wf(),
            old(self).phase == Phase::Wait,
        ensures
            final(self).wf(),
            Self::classified(*old(self), *final(self), update, r),
            sent_count(r.metrics@) == 0,
            outcome_count(r.metrics@) == one_if(reports_fate(update)),
    {
        let step = self.classify(update);
        proof {
            lemma_classified_counts(*old(self), *self, update, step);
        }
        step
    }

    /// Ends the sequence on a failure of the proposer or the tracker, with the
    /// failure's message as its error.
    pub fn on_failure(&mut self, message: String) -> (r: Step)
        requires
            old(self).wf(),
            old(self).phase != Phase::Done,
        ensures
            final(self).wf(),
            final(self).phase == Phase::Done,
            final(self).sent@ == old(self).sent@,
            final(self).fates@ == old(self).fates@,
            r.event.is_none(),
            r.metrics@ == Seq::<Metric>::empty(),
            r.action matches Action::Finish(SendBundleResult::Error(m)) && m@ == message@,
            sent_count(r.metrics@) == 0,
            outcome_count(r.metrics@) == 0,
    {
        proof {
            lemma_step_list_counts();
        }
        self.phase = Phase::Done;
        Step { action: Action::Finish(SendBundleResult::Error(message)), event: None, metrics: Vec::new() }
    }
}

/// What the passive poll of the tracker, made once per block before a new
/// sequence, publishes and records for the update it found, if any. As in a
/// sequence, a mined transaction, a dropped one or a taken nonce publishes its
/// event and counts as a success, a drop or a used nonce; nothing else is
/// reported.
pub fn report_polled_update(builder_id: u64, update: Option<TrackerUpdate>) -> (r: (Option<BuilderEvent>, Vec<Metric>))
    ensures
        match update {
            Some(TrackerUpdate::Mined { tx_hash, nonce, block_number, .. }) => {
                &&& r.0 == Some(
                    BuilderEvent::TransactionMined {
                        builder_id,
                        tx_hash,
                        nonce: low_u64_spec(nonce),
                        block_number,
                    },
                )
                &&& r.1@ == seq![Metric::BundleTxnsSuccess]
            },
            Some(TrackerUpdate::LatestTxDropped { nonce }) => {
                &&& r.0 == Some(BuilderEvent::LatestTransactionDropped { builder_id, nonce: low_u64_spec(nonce) })
                &&& r.1@ == seq![Metric::BundleTxnsDropped]
            },
            Some(TrackerUpdate::NonceUsedForOtherTx { nonce }) => {
                &&& r.0 == Some(BuilderEvent::NonceUsedForOtherTransaction { builder_id, nonce: low_u64_spec(nonce) })
                &&& r.1@ == seq![Metric::BundleTxnsNonceUsed]
            },
            _ => r.0.is_none() && r.1@ == Seq::<Metric>::empty(),
        },
        sent_count(r.1@) == 0,
        outcome_count(r.1@) == one_if(update matches Some(u) && reports_fate(u)),
{
    proof {
        lemma_step_list_counts();
    }
    match update {
        Some(TrackerUpdate::Mined { tx_hash, nonce, block_number, .. }) => {
            let metrics = vec![Metric::BundleTxnsSuccess];
            assert(metrics@ =~= seq![Metric::BundleTxnsSuccess]);
            let event = BuilderEvent::TransactionMined {
                builder_id,
                tx_hash,
                nonce: low_u64(nonce),
                block_number,
            };
            (Some(event), metrics)
        },
        Some(TrackerUpdate::LatestTxDropped { nonce }) => {
            let metrics = vec![Metric::BundleTxnsDropped];
            assert(metrics@ =~= seq![Metric::BundleTxnsDropped]);
            (Some(BuilderEvent::LatestTransactionDropped { builder_id, nonce: low_u64(nonce) }), metrics)
        },
        Some(TrackerUpdate::NonceUsedForOtherTx { nonce }) => {
            let metrics = vec![Metric::BundleTxnsNonceUsed];
            assert(metrics@ =~= seq![Metric::BundleTxnsNonceUsed]);
            (Some(BuilderEvent::NonceUsedForOtherTransaction { builder_id, nonce: low_u64(nonce) }), metrics)
        },
        _ => (None, Vec::new()),
    }
}

/// What the sender records for the result of a sequence: a failure for an error, nothing else.
pub fn result_metrics(result: &SendBundleResult) -> (r: Vec<Metric>)
    ensures
        r@ == if result is Error {
            seq![Metric::BundleTxnsFailed]
        } else {
            Seq::<Metric>::empty()
        },
        sent_count(r@) == 0,
        outcome_count(r@) == 0,
{
    proof {
        lemma_step_list_counts();
    }
    match result {
        SendBundleResult::Error(_) => {
            let metrics = vec![Metric::BundleTxnsFailed];
            assert(metrics@ =~= seq![Metric::BundleTxnsFailed]);
            metrics
        },
        _ => Vec::new(),
    }
}

/// In every state of a sequence, the transactions it submitted are at least as
/// many as those that the tracker reported mined, dropped or preempted.
pub proof fn lemma_sent_covers_outcomes(e: FeeEscalation)
    requires
        e.wf(),
    ensures
        e.fates@ <= e.sent@,
{
}

/// A sequence submits at most one transaction more than the fee increases allowed.
pub proof fn lemma_submissions_bounded(e: FeeEscalation)
    requires
        e.wf(),
    ensures
        e.sent@ <= e.settings.max_fee_increases + 1,
{
}

/// Each replacement in a sequence was asked to meet the previous submission's
/// fees raised by the replacement percentage. So where the proposer kept that
/// floor, each field of the replacement's fees is at least that of the
/// previous submission, and at least `(100 + percent) / 100` times it.
pub proof fn lemma_replacement_fees_rise(e: FeeEscalation, i: int)
    requires
        e.wf(),
        0 < i < e.sent@,
        e.sent_fees@[i].meets(e.floors@[i].unwrap()),
    ensures
        e.sent_fees@[i].meets(e.sent_fees@[i - 1]),
        100 * e.sent_fees@[i].max_fee_per_gas >= e.sent_fees@[i - 1].max_fee_per_gas * (100 + e.percent()),
        100 * e.sent_fees@[i].max_priority_fee_per_gas >= e.sent_fees@[i - 1].max_priority_fee_per_gas * (100
            + e.percent()),
{
    let prev = e.sent_fees@[i - 1];
    assert(e.floors@[i] == Some(prev.increased_spec(e.percent())));
    lemma_increase_ratio(prev.max_fee_per_gas as int, e.percent() as int);
    lemma_increase_ratio(prev.max_priority_fee_per_gas as int, e.percent() as int);
}

/// With a zero replacement percentage, the fee floor for the next attempt is
/// exactly the fees of the submission before it.
pub proof fn lemma_zero_percent_floor_is_sent_fees(e: FeeEscalation)
    requires
        e.wf(),
        e.percent() == 0,
        e.phase == Phase::Build,
        e.sent@ > 0,
    ensures
        e.required_fees == Some(e.sent_fees@.last()),
{
    lemma_fees_increase_by_zero(e.sent_fees@.last());
}

/// How many of `ms` satisfy `f`.
pub open spec fn count_where(ms: Seq<Metric>, f: spec_fn(Metric) -> bool) -> nat
    decreases ms.len(),
{
    if ms.len() == 0 {
        0
    } else {
        count_where(ms.drop_last(), f) + if f(ms.last()) {
            1nat
        } else {
            0
        }
    }
}

/// A submission, as the metrics record it.
pub open spec fn is_sent(m: Metric) -> bool {
    m == Metric::BundleTxnsSent
}

/// A fate that the tracker reported, as the metrics record it: mined, dropped
/// or preempted.
pub open spec fn is_outcome(m: Metric) -> bool {
    m == Metric::BundleTxnsSuccess || m == Metric::BundleTxnsDropped || m
        == Metric::BundleTxnsNonceUsed
}

/// How many submissions `ms` records.
pub open spec fn sent_count(ms: Seq<Metric>) -> nat {
    count_where(ms, |m: Metric| is_sent(m))
}

/// How many reported fates `ms` records.
pub open spec fn outcome_count(ms: Seq<Metric>) -> nat {
    count_where(ms, |m: Metric| is_outcome(m))
}

/// 1 where `b` holds, else 0.
pub open spec fn one_if(b: bool) -> nat {
    if b {
        1
    } else {
        0
    }
}

/// Whether a tracker update reports the fate of a transaction.
pub open spec fn reports_fate(u: TrackerUpdate) -> bool {
    !(u is StillPendingAfterWait)
}

/// Counting distributes over concatenation.
pub proof fn lemma_count_concat(a: Seq<Metric>, b: Seq<Metric>, f: spec_fn(Metric) -> bool)
    ensures
        count_where(a + b, f) == count_where(a, f) + count_where(b, f),
    decreases b.len(),
{
    if b.len() == 0 {
        assert(a + b =~= a);
    } else {
        assert((a + b).drop_last() =~= a + b.drop_last());
        assert((a + b).last() == b.last());
        lemma_count_concat(a, b.drop_last(), f);
    }
}

/// Counting a single metric.
pub proof fn lemma_count_single(m: Metric, f: spec_fn(Metric) -> bool)
    ensures
        count_where(seq![m], f) == if f(m) {
            1nat
        } else {
            0
        },
{
    assert(seq![m].drop_last() =~= Seq::<Metric>::empty());
    assert(count_where(seq![m].drop_last(), f) == 0);
    assert(seq![m].last() == m);
}

/// Counting two metrics.
pub proof fn lemma_count_pair(m1: Metric, m2: Metric, f: spec_fn(Metric) -> bool)
    ensures
        count_where(seq![m1, m2], f) == (if f(m1) {
            1nat
        } else {
            0
        }) + (if f(m2) {
            1nat
        } else {
            0
        }),
{
    assert(seq![m1, m2] =~= seq![m1] + seq![m2]);
    lemma_count_concat(seq![m1], seq![m2], f);
    lemma_count_single(m1, f);
    lemma_count_single(m2, f);
}

/// The submissions recorded over the first `k` steps of a trace.
pub open spec fn trace_sent(steps: Seq<Seq<Metric>>, k: int) -> nat
    decreases k,
{
    if k <= 0 {
        0
    } else {
        trace_sent(steps, k - 1) + sent_count(steps[k - 1])
    }
}

/// The reported fates recorded over the first `k` steps of a trace.
pub open spec fn trace_outcomes(steps: Seq<Seq<Metric>>, k: int) -> nat
    decreases k,
{
    if k <= 0 {
        0
    } else {
        trace_outcomes(steps, k - 1) + outcome_count(steps[k - 1])
    }
}

/// How many of the first `k` flags are set.
pub open spec fn flag_count(flags: Seq<bool>, k: int) -> nat
    decreases k,
{
    if k <= 0 {
        0
    } else {
        flag_count(flags, k - 1) + one_if(flags[k - 1])
    }
}

/// Over a whole trace of steps of the sender (sequence steps and passive
/// polls alike), where each step records one submission for each transaction
/// it submitted and one outcome for each fate the tracker reported to it, as
/// the step contracts state, and where the tracker never reported more fates
/// than transactions had been submitted: at every point of the trace, the
/// transactions sent are at least those counted mined, dropped or preempted.
pub proof fn lemma_trace_sent_covers_outcomes(
    steps: Seq<Seq<Metric>>,
    submitted: Seq<bool>,
    fates: Seq<bool>,
    k: int,
)
    requires
        submitted.len() == steps.len(),
        fates.len() == steps.len(),
        0 <= k <= steps.len(),
        forall|i: int|
            0 <= i < steps.len() ==> sent_count(#[trigger] steps[i]) == one_if(submitted[i])
                && outcome_count(steps[i]) == one_if(fates[i]),
        forall|j: int| 0 <= j <= steps.len() ==> #[trigger] flag_count(fates, j) <= flag_count(submitted, j),
    ensures
        trace_sent(steps, k) >= trace_outcomes(steps, k),
{
    lemma_trace_counts_are_flag_counts(steps, submitted, fates, k);
    assert(flag_count(fates, k) <= flag_count(submitted, k));
}

proof fn lemma_trace_counts_are_flag_counts(
    steps: Seq<Seq<Metric>>,
    submitted: Seq<bool>,
    fates: Seq<bool>,
    k: int,
)
    requires
        submitted.len() == steps.len(),
        fates.len() == steps.len(),
        0 <= k <= steps.len(),
        forall|i: int|
            0 <= i < steps.len() ==> sent_count(#[trigger] steps[i]) == one_if(submitted[i])
                && outcome_count(steps[i]) == one_if(fates[i]),
    ensures
        trace_sent(steps, k) == flag_count(submitted, k),
        trace_outcomes(steps, k) == flag_count(fates, k),
    decreases k,
{
    if k > 0 {
        lemma_trace_counts_are_flag_counts(steps, submitted, fates, k - 1);
        assert(sent_count(steps[k - 1]) == one_if(submitted[k - 1]));
    }
}

/// The counts of the metric lists that the steps record.
pub proof fn lemma_step_list_counts()
    ensures
        sent_count(Seq::<Metric>::empty()) == 0,
        outcome_count(Seq::<Metric>::empty()) == 0,
        sent_count(seq![Metric::BundleTxnsAbandoned]) == 0,
        outcome_count(seq![Metric::BundleTxnsAbandoned]) == 0,
        forall|f: GasFees|
            sent_count(#[trigger] seq![Metric::BundleTxnsSent, Metric::CurrentFees(f)]) == 1
                && outcome_count(seq![Metric::BundleTxnsSent, Metric::CurrentFees(f)]) == 0,
        sent_count(seq![Metric::BundleTxnsSuccess]) == 0,
        outcome_count(seq![Metric::BundleTxnsSuccess]) == 1,
        sent_count(seq![Metric::BundleTxnsDropped]) == 0,
        outcome_count(seq![Metric::BundleTxnsDropped]) == 1,
        sent_count(seq![Metric::BundleTxnsNonceUsed]) == 0,
        outcome_count(seq![Metric::BundleTxnsNonceUsed]) == 1,
        sent_count(seq![Metric::BundleTxnsFailed]) == 0,
        outcome_count(seq![Metric::BundleTxnsFailed]) == 0,
{
    let fs = |m: Metric| is_sent(m);
    let fo = |m: Metric| is_outcome(m);
    lemma_count_single(Metric::BundleTxnsAbandoned, fs);
    lemma_count_single(Metric::BundleTxnsAbandoned, fo);
    lemma_count_single(Metric::BundleTxnsSuccess, fs);
    lemma_count_single(Metric::BundleTxnsSuccess, fo);
    lemma_count_single(Metric::BundleTxnsDropped, fs);
    lemma_count_single(Metric::BundleTxnsDropped, fo);
    lemma_count_single(Metric::BundleTxnsNonceUsed, fs);
    lemma_count_single(Metric::BundleTxnsNonceUsed, fo);
    lemma_count_single(Metric::BundleTxnsFailed, fs);
    lemma_count_single(Metric::BundleTxnsFailed, fo);
    assert forall|f: GasFees|
        sent_count(#[trigger] seq![Metric::BundleTxnsSent, Metric::CurrentFees(f)]) == 1
            && outcome_count(seq![Metric::BundleTxnsSent, Metric::CurrentFees(f)]) == 0 by {
        lemma_count_pair(Metric::BundleTxnsSent, Metric::CurrentFees(f), fs);
        lemma_count_pair(Metric::BundleTxnsSent, Metric::CurrentFees(f), fo);
    }
}

/// What a classified update records: no submission, and one outcome exactly
/// where the update reports a fate.
pub proof fn lemma_classified_counts(pre: FeeEscalation, post: FeeEscalation, u: TrackerUpdate, r: Step)
    requires
        FeeEscalation::classified(pre, post, u, r),
    ensures
        sent_count(r.metrics@) == 0,
        outcome_count(r.metrics@) == one_if(reports_fate(u)),
{
    let fs = |m: Metric| is_sent(m);
    let fo = |m: Metric| is_outcome(m);
    match u {
        TrackerUpdate::Mined { .. } => {
            lemma_count_single(Metric::BundleTxnsSuccess, fs);
            lemma_count_single(Metric::BundleTxnsSuccess, fo);
        },
        TrackerUpdate::NonceUsedForOtherTx { .. } => {
            lemma_count_single(Metric::BundleTxnsNonceUsed, fs);
            lemma_count_single(Metric::BundleTxnsNonceUsed, fo);
        },
        _ => {
            let reported: Seq<Metric> = if u is LatestTxDropped {
                seq![Metric::BundleTxnsDropped]
            } else {
                Seq::empty()
            };
            lemma_count_single(Metric::BundleTxnsDropped, fs);
            lemma_count_single(Metric::BundleTxnsDropped, fo);
            assert(count_where(Seq::<Metric>::empty(), fs) == 0);
            assert(count_where(Seq::<Metric>::empty(), fo) == 0);
            let rest: Seq<Metric> = if pre.fee_increase_count == pre.settings.max_fee_increases {
                seq![Metric::BundleTxnFeeIncreases, Metric::BundleTxnsAbandoned]
            } else {
                seq![Metric::BundleTxnFeeIncreases]
            };
            assert(r.metrics@ == reported + rest);
            lemma_count_concat(reported, rest, fs);
            lemma_count_concat(reported, rest, fo);
            lemma_count_pair(Metric::BundleTxnFeeIncreases, Metric::BundleTxnsAbandoned, fs);
            lemma_count_pair(Metric::BundleTxnFeeIncreases, Metric::BundleTxnsAbandoned, fo);
            lemma_count_single(Metric::BundleTxnFeeIncreases, fs);
            lemma_count_single(Metric::BundleTxnFeeIncreases, fo);
        },
    }
}

} // verus!
