//! Receipt builder: maps an execution outcome and a transaction type to a
//! type-tagged receipt. The receipt tag always equals the transaction tag;
//! no other path produces a receipt.

use vstd::prelude::*;

use crate::primitives::{clone_bytes, Log, LogV};
use crate::tx::{ExecutionResult, ExecutionResultV, SeismicTxEnvelope, SeismicTxType};

verus! {

/// The 2048-bit Ethereum log bloom of a list of byte strings, as a 256-byte
/// string: each item sets three bits chosen by its Keccak-256 hash.
pub uninterp spec fn bloom_of(items: Seq<Seq<u8>>) -> Seq<u8>;

/// Relies on alloy_primitives::Bloom::m3_2048: the Ethereum yellow-paper
/// bloom accumulation, a function of the accrued byte strings alone. With
/// nothing accrued the filter stays all-zero.
#[verifier::external_body]
fn accrue_logs_bloom(items: &Vec<Vec<u8>>) -> (r: Vec<u8>)
    ensures
        r@ == bloom_of(items.deep_view()),
        r@.len() == 256,
        items@.len() == 0 ==> r@ == Seq::new(256, |i: int| 0u8),
{
    let mut bloom = alloy_primitives::Bloom::ZERO;
    for item in items.iter() {
        bloom.m3_2048(item.as_slice());
    }
    bloom.as_slice().to_vec()
}

/// The byte strings one log contributes to the bloom: its address, then its
/// topics, in order. Log data does not enter the bloom.
pub open spec fn log_bloom_items(log: LogV) -> Seq<Seq<u8>> {
    seq![log.address] + log.topics
}

/// The byte strings a list of logs contributes to the bloom, in order.
pub open spec fn bloom_items_of(logs: Seq<LogV>) -> Seq<Seq<u8>>
    decreases logs.len(),
{
    if logs.len() == 0 {
        Seq::empty()
    } else {
        bloom_items_of(logs.drop_last()) + log_bloom_items(logs.last())
    }
}

/// The bloom filter a list of logs derives to.
pub open spec fn logs_bloom(logs: Seq<LogV>) -> Seq<u8> {
    bloom_of(bloom_items_of(logs))
}

/// Collects the bloom inputs of one log.
fn collect_log_items(log: &Log) -> (r: Vec<Vec<u8>>)
    ensures
        r.deep_view() == log_bloom_items(log@),
{
    let mut r: Vec<Vec<u8>> = Vec::new();
    r.push(clone_bytes(&log.address.bytes));
    let n: usize = log.topics.len();
    proof {
        assert(r.deep_view() =~~= seq![log@.address] + log@.topics.take(0));
    }
    for j in 0..n
        invariant
            n == log.topics@.len(),
            r@.len() == j + 1,
            r.deep_view() == seq![log@.address] + log@.topics.take(j as int),
    {
        let ghost prev = r.deep_view();
        r.push(clone_bytes(&log.topics[j]));
        proof {
            let lhs = r.deep_view();
            let rhs = seq![log@.address] + log@.topics.take(j + 1);
            assert(lhs.len() == rhs.len());
            assert forall|k: int| 0 <= k < lhs.len() implies lhs[k] == rhs[k] by {
                if k < j + 1 {
                    assert(lhs[k] == prev[k]);
                    assert(prev[k] == rhs[k]);
                } else {
                    assert(lhs[k] =~~= log@.topics[j as int]);
                }
            };
            assert(lhs =~= rhs);
        }
    }
    proof {
        assert(log@.topics.take(n as int) =~= log@.topics);
    }
    r
}

/// Collects the bloom inputs of a list of logs, in order.
fn collect_bloom_items(logs: &Vec<Log>) -> (r: Vec<Vec<u8>>)
    ensures
        r.deep_view() == bloom_items_of(logs@.map_values(|l: Log| l@)),
{
    let mut r: Vec<Vec<u8>> = Vec::new();
    let n: usize = logs.len();
    proof {
        assert(r.deep_view() =~~= bloom_items_of(logs@.take(0).map_values(|l: Log| l@)));
    }
    for i in 0..n
        invariant
            n == logs@.len(),
            r.deep_view() == bloom_items_of(logs@.take(i as int).map_values(|l: Log| l@)),
    {
        let ghost before = r.deep_view();
        let ghost part_items = log_bloom_items(logs@[i as int]@);
        let mut part = collect_log_items(&logs[i]);
        r.append(&mut part);
        proof {
            assert(r.deep_view() =~~= before + part_items);
            let pv = logs@.take(i as int).map_values(|l: Log| l@);
            let pv1 = logs@.take(i + 1).map_values(|l: Log| l@);
            assert(pv1.len() == i + 1);
            assert(pv1.drop_last() =~= pv);
            assert(pv1.last() == logs@[i as int]@);
            assert(bloom_items_of(pv1) == bloom_items_of(pv1.drop_last()) + log_bloom_items(
                pv1.last(),
            ));
            assert(r.deep_view() == bloom_items_of(pv1));
        }
    }
    proof {
        assert(logs@.take(n as int) =~= logs@);
    }
    r
}

/// A transaction receipt: status, cumulative gas of the block so far, and
/// the logs the transaction emitted.
pub struct Receipt {
    /// True when the execution result reported success.
    pub status: bool,
    /// Gas used by the block up to and including this transaction.
    pub cumulative_gas_used: u64,
    /// Logs emitted by this transaction.
    pub logs: Vec<Log>,
}

/// Mathematical image of a [`Receipt`].
#[verifier::ext_equal]
pub ghost struct ReceiptV {
    pub status: bool,
    pub cumulative_gas_used: u64,
    pub logs: Seq<LogV>,
}

impl View for Receipt {
    type V = ReceiptV;

    open spec fn view(&self) -> ReceiptV {
        ReceiptV {
            status: self.status,
            cumulative_gas_used: self.cumulative_gas_used,
            logs: self.logs@.map_values(|l: Log| l@),
        }
    }
}

/// A receipt together with the bloom filter derived from its logs.
pub struct ReceiptWithBloom {
    pub receipt: Receipt,
    pub logs_bloom: Vec<u8>,
}

/// Mathematical image of a [`ReceiptWithBloom`].
#[verifier::ext_equal]
pub ghost struct ReceiptWithBloomV {
    pub receipt: ReceiptV,
    pub logs_bloom: Seq<u8>,
}

impl View for ReceiptWithBloom {
    type V = ReceiptWithBloomV;

    open spec fn view(&self) -> ReceiptWithBloomV {
        ReceiptWithBloomV { receipt: self.receipt@, logs_bloom: self.logs_bloom@ }
    }
}

/// A receipt wrapped in the type tag of the transaction that produced it.
/// The variant set mirrors [`SeismicTxEnvelope`] and is closed.
pub enum SeismicReceiptEnvelope {
    Legacy(ReceiptWithBloom),
    Eip2930(ReceiptWithBloom),
    Eip1559(ReceiptWithBloom),
    Eip7702(ReceiptWithBloom),
    Seismic(ReceiptWithBloom),
}

/// Mathematical image of a [`SeismicReceiptEnvelope`].
#[verifier::ext_equal]
pub ghost enum SeismicReceiptEnvelopeV {
    Legacy(ReceiptWithBloomV),
    Eip2930(ReceiptWithBloomV),
    Eip1559(ReceiptWithBloomV),
    Eip7702(ReceiptWithBloomV),
    Seismic(ReceiptWithBloomV),
}

impl View for SeismicReceiptEnvelope {
    type V = SeismicReceiptEnvelopeV;

    open spec fn view(&self) -> SeismicReceiptEnvelopeV {
        match self {
            SeismicReceiptEnvelope::Legacy(r) => SeismicReceiptEnvelopeV::Legacy(r@),
            SeismicReceiptEnvelope::Eip2930(r) => SeismicReceiptEnvelopeV::Eip2930(r@),
            SeismicReceiptEnvelope::Eip1559(r) => SeismicReceiptEnvelopeV::Eip1559(r@),
            SeismicReceiptEnvelope::Eip7702(r) => SeismicReceiptEnvelopeV::Eip7702(r@),
            SeismicReceiptEnvelope::Seismic(r) => SeismicReceiptEnvelopeV::Seismic(r@),
        }
    }
}

impl SeismicReceiptEnvelopeV {
    /// The type tag of the receipt.
    pub open spec fn tag(self) -> SeismicTxType {
        match self {
            SeismicReceiptEnvelopeV::Legacy(_) => SeismicTxType::Legacy,
            SeismicReceiptEnvelopeV::Eip2930(_) => SeismicTxType::Eip2930,
            SeismicReceiptEnvelopeV::Eip1559(_) => SeismicTxType::Eip1559,
            SeismicReceiptEnvelopeV::Eip7702(_) => SeismicTxType::Eip7702,
            SeismicReceiptEnvelopeV::Seismic(_) => SeismicTxType::Seismic,
        }
    }

    /// The wrapped receipt and bloom, whatever the tag.
    pub open spec fn inner(self) -> ReceiptWithBloomV {
        match self {
            SeismicReceiptEnvelopeV::Legacy(r) => r,
            SeismicReceiptEnvelopeV::Eip2930(r) => r,
            SeismicReceiptEnvelopeV::Eip1559(r) => r,
            SeismicReceiptEnvelopeV::Eip7702(r) => r,
            SeismicReceiptEnvelopeV::Seismic(r) => r,
        }
    }
}

impl SeismicReceiptEnvelope {
    /// The type tag of the receipt.
    pub fn tag(&self) -> (r: SeismicTxType)
        ensures
            r == self@.tag(),
    {
        match self {
            SeismicReceiptEnvelope::Legacy(_) => SeismicTxType::Legacy,
            SeismicReceiptEnvelope::Eip2930(_) => SeismicTxType::Eip2930,
            SeismicReceiptEnvelope::Eip1559(_) => SeismicTxType::Eip1559,
            SeismicReceiptEnvelope::Eip7702(_) => SeismicTxType::Eip7702,
            SeismicReceiptEnvelope::Seismic(_) => SeismicTxType::Seismic,
        }
    }

    /// A reference to the wrapped receipt and bloom, whatever the tag.
    pub fn inner(&self) -> (r: &ReceiptWithBloom)
        ensures
            r@ == self@.inner(),
    {
        match self {
            SeismicReceiptEnvelope::Legacy(r) => r,
            SeismicReceiptEnvelope::Eip2930(r) => r,
            SeismicReceiptEnvelope::Eip1559(r) => r,
            SeismicReceiptEnvelope::Eip7702(r) => r,
            SeismicReceiptEnvelope::Seismic(r) => r,
        }
    }
}

/// The receipt the builder owes for a transaction type, an execution result
/// and the block's cumulative gas: success status taken from the result,
/// bloom derived from the result's logs, tag equal to the transaction type.
pub open spec fn spec_build_receipt(
    ty: SeismicTxType,
    result: ExecutionResultV,
    cumulative_gas_used: u64,
) -> SeismicReceiptEnvelopeV {
    let inner = ReceiptWithBloomV {
        receipt: ReceiptV {
            status: result.success,
            cumulative_gas_used: cumulative_gas_used,
            logs: result.logs,
        },
        logs_bloom: logs_bloom(result.logs),
    };
    match ty {
        SeismicTxType::Legacy => SeismicReceiptEnvelopeV::Legacy(inner),
        SeismicTxType::Eip2930 => SeismicReceiptEnvelopeV::Eip2930(inner),
        SeismicTxType::Eip1559 => SeismicReceiptEnvelopeV::Eip1559(inner),
        SeismicTxType::Eip7702 => SeismicReceiptEnvelopeV::Eip7702(inner),
        SeismicTxType::Seismic => SeismicReceiptEnvelopeV::Seismic(inner),
    }
}

/// Receipt builder operating on the pipeline's plain transaction and receipt
/// types.
#[derive(Clone, Copy, Debug, Default)]
#[non_exhaustive]
pub struct SeismicAlloyReceiptBuilder;

impl SeismicAlloyReceiptBuilder {
    /// Builds the receipt for `tx` from its execution result and the block's
    /// cumulative gas so far.
    ///
    /// Law: for every transaction type, the receipt carries the tag of the
    /// transaction that produced it.
    pub fn build_receipt(
        &self,
        tx: &SeismicTxEnvelope,
        result: ExecutionResult,
        cumulative_gas_used: u64,
    ) -> (r: SeismicReceiptEnvelope)
        ensures
            r@ == spec_build_receipt(tx@.spec_tx_type(), result@, cumulative_gas_used),
            r@.tag() == tx@.spec_tx_type(),
    {
        let items = collect_bloom_items(&result.logs);
        let logs_bloom = accrue_logs_bloom(&items);
        let receipt = Receipt { status: result.success, cumulative_gas_used, logs: result.logs };
        let inner = ReceiptWithBloom { receipt, logs_bloom };
        let ty = tx.tx_type();
        let r = match ty {
            SeismicTxType::Legacy => SeismicReceiptEnvelope::Legacy(inner),
            SeismicTxType::Eip2930 => SeismicReceiptEnvelope::Eip2930(inner),
            SeismicTxType::Eip1559 => SeismicReceiptEnvelope::Eip1559(inner),
            SeismicTxType::Eip7702 => SeismicReceiptEnvelope::Eip7702(inner),
            SeismicTxType::Seismic => SeismicReceiptEnvelope::Seismic(inner),
        };
        proof {
            assert(r@ =~~= spec_build_receipt(tx@.spec_tx_type(), result@, cumulative_gas_used));
        }
        r
    }
}

} // verus!
