//! Transaction encodings and the builder that normalizes any supported
//! encoding plus its recovered sender into a canonical, engine-ready
//! execution environment.

use vstd::prelude::*;

use crate::primitives::{clone_byte_lists, clone_bytes, Address, Log, U256Val};

verus! {

/// Protocol identifier of a legacy transaction.
pub const LEGACY_TX_TYPE_ID: u8 = 0;

/// Protocol identifier of an access-list transaction.
pub const EIP2930_TX_TYPE_ID: u8 = 1;

/// Protocol identifier of a dynamic-fee transaction.
pub const EIP1559_TX_TYPE_ID: u8 = 2;

/// Protocol identifier of a set-code transaction.
pub const EIP7702_TX_TYPE_ID: u8 = 4;

/// Protocol identifier of a confidential Seismic transaction.
pub const SEISMIC_TX_TYPE_ID: u8 = 74;

/// The destination of a call: an existing account or contract creation.
pub enum TxKind {
    /// Call the account at the given address.
    Call(Address),
    /// Create a new contract.
    Create,
}

/// Mathematical image of a [`TxKind`].
#[verifier::ext_equal]
pub ghost enum TxKindV {
    Call(Seq<u8>),
    Create,
}

impl View for TxKind {
    type V = TxKindV;

    open spec fn view(&self) -> TxKindV {
        match self {
            TxKind::Call(a) => TxKindV::Call(a@),
            TxKind::Create => TxKindV::Create,
        }
    }
}

impl TxKind {
    /// Copies the destination.
    pub fn duplicate(&self) -> (r: TxKind)
        ensures
            r@ == self@,
    {
        match self {
            TxKind::Call(a) => TxKind::Call(a.duplicate()),
            TxKind::Create => TxKind::Create,
        }
    }
}

/// One entry of an access list: an address and the storage keys it warms.
pub struct AccessItem {
    pub address: Address,
    pub storage_keys: Vec<Vec<u8>>,
}

/// Mathematical image of an [`AccessItem`].
#[verifier::ext_equal]
pub ghost struct AccessItemV {
    pub address: Seq<u8>,
    pub storage_keys: Seq<Seq<u8>>,
}

impl View for AccessItem {
    type V = AccessItemV;

    open spec fn view(&self) -> AccessItemV {
        AccessItemV { address: self.address@, storage_keys: self.storage_keys.deep_view() }
    }
}

impl AccessItem {
    /// Copies the entry.
    pub fn duplicate(&self) -> (r: AccessItem)
        ensures
            r@ == self@,
    {
        let r = AccessItem {
            address: self.address.duplicate(),
            storage_keys: clone_byte_lists(&self.storage_keys),
        };
        proof {
            assert(r@ =~~= self@);
        }
        r
    }
}

/// Copies an access list.
fn clone_access_list(list: &Vec<AccessItem>) -> (r: Vec<AccessItem>)
    ensures
        r@.map_values(|a: AccessItem| a@) == list@.map_values(|a: AccessItem| a@),
{
    let mut r: Vec<AccessItem> = Vec::new();
    let n: usize = list.len();
    proof {
        assert(r@.map_values(|a: AccessItem| a@) =~= list@.take(0).map_values(
            |a: AccessItem| a@,
        ));
    }
    for i in 0..n
        invariant
            n == list@.len(),
            r@.len() == i,
            r@.map_values(|a: AccessItem| a@) == list@.take(i as int).map_values(
                |a: AccessItem| a@,
            ),
    {
        let ghost prev = r@;
        let ghost prev_map = r@.map_values(|a: AccessItem| a@);
        let item = list[i].duplicate();
        let ghost item_v = item@;
        r.push(item);
        proof {
            let lhs = r@.map_values(|a: AccessItem| a@);
            let rhs = list@.take(i + 1).map_values(|a: AccessItem| a@);
            assert(lhs.len() == rhs.len());
            assert forall|k: int| 0 <= k < lhs.len() implies lhs[k] == rhs[k] by {
                if k < i {
                    assert(lhs[k] == prev_map[k]);
                    assert(rhs[k] == list@.take(i as int).map_values(|a: AccessItem| a@)[k]);
                } else {
                    assert(lhs[k] == item_v);
                    assert(rhs[k] == list@[k]@);
                }
            };
            assert(lhs =~= rhs);
        }
    }
    proof {
        assert(list@.take(n as int) =~= list@);
    }
    r
}

/// One entry of a set-code authorization list.
pub struct Authorization {
    pub chain_id: u64,
    pub address: Address,
    pub nonce: u64,
}

/// Mathematical image of an [`Authorization`].
#[verifier::ext_equal]
pub ghost struct AuthorizationV {
    pub chain_id: u64,
    pub address: Seq<u8>,
    pub nonce: u64,
}

impl View for Authorization {
    type V = AuthorizationV;

    open spec fn view(&self) -> AuthorizationV {
        AuthorizationV { chain_id: self.chain_id, address: self.address@, nonce: self.nonce }
    }
}

impl Authorization {
    /// Copies the entry.
    pub fn duplicate(&self) -> (r: Authorization)
        ensures
            r@ == self@,
    {
        Authorization {
            chain_id: self.chain_id,
            address: self.address.duplicate(),
            nonce: self.nonce,
        }
    }
}

/// Copies an authorization list.
fn clone_authorization_list(list: &Vec<Authorization>) -> (r: Vec<Authorization>)
    ensures
        r@.map_values(|a: Authorization| a@) == list@.map_values(|a: Authorization| a@),
{
    let mut r: Vec<Authorization> = Vec::new();
    let n: usize = list.len();
    proof {
        assert(r@.map_values(|a: Authorization| a@) =~= list@.take(0).map_values(
            |a: Authorization| a@,
        ));
    }
    for i in 0..n
        invariant
            n == list@.len(),
            r@.len() == i,
            r@.map_values(|a: Authorization| a@) == list@.take(i as int).map_values(
                |a: Authorization| a@,
            ),
    {
        let ghost prev = r@;
        let ghost prev_map = r@.map_values(|a: Authorization| a@);
        let item = list[i].duplicate();
        let ghost item_v = item@;
        r.push(item);
        proof {
            let lhs = r@.map_values(|a: Authorization| a@);
            let rhs = list@.take(i + 1).map_values(|a: Authorization| a@);
            assert(lhs.len() == rhs.len());
            assert forall|k: int| 0 <= k < lhs.len() implies lhs[k] == rhs[k] by {
                if k < i {
                    assert(lhs[k] == prev_map[k]);
                    assert(rhs[k] == list@.take(i as int).map_values(|a: Authorization| a@)[k]);
                } else {
                    assert(lhs[k] == item_v);
                    assert(rhs[k] == list@[k]@);
                }
            };
            assert(lhs =~= rhs);
        }
    }
    proof {
        assert(list@.take(n as int) =~= list@);
    }
    r
}

/// The encryption material a confidential transaction carries: the public key
/// and nonce its input was sealed under, and the protocol message version.
pub struct EncryptionElements {
    pub encryption_pubkey: Vec<u8>,
    pub encryption_nonce: Vec<u8>,
    pub message_version: u8,
}

/// Mathematical image of [`EncryptionElements`].
#[verifier::ext_equal]
pub ghost struct EncryptionElementsV {
    pub encryption_pubkey: Seq<u8>,
    pub encryption_nonce: Seq<u8>,
    pub message_version: u8,
}

impl View for EncryptionElements {
    type V = EncryptionElementsV;

    open spec fn view(&self) -> EncryptionElementsV {
        EncryptionElementsV {
            encryption_pubkey: self.encryption_pubkey@,
            encryption_nonce: self.encryption_nonce@,
            message_version: self.message_version,
        }
    }
}

impl EncryptionElementsV {
    /// The elements are well formed when the nonce has the 96-bit width the
    /// sealing scheme prescribes.
    pub open spec fn wf(self) -> bool {
        self.encryption_nonce.len() == 12
    }
}

/// Whether execution consumes live randomness key material or runs in
/// simulation, which must neither consume nor require it.
#[derive(Clone, Copy, PartialEq, Eq, Structural, Debug)]
pub enum RngMode {
    /// Live execution: randomness-dependent opcodes draw on provisioned key
    /// material.
    Execution,
    /// Simulation or estimation: no live key material is consumed.
    Simulation,
}

/// The discriminant of a transaction encoding. The set is closed: every
/// consumer matches on it exhaustively.
#[derive(Clone, Copy, PartialEq, Eq, Structural, Debug)]
pub enum SeismicTxType {
    Legacy,
    Eip2930,
    Eip1559,
    Eip7702,
    Seismic,
}

/// A legacy transaction.
pub struct TxLegacy {
    pub chain_id: Option<u64>,
    pub nonce: u64,
    pub gas_price: u128,
    pub gas_limit: u64,
    pub to: TxKind,
    pub value: U256Val,
    pub input: Vec<u8>,
}

/// Mathematical image of a [`TxLegacy`].
#[verifier::ext_equal]
pub ghost struct TxLegacyV {
    pub chain_id: Option<u64>,
    pub nonce: u64,
    pub gas_price: u128,
    pub gas_limit: u64,
    pub to: TxKindV,
    pub value: U256Val,
    pub input: Seq<u8>,
}

impl View for TxLegacy {
    type V = TxLegacyV;

    open spec fn view(&self) -> TxLegacyV {
        TxLegacyV {
            chain_id: self.chain_id,
            nonce: self.nonce,
            gas_price: self.gas_price,
            gas_limit: self.gas_limit,
            to: self.to@,
            value: self.value,
            input: self.input@,
        }
    }
}

/// An access-list transaction.
pub struct TxEip2930 {
    pub chain_id: u64,
    pub nonce: u64,
    pub gas_price: u128,
    pub gas_limit: u64,
    pub to: TxKind,
    pub value: U256Val,
    pub access_list: Vec<AccessItem>,
    pub input: Vec<u8>,
}

/// Mathematical image of a [`TxEip2930`].
#[verifier::ext_equal]
pub ghost struct TxEip2930V {
    pub chain_id: u64,
    pub nonce: u64,
    pub gas_price: u128,
    pub gas_limit: u64,
    pub to: TxKindV,
    pub value: U256Val,
    pub access_list: Seq<AccessItemV>,
    pub input: Seq<u8>,
}

impl View for TxEip2930 {
    type V = TxEip2930V;

    open spec fn view(&self) -> TxEip2930V {
        TxEip2930V {
            chain_id: self.chain_id,
            nonce: self.nonce,
            gas_price: self.gas_price,
            gas_limit: self.gas_limit,
            to: self.to@,
            value: self.value,
            access_list: self.access_list@.map_values(|a: AccessItem| a@),
            input: self.input@,
        }
    }
}

/// A dynamic-fee transaction.
pub struct TxEip1559 {
    pub chain_id: u64,
    pub nonce: u64,
    pub gas_limit: u64,
    pub max_fee_per_gas: u128,
    pub max_priority_fee_per_gas: u128,
    pub to: TxKind,
    pub value: U256Val,
    pub access_list: Vec<AccessItem>,
    pub input: Vec<u8>,
}

/// Mathematical image of a [`TxEip1559`].
#[verifier::ext_equal]
pub ghost struct TxEip1559V {
    pub chain_id: u64,
    pub nonce: u64,
    pub gas_limit: u64,
    pub max_fee_per_gas: u128,
    pub max_priority_fee_per_gas: u128,
    pub to: TxKindV,
    pub value: U256Val,
    pub access_list: Seq<AccessItemV>,
    pub input: Seq<u8>,
}

impl View for TxEip1559 {
    type V = TxEip1559V;

    open spec fn view(&self) -> TxEip1559V {
        TxEip1559V {
            chain_id: self.chain_id,
            nonce: self.nonce,
            gas_limit: self.gas_limit,
            max_fee_per_gas: self.max_fee_per_gas,
            max_priority_fee_per_gas: self.max_priority_fee_per_gas,
            to: self.to@,
            value: self.value,
            access_list: self.access_list@.map_values(|a: AccessItem| a@),
            input: self.input@,
        }
    }
}

/// A set-code transaction.
pub struct TxEip7702 {
    pub chain_id: u64,
    pub nonce: u64,
    pub gas_limit: u64,
    pub max_fee_per_gas: u128,
    pub max_priority_fee_per_gas: u128,
    pub to: Address,
    pub value: U256Val,
    pub access_list: Vec<AccessItem>,
    pub authorization_list: Vec<Authorization>,
    pub input: Vec<u8>,
}

/// Mathematical image of a [`TxEip7702`].
#[verifier::ext_equal]
pub ghost struct TxEip7702V {
    pub chain_id: u64,
    pub nonce: u64,
    pub gas_limit: u64,
    pub max_fee_per_gas: u128,
    pub max_priority_fee_per_gas: u128,
    pub to: Seq<u8>,
    pub value: U256Val,
    pub access_list: Seq<AccessItemV>,
    pub authorization_list: Seq<AuthorizationV>,
    pub input: Seq<u8>,
}

impl View for TxEip7702 {
    type V = TxEip7702V;

    open spec fn view(&self) -> TxEip7702V {
        TxEip7702V {
            chain_id: self.chain_id,
            nonce: self.nonce,
            gas_limit: self.gas_limit,
            max_fee_per_gas: self.max_fee_per_gas,
            max_priority_fee_per_gas: self.max_priority_fee_per_gas,
            to: self.to@,
            value: self.value,
            access_list: self.access_list@.map_values(|a: AccessItem| a@),
            authorization_list: self.authorization_list@.map_values(|a: Authorization| a@),
            input: self.input@,
        }
    }
}

/// A confidential Seismic transaction: its input is a ciphertext sealed under
/// the carried [`EncryptionElements`].
pub struct TxSeismic {
    pub chain_id: u64,
    pub nonce: u64,
    pub gas_price: u128,
    pub gas_limit: u64,
    pub to: TxKind,
    pub value: U256Val,
    pub input: Vec<u8>,
    pub seismic_elements: EncryptionElements,
}

/// Mathematical image of a [`TxSeismic`].
#[verifier::ext_equal]
pub ghost struct TxSeismicV {
    pub chain_id: u64,
    pub nonce: u64,
    pub gas_price: u128,
    pub gas_limit: u64,
    pub to: TxKindV,
    pub value: U256Val,
    pub input: Seq<u8>,
    pub seismic_elements: EncryptionElementsV,
}

impl View for TxSeismic {
    type V = TxSeismicV;

    open spec fn view(&self) -> TxSeismicV {
        TxSeismicV {
            chain_id: self.chain_id,
            nonce: self.nonce,
            gas_price: self.gas_price,
            gas_limit: self.gas_limit,
            to: self.to@,
            value: self.value,
            input: self.input@,
            seismic_elements: self.seismic_elements@,
        }
    }
}

/// A transaction together with the hash it was recovered under. Signature
/// verification and sender recovery happen before this pipeline and are not
/// modelled here.
pub struct Signed<T> {
    pub tx: T,
    pub hash: Vec<u8>,
}

/// Mathematical image of a [`Signed`] transaction.
#[verifier::ext_equal]
pub ghost struct SignedV<TV> {
    pub tx: TV,
    pub hash: Seq<u8>,
}

impl<T: View> View for Signed<T> {
    type V = SignedV<T::V>;

    open spec fn view(&self) -> SignedV<T::V> {
        SignedV { tx: self.tx@, hash: self.hash@ }
    }
}

/// A tagged union over the supported transaction encodings. Exactly one
/// variant is active per transaction; the variant determines both the
/// canonical execution-environment shape and the receipt shape.
pub enum SeismicTxEnvelope {
    Legacy(Signed<TxLegacy>),
    Eip2930(Signed<TxEip2930>),
    Eip1559(Signed<TxEip1559>),
    Eip7702(Signed<TxEip7702>),
    Seismic(Signed<TxSeismic>),
}

/// Mathematical image of a [`SeismicTxEnvelope`].
#[verifier::ext_equal]
pub ghost enum SeismicTxEnvelopeV {
    Legacy(SignedV<TxLegacyV>),
    Eip2930(SignedV<TxEip2930V>),
    Eip1559(SignedV<TxEip1559V>),
    Eip7702(SignedV<TxEip7702V>),
    Seismic(SignedV<TxSeismicV>),
}

impl View for SeismicTxEnvelope {
    type V = SeismicTxEnvelopeV;

    open spec fn view(&self) -> SeismicTxEnvelopeV {
        match self {
            SeismicTxEnvelope::Legacy(s) => SeismicTxEnvelopeV::Legacy(s@),
            SeismicTxEnvelope::Eip2930(s) => SeismicTxEnvelopeV::Eip2930(s@),
            SeismicTxEnvelope::Eip1559(s) => SeismicTxEnvelopeV::Eip1559(s@),
            SeismicTxEnvelope::Eip7702(s) => SeismicTxEnvelopeV::Eip7702(s@),
            SeismicTxEnvelope::Seismic(s) => SeismicTxEnvelopeV::Seismic(s@),
        }
    }
}

impl SeismicTxEnvelopeV {
    /// The discriminant of the envelope.
    pub open spec fn spec_tx_type(self) -> SeismicTxType {
        match self {
            SeismicTxEnvelopeV::Legacy(_) => SeismicTxType::Legacy,
            SeismicTxEnvelopeV::Eip2930(_) => SeismicTxType::Eip2930,
            SeismicTxEnvelopeV::Eip1559(_) => SeismicTxType::Eip1559,
            SeismicTxEnvelopeV::Eip7702(_) => SeismicTxType::Eip7702,
            SeismicTxEnvelopeV::Seismic(_) => SeismicTxType::Seismic,
        }
    }

    /// An envelope is well formed when the encryption material of a
    /// confidential transaction is.
    pub open spec fn wf(self) -> bool {
        match self {
            SeismicTxEnvelopeV::Seismic(s) => s.tx.seismic_elements.wf(),
            _ => true,
        }
    }
}

impl SeismicTxEnvelope {
    /// The discriminant of the envelope.
    pub fn tx_type(&self) -> (r: SeismicTxType)
        ensures
            r == self@.spec_tx_type(),
    {
        match self {
            SeismicTxEnvelope::Legacy(_) => SeismicTxType::Legacy,
            SeismicTxEnvelope::Eip2930(_) => SeismicTxType::Eip2930,
            SeismicTxEnvelope::Eip1559(_) => SeismicTxType::Eip1559,
            SeismicTxEnvelope::Eip7702(_) => SeismicTxType::Eip7702,
            SeismicTxEnvelope::Seismic(_) => SeismicTxType::Seismic,
        }
    }
}

/// The canonical, engine-ready form of a transaction.
pub struct TxEnv {
    pub tx_type: u8,
    pub caller: Address,
    pub gas_limit: u64,
    pub gas_price: u128,
    pub kind: TxKind,
    pub value: U256Val,
    pub data: Vec<u8>,
    pub nonce: u64,
    pub chain_id: Option<u64>,
    pub access_list: Vec<AccessItem>,
    pub gas_priority_fee: Option<u128>,
    pub blob_hashes: Vec<Vec<u8>>,
    pub max_fee_per_blob_gas: u128,
    pub authorization_list: Vec<Authorization>,
}

/// Mathematical image of a [`TxEnv`].
#[verifier::ext_equal]
pub ghost struct TxEnvV {
    pub tx_type: u8,
    pub caller: Seq<u8>,
    pub gas_limit: u64,
    pub gas_price: u128,
    pub kind: TxKindV,
    pub value: U256Val,
    pub data: Seq<u8>,
    pub nonce: u64,
    pub chain_id: Option<u64>,
    pub access_list: Seq<AccessItemV>,
    pub gas_priority_fee: Option<u128>,
    pub blob_hashes: Seq<Seq<u8>>,
    pub max_fee_per_blob_gas: u128,
    pub authorization_list: Seq<AuthorizationV>,
}

impl View for TxEnv {
    type V = TxEnvV;

    open spec fn view(&self) -> TxEnvV {
        TxEnvV {
            tx_type: self.tx_type,
            caller: self.caller@,
            gas_limit: self.gas_limit,
            gas_price: self.gas_price,
            kind: self.kind@,
            value: self.value,
            data: self.data@,
            nonce: self.nonce,
            chain_id: self.chain_id,
            access_list: self.access_list@.map_values(|a: AccessItem| a@),
            gas_priority_fee: self.gas_priority_fee,
            blob_hashes: self.blob_hashes.deep_view(),
            max_fee_per_blob_gas: self.max_fee_per_blob_gas,
            authorization_list: self.authorization_list@.map_values(|a: Authorization| a@),
        }
    }
}

/// An engine-ready transaction: the canonical environment, the hash of the
/// transaction it came from, and the randomness mode it runs under.
pub struct SeismicTransaction {
    pub base: TxEnv,
    pub tx_hash: Vec<u8>,
    pub rng_mode: RngMode,
}

/// Mathematical image of a [`SeismicTransaction`].
#[verifier::ext_equal]
pub ghost struct SeismicTransactionV {
    pub base: TxEnvV,
    pub tx_hash: Seq<u8>,
    pub rng_mode: RngMode,
}

impl View for SeismicTransaction {
    type V = SeismicTransactionV;

    open spec fn view(&self) -> SeismicTransactionV {
        SeismicTransactionV { base: self.base@, tx_hash: self.tx_hash@, rng_mode: self.rng_mode }
    }
}

impl SeismicTransaction {
    /// Overrides the randomness mode. The builder always produces
    /// [`RngMode::Execution`]; callers running simulation or estimation
    /// paths, which must not consume live key material, override it here.
    pub fn with_rng_mode(self, rng_mode: RngMode) -> (r: SeismicTransaction)
        ensures
            r@ == (SeismicTransactionV { rng_mode, ..self@ }),
    {
        SeismicTransaction { rng_mode, ..self }
    }
}

/// The environment the builder owes for each envelope variant: every field
/// the variant natively carries maps through (access list, fee fields,
/// authorization list included), every field it lacks takes its
/// protocol-defined neutral value, and the randomness mode defaults to live
/// execution.
pub open spec fn spec_build_tx_env(tx: SeismicTxEnvelopeV, sender: Seq<u8>) -> SeismicTransactionV {
    match tx {
        SeismicTxEnvelopeV::Legacy(s) => SeismicTransactionV {
            base: TxEnvV {
                tx_type: LEGACY_TX_TYPE_ID,
                caller: sender,
                gas_limit: s.tx.gas_limit,
                gas_price: s.tx.gas_price,
                kind: s.tx.to,
                value: s.tx.value,
                data: s.tx.input,
                nonce: s.tx.nonce,
                chain_id: s.tx.chain_id,
                access_list: Seq::empty(),
                gas_priority_fee: None,
                blob_hashes: Seq::empty(),
                max_fee_per_blob_gas: 0,
                authorization_list: Seq::empty(),
            },
            tx_hash: s.hash,
            rng_mode: RngMode::Execution,
        },
        SeismicTxEnvelopeV::Eip2930(s) => SeismicTransactionV {
            base: TxEnvV {
                tx_type: EIP2930_TX_TYPE_ID,
                caller: sender,
                gas_limit: s.tx.gas_limit,
                gas_price: s.tx.gas_price,
                kind: s.tx.to,
                value: s.tx.value,
                data: s.tx.input,
                nonce: s.tx.nonce,
                chain_id: Some(s.tx.chain_id),
                access_list: s.tx.access_list,
                gas_priority_fee: None,
                blob_hashes: Seq::empty(),
                max_fee_per_blob_gas: 0,
                authorization_list: Seq::empty(),
            },
            tx_hash: s.hash,
            rng_mode: RngMode::Execution,
        },
        SeismicTxEnvelopeV::Eip1559(s) => SeismicTransactionV {
            base: TxEnvV {
                tx_type: EIP1559_TX_TYPE_ID,
                caller: sender,
                gas_limit: s.tx.gas_limit,
                gas_price: s.tx.max_fee_per_gas,
                kind: s.tx.to,
                value: s.tx.value,
                data: s.tx.input,
                nonce: s.tx.nonce,
                chain_id: Some(s.tx.chain_id),
                access_list: s.tx.access_list,
                gas_priority_fee: Some(s.tx.max_priority_fee_per_gas),
                blob_hashes: Seq::empty(),
                max_fee_per_blob_gas: 0,
                authorization_list: Seq::empty(),
            },
            tx_hash: s.hash,
            rng_mode: RngMode::Execution,
        },
        SeismicTxEnvelopeV::Eip7702(s) => SeismicTransactionV {
            base: TxEnvV {
                tx_type: EIP7702_TX_TYPE_ID,
                caller: sender,
                gas_limit: s.tx.gas_limit,
                gas_price: s.tx.max_fee_per_gas,
                kind: TxKindV::Call(s.tx.to),
                value: s.tx.value,
                data: s.tx.input,
                nonce: s.tx.nonce,
                chain_id: Some(s.tx.chain_id),
                access_list: s.tx.access_list,
                gas_priority_fee: Some(s.tx.max_priority_fee_per_gas),
                blob_hashes: Seq::empty(),
                max_fee_per_blob_gas: 0,
                authorization_list: s.tx.authorization_list,
            },
            tx_hash: s.hash,
            rng_mode: RngMode::Execution,
        },
        SeismicTxEnvelopeV::Seismic(s) => SeismicTransactionV {
            base: TxEnvV {
                tx_type: SEISMIC_TX_TYPE_ID,
                caller: sender,
                gas_limit: s.tx.gas_limit,
                gas_price: s.tx.gas_price,
                kind: s.tx.to,
                value: s.tx.value,
                data: s.tx.input,
                nonce: s.tx.nonce,
                chain_id: Some(s.tx.chain_id),
                access_list: Seq::empty(),
                gas_priority_fee: None,
                blob_hashes: Seq::empty(),
                max_fee_per_blob_gas: 0,
                authorization_list: Seq::empty(),
            },
            tx_hash: s.hash,
            rng_mode: RngMode::Execution,
        },
    }
}

/// Trait marking types that can be converted into a canonical transaction
/// environment.
pub trait IntoTxEnv {
    /// The environment this value denotes.
    spec fn tx_env_view(&self) -> SeismicTransactionV;

    /// Converts `self` into an engine-ready transaction.
    fn into_tx_env(self) -> (r: SeismicTransaction)
        ensures
            r@ == self.tx_env_view(),
    ;
}

impl IntoTxEnv for SeismicTransaction {
    open spec fn tx_env_view(&self) -> SeismicTransactionV {
        self@
    }

    fn into_tx_env(self) -> (r: SeismicTransaction) {
        self
    }
}

/// Trait for building a canonical transaction environment from a transaction
/// and its recovered sender address.
pub trait FromRecoveredTx: Sized {
    /// Whether `self` is the environment the builder owes for `tx` and
    /// `sender`.
    spec fn is_built_from(&self, tx: SeismicTxEnvelopeV, sender: Seq<u8>) -> bool;

    /// Builds the environment from a transaction and a sender address.
    fn from_recovered_tx(tx: &SeismicTxEnvelope, sender: Address) -> (r: Self)
        ensures
            r.is_built_from(tx@, sender@),
    ;
}

impl FromRecoveredTx for SeismicTransaction {
    open spec fn is_built_from(&self, tx: SeismicTxEnvelopeV, sender: Seq<u8>) -> bool {
        self@ == spec_build_tx_env(tx, sender)
    }

    fn from_recovered_tx(tx: &SeismicTxEnvelope, sender: Address) -> (r: Self) {
        let base = match tx {
            SeismicTxEnvelope::Legacy(s) => TxEnv {
                tx_type: LEGACY_TX_TYPE_ID,
                caller: sender,
                gas_limit: s.tx.gas_limit,
                gas_price: s.tx.gas_price,
                kind: s.tx.to.duplicate(),
                value: s.tx.value,
                data: clone_bytes(&s.tx.input),
                nonce: s.tx.nonce,
                chain_id: s.tx.chain_id,
                access_list: Vec::new(),
                gas_priority_fee: None,
                blob_hashes: Vec::new(),
                max_fee_per_blob_gas: 0,
                authorization_list: Vec::new(),
            },
            SeismicTxEnvelope::Eip2930(s) => TxEnv {
                tx_type: EIP2930_TX_TYPE_ID,
                caller: sender,
                gas_limit: s.tx.gas_limit,
                gas_price: s.tx.gas_price,
                kind: s.tx.to.duplicate(),
                value: s.tx.value,
                data: clone_bytes(&s.tx.input),
                nonce: s.tx.nonce,
                chain_id: Some(s.tx.chain_id),
                access_list: clone_access_list(&s.tx.access_list),
                gas_priority_fee: None,
                blob_hashes: Vec::new(),
                max_fee_per_blob_gas: 0,
                authorization_list: Vec::new(),
            },
            SeismicTxEnvelope::Eip1559(s) => TxEnv {
                tx_type: EIP1559_TX_TYPE_ID,
                caller: sender,
                gas_limit: s.tx.gas_limit,
                gas_price: s.tx.max_fee_per_gas,
                kind: s.tx.to.duplicate(),
                value: s.tx.value,
                data: clone_bytes(&s.tx.input),
                nonce: s.tx.nonce,
                chain_id: Some(s.tx.chain_id),
                access_list: clone_access_list(&s.tx.access_list),
                gas_priority_fee: Some(s.tx.max_priority_fee_per_gas),
                blob_hashes: Vec::new(),
                max_fee_per_blob_gas: 0,
                authorization_list: Vec::new(),
            },
            SeismicTxEnvelope::Eip7702(s) => TxEnv {
                tx_type: EIP7702_TX_TYPE_ID,
                caller: sender,
                gas_limit: s.tx.gas_limit,
                gas_price: s.tx.max_fee_per_gas,
                kind: TxKind::Call(s.tx.to.duplicate()),
                value: s.tx.value,
                data: clone_bytes(&s.tx.input),
                nonce: s.tx.nonce,
                chain_id: Some(s.tx.chain_id),
                access_list: clone_access_list(&s.tx.access_list),
                gas_priority_fee: Some(s.tx.max_priority_fee_per_gas),
                blob_hashes: Vec::new(),
                max_fee_per_blob_gas: 0,
                authorization_list: clone_authorization_list(&s.tx.authorization_list),
            },
            SeismicTxEnvelope::Seismic(s) => TxEnv {
                tx_type: SEISMIC_TX_TYPE_ID,
                caller: sender,
                gas_limit: s.tx.gas_limit,
                gas_price: s.tx.gas_price,
                kind: s.tx.to.duplicate(),
                value: s.tx.value,
                data: clone_bytes(&s.tx.input),
                nonce: s.tx.nonce,
                chain_id: Some(s.tx.chain_id),
                access_list: Vec::new(),
                gas_priority_fee: None,
                blob_hashes: Vec::new(),
                max_fee_per_blob_gas: 0,
                authorization_list: Vec::new(),
            },
        };
        let hash = match tx {
            SeismicTxEnvelope::Legacy(s) => clone_bytes(&s.hash),
            SeismicTxEnvelope::Eip2930(s) => clone_bytes(&s.hash),
            SeismicTxEnvelope::Eip1559(s) => clone_bytes(&s.hash),
            SeismicTxEnvelope::Eip7702(s) => clone_bytes(&s.hash),
            SeismicTxEnvelope::Seismic(s) => clone_bytes(&s.hash),
        };
        let r = SeismicTransaction { base, tx_hash: hash, rng_mode: RngMode::Execution };
        proof {
            assert(r@ =~~= spec_build_tx_env(tx@, sender@));
        }
        r
    }
}

/// A transaction paired with the sender address recovered from its
/// signature.
pub struct Recovered {
    pub tx: SeismicTxEnvelope,
    pub signer: Address,
}

/// Mathematical image of a [`Recovered`] transaction.
#[verifier::ext_equal]
pub ghost struct RecoveredV {
    pub tx: SeismicTxEnvelopeV,
    pub signer: Seq<u8>,
}

impl View for Recovered {
    type V = RecoveredV;

    open spec fn view(&self) -> RecoveredV {
        RecoveredV { tx: self.tx@, signer: self.signer@ }
    }
}

impl IntoTxEnv for Recovered {
    open spec fn tx_env_view(&self) -> SeismicTransactionV {
        spec_build_tx_env(self.tx@, self.signer@)
    }

    fn into_tx_env(self) -> (r: SeismicTransaction) {
        SeismicTransaction::from_recovered_tx(&self.tx, self.signer)
    }
}

/// The outcome the execution engine reports for one transaction.
pub struct ExecutionResult {
    /// Whether execution succeeded.
    pub success: bool,
    /// Gas consumed by this transaction.
    pub gas_used: u64,
    /// Log records emitted during execution.
    pub logs: Vec<Log>,
    /// Bytes returned by the executed code.
    pub output: Vec<u8>,
}

/// Mathematical image of an [`ExecutionResult`].
#[verifier::ext_equal]
pub ghost struct ExecutionResultV {
    pub success: bool,
    pub gas_used: u64,
    pub logs: Seq<crate::primitives::LogV>,
    pub output: Seq<u8>,
}

impl View for ExecutionResult {
    type V = ExecutionResultV;

    open spec fn view(&self) -> ExecutionResultV {
        ExecutionResultV {
            success: self.success,
            gas_used: self.gas_used,
            logs: self.logs@.map_values(|l: Log| l@),
            output: self.output@,
        }
    }
}

} // verus!
