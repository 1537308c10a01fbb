//! The confidential block executor: per block it decrypts confidential
//! payloads, hands canonical environments to the execution engine, folds
//! engine results into type-tagged receipts and accumulates gas.
//!
//! Only execute endpoints route through the block executor; simulate
//! endpoints never reach it and so never touch the key-management client.

use vstd::prelude::*;

use crate::enclave::{
    sealed_of, sha256_of, EnclaveClient, EnclaveClientBuilder, EnclaveError, MAX_PLAINTEXT_LEN,
};
use crate::evm::SeismicEvmFactory;
use crate::hardfork::SeismicChainHardforks;
use crate::receipt_builder::{
    spec_build_receipt, SeismicAlloyReceiptBuilder, SeismicReceiptEnvelope,
};
use crate::tx::{
    spec_build_tx_env, ExecutionResult, FromRecoveredTx, Recovered, SeismicTransaction,
    SeismicTransactionV, SeismicTxEnvelope, SeismicTxEnvelopeV, TxEnvV,
};

verus! {

/// An error that aborts the whole block build. Nothing is recovered or
/// retried here: every error propagates to the caller of the executor.
#[derive(Clone, Copy, PartialEq, Eq, Structural, Debug)]
pub enum BlockExecutionError {
    /// An internal pipeline failure wrapping the underlying key-management
    /// error; a failed decryption is never downgraded to an ordinary
    /// transaction revert.
    Internal(EnclaveError),
}

/// The accumulated outcome of one block: all receipts in transaction order
/// and the total gas used.
pub struct BlockExecutionResult {
    pub receipts: Vec<SeismicReceiptEnvelope>,
    pub gas_used: u64,
}

/// The environment the pipeline owes for a confidential transaction whose
/// payload decrypts to `plaintext`: the canonical environment with the
/// ciphertext replaced by the plaintext.
pub open spec fn spec_decrypted_env(
    tx: SeismicTxEnvelopeV,
    sender: Seq<u8>,
    plaintext: Seq<u8>,
) -> SeismicTransactionV {
    let built = spec_build_tx_env(tx, sender);
    SeismicTransactionV { base: TxEnvV { data: plaintext, ..built.base }, ..built }
}

/// Block executor for confidential transactions.
///
/// States: `Created` (receipts empty, nothing applied), then after
/// [`apply_pre_execution_changes`](Self::apply_pre_execution_changes) one
/// [`begin_transaction`](Self::begin_transaction) /
/// [`commit_transaction`](Self::commit_transaction) pair per transaction,
/// and finally [`finish`](Self::finish), which consumes the executor.
pub struct SeismicBlockExecutor {
    /// Chain specification.
    pub chain_spec: SeismicChainHardforks,
    /// Receipt builder.
    pub receipt_builder: SeismicAlloyReceiptBuilder,
    /// Key-management client used to decrypt confidential payloads.
    pub enclave_client: EnclaveClient,
    /// Whether pre-execution changes have been applied.
    pub started: bool,
    /// Receipts accumulated so far, in transaction order.
    pub receipts: Vec<SeismicReceiptEnvelope>,
    /// Gas used by the block so far.
    pub cumulative_gas_used: u64,
}

impl SeismicBlockExecutor {
    /// The executor's invariant: before pre-execution nothing is
    /// accumulated, and the gas counter always equals the cumulative gas of
    /// the last receipt.
    pub open spec fn wf(self) -> bool {
        &&& (!self.started ==> self.receipts@.len() == 0 && self.cumulative_gas_used == 0)
        &&& (self.receipts@.len() == 0 ==> self.cumulative_gas_used == 0)
        &&& (self.receipts@.len() > 0 ==> self.receipts@.last()@.inner().receipt.cumulative_gas_used
            == self.cumulative_gas_used)
    }

    /// Creates a new block executor in the `Created` state.
    pub fn new(
        chain_spec: SeismicChainHardforks,
        receipt_builder: SeismicAlloyReceiptBuilder,
        enclave_client: EnclaveClient,
    ) -> (r: SeismicBlockExecutor)
        ensures
            r.chain_spec == chain_spec,
            r.receipt_builder == receipt_builder,
            r.enclave_client == enclave_client,
            !r.started,
            r.receipts@.len() == 0,
            r.cumulative_gas_used == 0,
            r.wf(),
    {
        SeismicBlockExecutor {
            chain_spec,
            receipt_builder,
            enclave_client,
            started: false,
            receipts: Vec::new(),
            cumulative_gas_used: 0,
        }
    }

    /// Applies engine-level setup before any user transaction. The engine
    /// side of the setup (system calls such as the beacon-root write) is
    /// performed by the engine's owner; here the executor moves out of the
    /// `Created` state. Fatal on failure; this implementation has no failure
    /// source of its own.
    pub fn apply_pre_execution_changes(&mut self) -> (r: Result<(), BlockExecutionError>)
        requires
            old(self).wf(),
            !old(self).started,
        ensures
            r is Ok,
            final(self).started,
            final(self).wf(),
            final(self).receipts@ == old(self).receipts@,
            final(self).cumulative_gas_used == old(self).cumulative_gas_used,
            final(self).chain_spec == old(self).chain_spec,
            final(self).enclave_client == old(self).enclave_client,
    {
        self.started = true;
        Ok(())
    }

    /// Runs the decryption pipeline for one recovered transaction and
    /// returns the engine-ready environment.
    ///
    /// A transaction without encryption material passes through as the
    /// canonical environment, unchanged. A confidential transaction has its
    /// payload decrypted through the key-management client: on success the
    /// environment's data is the plaintext its input was sealed from; on
    /// failure the error aborts the block, and no receipt is produced.
    pub fn begin_transaction(&self, tx: &Recovered) -> (r: Result<
        SeismicTransaction,
        BlockExecutionError,
    >)
        requires
            self.started,
            tx@.tx.wf(),
        ensures
            !(tx@.tx is Seismic) ==> (r matches Ok(env) && env@ == spec_build_tx_env(
                tx@.tx,
                tx@.signer,
            )),
            tx@.tx matches SeismicTxEnvelopeV::Seismic(s) ==> {
                &&& forall|p: Seq<u8>|
                    p.len() <= MAX_PLAINTEXT_LEN && s.tx.input == sealed_of(
                        sha256_of(s.tx.seismic_elements.encryption_pubkey),
                        s.tx.seismic_elements.encryption_nonce,
                        p,
                    ) ==> (r matches Ok(env) && env@ == spec_decrypted_env(tx@.tx, tx@.signer, p))
                &&& (r matches Ok(env) ==> {
                    &&& s.tx.input == sealed_of(
                        sha256_of(s.tx.seismic_elements.encryption_pubkey),
                        s.tx.seismic_elements.encryption_nonce,
                        env@.base.data,
                    )
                    &&& env@ == spec_decrypted_env(tx@.tx, tx@.signer, env@.base.data)
                })
                &&& (r matches Err(e) ==> e == BlockExecutionError::Internal(
                    EnclaveError::DecryptionFailure,
                ))
            },
            r is Err ==> tx@.tx is Seismic,
    {
        let mut env = SeismicTransaction::from_recovered_tx(&tx.tx, tx.signer.duplicate());
        match &tx.tx {
            SeismicTxEnvelope::Seismic(signed) => {
                let elements = &signed.tx.seismic_elements;
                match self.enclave_client.decrypt(
                    &signed.tx.input,
                    &elements.encryption_pubkey,
                    &elements.encryption_nonce,
                ) {
                    Ok(plaintext) => {
                        env.base.data = plaintext;
                        proof {
                            assert(env@ =~~= spec_decrypted_env(
                                tx@.tx,
                                tx@.signer,
                                env@.base.data,
                            ));
                        }
                        Ok(env)
                    },
                    Err(e) => Err(BlockExecutionError::Internal(e)),
                }
            },
            _ => Ok(env),
        }
    }

    /// Folds one engine result into the block: builds the receipt for the
    /// transaction, tagged with the transaction's own type, and accumulates
    /// its gas. Returns the gas the transaction used.
    pub fn commit_transaction(&mut self, tx: &Recovered, result: ExecutionResult) -> (gas: u64)
        requires
            old(self).wf(),
            old(self).started,
            old(self).cumulative_gas_used + result.gas_used <= u64::MAX,
        ensures
            gas == result.gas_used,
            final(self).wf(),
            final(self).started,
            final(self).cumulative_gas_used == old(self).cumulative_gas_used + result.gas_used,
            final(self).receipts@.len() == old(self).receipts@.len() + 1,
            final(self).receipts@.last()@ == spec_build_receipt(
                tx@.tx.spec_tx_type(),
                result@,
                (old(self).cumulative_gas_used + result.gas_used) as u64,
            ),
            final(self).receipts@.last()@.tag() == tx@.tx.spec_tx_type(),
            forall|k: int|
                0 <= k < old(self).receipts@.len() ==> final(self).receipts@[k] == old(
                    self,
                ).receipts@[k],
            final(self).chain_spec == old(self).chain_spec,
            final(self).enclave_client == old(self).enclave_client,
    {
        let gas: u64 = result.gas_used;
        let new_cumulative: u64 = self.cumulative_gas_used + gas;
        let receipt = self.receipt_builder.build_receipt(&tx.tx, result, new_cumulative);
        self.cumulative_gas_used = new_cumulative;
        self.receipts.push(receipt);
        gas
    }

    /// Finishes the block: consumes the executor and yields the accumulated
    /// receipts and total gas. The engine and its database go back to their
    /// owner separately.
    pub fn finish(self) -> (r: BlockExecutionResult)
        ensures
            r.receipts == self.receipts,
            r.gas_used == self.cumulative_gas_used,
    {
        BlockExecutionResult { receipts: self.receipts, gas_used: self.cumulative_gas_used }
    }
}

/// Factory for block executors: holds the chain-scoped collaborators and
/// wires a fresh key-management client into each executor.
pub struct SeismicBlockExecutorFactory {
    /// Receipt builder.
    pub receipt_builder: SeismicAlloyReceiptBuilder,
    /// Chain specification.
    pub chain_spec: SeismicChainHardforks,
    /// Execution-engine factory.
    pub evm_factory: SeismicEvmFactory,
    /// Key-management client builder.
    pub client_builder: EnclaveClientBuilder,
}

impl SeismicBlockExecutorFactory {
    /// Creates a new factory from its collaborators.
    pub fn new(
        receipt_builder: SeismicAlloyReceiptBuilder,
        chain_spec: SeismicChainHardforks,
        evm_factory: SeismicEvmFactory,
        client_builder: EnclaveClientBuilder,
    ) -> (r: SeismicBlockExecutorFactory)
        ensures
            r.receipt_builder == receipt_builder,
            r.chain_spec == chain_spec,
            r.evm_factory == evm_factory,
            r.client_builder == client_builder,
    {
        SeismicBlockExecutorFactory { receipt_builder, chain_spec, evm_factory, client_builder }
    }

    /// Exposes the receipt builder.
    pub fn receipt_builder(&self) -> (r: &SeismicAlloyReceiptBuilder)
        ensures
            r == self.receipt_builder,
    {
        &self.receipt_builder
    }

    /// Exposes the chain specification.
    pub fn chain_spec(&self) -> (r: &SeismicChainHardforks)
        ensures
            r == self.chain_spec,
    {
        &self.chain_spec
    }

    /// Exposes the execution-engine factory.
    pub fn evm_factory(&self) -> (r: &SeismicEvmFactory)
        ensures
            r == self.evm_factory,
    {
        &self.evm_factory
    }

    /// Exposes the key-management client builder.
    pub fn client_builder(&self) -> (r: &EnclaveClientBuilder)
        ensures
            r == self.client_builder,
    {
        &self.client_builder
    }

    /// Creates a block executor for one block, with a client built from the
    /// factory's client builder.
    pub fn create_executor(&self) -> (r: SeismicBlockExecutor)
        ensures
            !r.started,
            r.receipts@.len() == 0,
            r.cumulative_gas_used == 0,
            r.wf(),
            r.chain_spec.forks@ == self.chain_spec.forks@,
            r.enclave_client.rng_keypair@ == self.client_builder.rng_keypair@,
    {
        let enclave_client = self.client_builder.build();
        SeismicBlockExecutor::new(
            self.chain_spec.duplicate(),
            SeismicAlloyReceiptBuilder,
            enclave_client,
        )
    }
}

} // verus!
