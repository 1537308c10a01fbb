//! Execution-engine factory concerns: randomness key material fetched once
//! and cached for the factory's lifetime, and the synthesis of protocol-level
//! system calls with their configuration override and state-delta cleanup.

use vstd::prelude::*;

use crate::enclave::{EnclaveClient, EnclaveClientBuilder, KeyMaterial};
use crate::primitives::{Address, U256Val};
use crate::tx::{RngMode, SeismicTransaction, SeismicTransactionV, TxEnv, TxEnvV, TxKind, TxKindV};

verus! {

/// Gas limit a synthesized system call runs under: high enough to guarantee
/// completion.
pub const SYSTEM_CALL_GAS_LIMIT: u64 = 30000000;

/// Factory producing execution engines wired with a pre-fetched randomness
/// keypair. The key material is fetched once, at factory creation, and only
/// read afterwards; engines built without a key still work but cannot
/// satisfy randomness-dependent opcodes.
pub struct SeismicEvmFactory {
    /// The cached live randomness keypair, if one could be fetched.
    pub live_rng_key: Option<KeyMaterial>,
}

impl Default for SeismicEvmFactory {
    /// A factory with no live randomness keypair.
    fn default() -> (r: SeismicEvmFactory)
        ensures
            r.live_rng_key is None,
    {
        SeismicEvmFactory::new_with_rng_key(None)
    }
}

impl SeismicEvmFactory {
    /// Creates a factory with a pre-fetched randomness keypair. This is the
    /// preferred constructor when the key is managed at a higher level.
    pub fn new_with_rng_key(live_rng_key: Option<KeyMaterial>) -> (r: SeismicEvmFactory)
        ensures
            r.live_rng_key == live_rng_key,
    {
        SeismicEvmFactory { live_rng_key }
    }

    /// Creates a factory from a key-management client builder, fetching the
    /// randomness keypair through a fresh client.
    pub fn new(enclave_client_builder: &EnclaveClientBuilder) -> (r: SeismicEvmFactory)
        ensures
            r.live_rng_key matches Some(k) && k@ == enclave_client_builder.rng_keypair@,
    {
        let enclave_client = enclave_client_builder.build();
        let live_rng_key = Self::get_live_rng_key_from_enclave_client(&enclave_client);
        Self::new_with_rng_key(live_rng_key)
    }

    /// Fetches the live randomness keypair from a key-management client;
    /// `None` when the service cannot provide it, so that block production
    /// degrades rather than fails.
    fn get_live_rng_key_from_enclave_client(enclave_client: &EnclaveClient) -> (r: Option<
        KeyMaterial,
    >)
        ensures
            r matches Some(k) && k@ == enclave_client.rng_keypair@,
    {
        match enclave_client.get_purpose_keys(0) {
            Ok(response) => Some(response),
            Err(_) => None,
        }
    }

    /// The randomness keypair an engine created now would run with: an
    /// explicitly supplied keypair wins; otherwise the factory's cached live
    /// key is used; with neither, the engine runs without a key.
    pub fn effective_rng_key(&self, rng_keypair: Option<KeyMaterial>) -> (r: Option<KeyMaterial>)
        ensures
            rng_keypair matches Some(k) ==> (r matches Some(v) && v@ == k@),
            rng_keypair is None ==> (self.live_rng_key matches Some(k) ==> (r matches Some(v) && v@
                == k@)),
            rng_keypair is None && self.live_rng_key is None ==> r is None,
    {
        match rng_keypair {
            Some(k) => Some(k),
            None => match &self.live_rng_key {
                Some(k) => Some(k.duplicate()),
                None => None,
            },
        }
    }
}

/// The chain configuration fields a system call temporarily overrides.
#[derive(Clone, Copy, PartialEq, Eq, Structural, Debug)]
pub struct ChainConfig {
    /// The block gas limit.
    pub block_gas_limit: u64,
    /// The block base fee.
    pub basefee: u64,
    /// Whether nonce checking is disabled.
    pub disable_nonce_check: bool,
}

/// The transaction a synthesized system call runs as: fixed neutral
/// parameters so that its only observable effect is the call itself.
pub open spec fn spec_system_call_env(
    caller: Seq<u8>,
    contract: Seq<u8>,
    data: Seq<u8>,
) -> SeismicTransactionV {
    SeismicTransactionV {
        base: TxEnvV {
            tx_type: 0,
            caller: caller,
            gas_limit: SYSTEM_CALL_GAS_LIMIT,
            gas_price: 0,
            kind: TxKindV::Call(contract),
            value: U256Val { hi: 0, lo: 0 },
            data: data,
            nonce: 0,
            chain_id: None,
            access_list: Seq::empty(),
            gas_priority_fee: None,
            blob_hashes: Seq::empty(),
            max_fee_per_blob_gas: 0,
            authorization_list: Seq::empty(),
        },
        tx_hash: Seq::new(32, |i: int| 0u8),
        rng_mode: RngMode::Execution,
    }
}

/// Synthesizes the internal system-call transaction for a protocol hook:
/// nonce zero so no nonce check applies, zero gas price and value so nothing
/// is transferred or charged against the block, and a gas limit high enough
/// to complete.
pub fn system_call_env(caller: Address, contract: Address, data: Vec<u8>) -> (r:
    SeismicTransaction)
    ensures
        r@ == spec_system_call_env(caller@, contract@, data@),
{
    let mut tx_hash: Vec<u8> = Vec::new();
    for i in 0..32usize
        invariant
            tx_hash@ == Seq::new(i as nat, |j: int| 0u8),
    {
        tx_hash.push(0u8);
        proof {
            assert(tx_hash@ =~= Seq::new((i + 1) as nat, |j: int| 0u8));
        }
    }
    let r = SeismicTransaction {
        base: TxEnv {
            tx_type: 0,
            caller,
            gas_limit: SYSTEM_CALL_GAS_LIMIT,
            gas_price: 0,
            kind: TxKind::Call(contract),
            value: U256Val { hi: 0, lo: 0 },
            data,
            nonce: 0,
            chain_id: None,
            access_list: Vec::new(),
            gas_priority_fee: None,
            blob_hashes: Vec::new(),
            max_fee_per_blob_gas: 0,
            authorization_list: Vec::new(),
        },
        tx_hash,
        rng_mode: RngMode::Execution,
    };
    proof {
        assert(r@ =~~= spec_system_call_env(caller@, contract@, data@));
    }
    r
}

/// Overrides the chain configuration for the duration of a system call:
/// block gas limit raised to the call's gas limit, base fee forced to zero,
/// nonce checking disabled. Returns the configuration to restore afterwards.
pub fn apply_system_call_overrides(cfg: &mut ChainConfig, tx_gas_limit: u64) -> (saved:
    ChainConfig)
    ensures
        saved == *old(cfg),
        *final(cfg) == (ChainConfig {
            block_gas_limit: tx_gas_limit,
            basefee: 0,
            disable_nonce_check: true,
        }),
{
    let saved = *cfg;
    cfg.block_gas_limit = tx_gas_limit;
    cfg.basefee = 0;
    cfg.disable_nonce_check = true;
    saved
}

/// Restores a configuration saved before a system call. Paired with
/// [`apply_system_call_overrides`] the configuration after the call is
/// bit-identical to the one before it, whether or not the call succeeded.
pub fn restore_chain_config(cfg: &mut ChainConfig, saved: ChainConfig)
    ensures
        *final(cfg) == saved,
{
    *cfg = saved;
}

/// One storage slot of an account's state delta.
#[derive(Clone, Copy, PartialEq, Eq, Structural, Debug)]
pub struct StorageSlot {
    pub key: U256Val,
    pub value: U256Val,
}

/// The state delta the engine reports for one account.
pub struct AccountDelta {
    /// Storage slots changed for the account.
    pub storage: Vec<StorageSlot>,
}

/// One account's entry in a state delta.
pub struct StateEntry {
    pub address: Address,
    pub delta: AccountDelta,
}

/// Mathematical image of a [`StateEntry`].
#[verifier::ext_equal]
pub ghost struct StateEntryV {
    pub address: Seq<u8>,
    pub storage: Seq<StorageSlot>,
}

impl View for StateEntry {
    type V = StateEntryV;

    open spec fn view(&self) -> StateEntryV {
        StateEntryV { address: self.address@, storage: self.delta.storage@ }
    }
}

/// The entries of a state delta whose address is the target contract, in
/// order.
pub open spec fn retain_target(state: Seq<StateEntryV>, target: Seq<u8>) -> Seq<StateEntryV>
    decreases state.len(),
{
    if state.len() == 0 {
        Seq::empty()
    } else if state[0].address == target {
        seq![state[0]] + retain_target(state.drop_first(), target)
    } else {
        retain_target(state.drop_first(), target)
    }
}

/// Every entry retained for a target carries the target's address.
pub proof fn lemma_retain_only_target(state: Seq<StateEntryV>, target: Seq<u8>)
    ensures
        forall|k: int|
            0 <= k < retain_target(state, target).len() ==> retain_target(state, target)[k].address
                == target,
    decreases state.len(),
{
    if state.len() > 0 {
        lemma_retain_only_target(state.drop_first(), target);
        let rest = retain_target(state.drop_first(), target);
        if state[0].address == target {
            assert forall|k: int|
                0 <= k < retain_target(state, target).len() implies retain_target(
                state,
                target,
            )[k].address == target by {
                if k > 0 {
                    assert(retain_target(state, target)[k] == rest[k - 1]);
                }
            };
        }
    }
}

/// After the state delta of a synthesized system call is filtered to its
/// target contract, it holds no entry for any other address; in particular
/// the caller and block-beneficiary accounts the engine touched incidentally
/// are gone.
pub proof fn lemma_system_call_isolation(state: Seq<StateEntryV>, target: Seq<u8>, other: Seq<u8>)
    requires
        other != target,
    ensures
        forall|k: int|
            0 <= k < retain_target(state, target).len() ==> retain_target(state, target)[k].address
                == target,
        forall|k: int|
            0 <= k < retain_target(state, target).len() ==> retain_target(state, target)[k].address
                != other,
{
    lemma_retain_only_target(state, target);
}

/// Filters a system call's state delta down to the entries of the target
/// contract, discarding the caller and beneficiary markers the engine
/// produces incidentally.
pub fn retain_target_entries(state: &mut Vec<StateEntry>, target: &Address)
    ensures
        final(state)@.map_values(|e: StateEntry| e@) == retain_target(
            old(state)@.map_values(|e: StateEntry| e@),
            target@,
        ),
{
    let ghost orig = state@.map_values(|e: StateEntry| e@);
    let mut work: Vec<StateEntry> = Vec::new();
    std::mem::swap(state, &mut work);
    let mut kept: Vec<StateEntry> = Vec::new();
    proof {
        assert(work@.map_values(|e: StateEntry| e@) =~= orig);
        assert(kept@.map_values(|e: StateEntry| e@) =~= Seq::<StateEntryV>::empty());
    }
    while work.len() > 0
        invariant
            retain_target(orig, target@) == kept@.map_values(|e: StateEntry| e@) + retain_target(
                work@.map_values(|e: StateEntry| e@),
                target@,
            ),
        decreases work@.len(),
    {
        let ghost work_v = work@.map_values(|e: StateEntry| e@);
        let ghost kept_v = kept@.map_values(|e: StateEntry| e@);
        let entry = work.remove(0);
        proof {
            assert(work@.map_values(|e: StateEntry| e@) =~= work_v.drop_first());
            assert(work_v[0] == entry@);
        }
        if entry.address.matches(target) {
            kept.push(entry);
            proof {
                assert(kept@.map_values(|e: StateEntry| e@) =~= kept_v.push(entry@));
                assert(retain_target(work_v, target@) == seq![entry@] + retain_target(
                    work_v.drop_first(),
                    target@,
                ));
                assert(kept_v + retain_target(work_v, target@) =~= kept_v.push(entry@)
                    + retain_target(work_v.drop_first(), target@));
            }
        } else {
            proof {
                assert(retain_target(work_v, target@) == retain_target(
                    work_v.drop_first(),
                    target@,
                ));
            }
        }
    }
    std::mem::swap(state, &mut kept);
    proof {
        assert(work@.map_values(|e: StateEntry| e@) =~= Seq::<StateEntryV>::empty());
        assert(retain_target(Seq::<StateEntryV>::empty(), target@) =~= Seq::<
            StateEntryV,
        >::empty());
    }
}

} // verus!
