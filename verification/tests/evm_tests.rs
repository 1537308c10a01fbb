use seismic_evm::enclave::EnclaveClientBuilder;
use seismic_evm::evm::{
    apply_system_call_overrides, restore_chain_config, retain_target_entries, system_call_env,
    AccountDelta, ChainConfig, SeismicEvmFactory, StateEntry, StorageSlot,
    SYSTEM_CALL_GAS_LIMIT,
};
use seismic_evm::primitives::{Address, U256Val};
use seismic_evm::tx::{RngMode, TxKind};

fn addr(byte: u8) -> Address {
    Address::from_bytes(vec![byte; 20])
}

fn entry(byte: u8, slots: usize) -> StateEntry {
    StateEntry {
        address: addr(byte),
        delta: AccountDelta {
            storage: vec![
                StorageSlot {
                    key: U256Val { hi: 0, lo: 1 },
                    value: U256Val { hi: 0, lo: 2 },
                };
                slots
            ],
        },
    }
}

#[test]
fn system_call_env_has_fixed_neutral_parameters() {
    let env = system_call_env(addr(0x01), addr(0x02), vec![0xca, 0xfe]);
    assert_eq!(env.base.nonce, 0);
    assert_eq!(env.base.gas_price, 0);
    assert_eq!(env.base.gas_limit, SYSTEM_CALL_GAS_LIMIT);
    assert_eq!(env.base.gas_limit, 30000000);
    assert_eq!(env.base.value, U256Val { hi: 0, lo: 0 });
    assert_eq!(env.base.chain_id, None);
    assert_eq!(env.base.gas_priority_fee, None);
    assert_eq!(env.base.tx_type, 0);
    assert_eq!(env.base.data, vec![0xca, 0xfe]);
    match &env.base.kind {
        TxKind::Call(a) => assert_eq!(a.bytes, vec![0x02; 20]),
        TxKind::Create => panic!("a system call targets a contract"),
    }
    assert_eq!(env.tx_hash, vec![0u8; 32]);
    assert_eq!(env.rng_mode, RngMode::Execution);
}

#[test]
fn chain_config_is_bit_identical_after_restore() {
    let original = ChainConfig { block_gas_limit: 5000, basefee: 7, disable_nonce_check: false };
    let mut cfg = original;
    let saved = apply_system_call_overrides(&mut cfg, SYSTEM_CALL_GAS_LIMIT);
    assert_eq!(cfg.block_gas_limit, SYSTEM_CALL_GAS_LIMIT);
    assert_eq!(cfg.basefee, 0);
    assert!(cfg.disable_nonce_check);
    restore_chain_config(&mut cfg, saved);
    assert_eq!(cfg, original);
}

#[test]
fn system_call_state_keeps_only_the_target_contract() {
    let contract = addr(0x02);
    let caller = addr(0x01);
    let beneficiary = addr(0x03);
    let mut state = vec![
        StateEntry { address: caller, delta: AccountDelta { storage: Vec::new() } },
        entry(0x02, 2),
        StateEntry { address: beneficiary, delta: AccountDelta { storage: Vec::new() } },
        entry(0x02, 1),
    ];
    retain_target_entries(&mut state, &contract);
    assert_eq!(state.len(), 2);
    for e in &state {
        assert_eq!(e.address.bytes, vec![0x02; 20]);
    }
    assert_eq!(state[0].delta.storage.len(), 2);
    assert_eq!(state[1].delta.storage.len(), 1);
}

#[test]
fn factory_caches_the_fetched_rng_key() {
    let builder = EnclaveClientBuilder::new();
    let factory = SeismicEvmFactory::new(&builder);
    let live = factory.live_rng_key.as_ref().expect("key material should be fetched");
    assert_eq!(live.bytes.len(), 96);
    assert_eq!(live.bytes, builder.rng_keypair.bytes);
}

#[test]
fn engine_key_selection_prefers_an_explicit_keypair() {
    let builder = EnclaveClientBuilder::new();
    let factory = SeismicEvmFactory::new(&builder);
    let cached = factory.live_rng_key.as_ref().unwrap().duplicate();

    let explicit = seismic_evm::enclave::KeyMaterial { bytes: vec![1u8; 96] };
    let chosen = factory.effective_rng_key(Some(explicit)).unwrap();
    assert_eq!(chosen.bytes, vec![1u8; 96]);

    let fallback = factory.effective_rng_key(None).unwrap();
    assert_eq!(fallback.bytes, cached.bytes);

    let bare = SeismicEvmFactory::default();
    assert!(bare.live_rng_key.is_none());
    assert!(bare.effective_rng_key(None).is_none());
}
