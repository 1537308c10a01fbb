use seismic_evm::primitives::{Address, U256Val};
use seismic_evm::tx::{
    AccessItem, Authorization, EncryptionElements, FromRecoveredTx, IntoTxEnv, Recovered,
    RngMode, SeismicTransaction, SeismicTxEnvelope, SeismicTxType, Signed, TxEip1559, TxEip2930,
    TxEip7702, TxKind, TxLegacy, TxSeismic, EIP1559_TX_TYPE_ID, EIP2930_TX_TYPE_ID,
    EIP7702_TX_TYPE_ID, LEGACY_TX_TYPE_ID, SEISMIC_TX_TYPE_ID,
};

fn addr(byte: u8) -> Address {
    Address::from_bytes(vec![byte; 20])
}

fn value_of(lo: u128) -> U256Val {
    U256Val { hi: 0, lo }
}

#[test]
fn legacy_envelope_builds_neutral_defaults() {
    let tx = TxLegacy {
        chain_id: None,
        nonce: 3,
        gas_price: 9,
        gas_limit: 21000,
        to: TxKind::Call(addr(0xaa)),
        value: value_of(5),
        input: vec![1, 2, 3],
    };
    let envelope = SeismicTxEnvelope::Legacy(Signed { tx, hash: vec![7u8; 32] });
    let env = SeismicTransaction::from_recovered_tx(&envelope, addr(0x11));
    assert_eq!(env.base.tx_type, LEGACY_TX_TYPE_ID);
    assert_eq!(env.base.caller.bytes, vec![0x11; 20]);
    assert_eq!(env.base.gas_limit, 21000);
    assert_eq!(env.base.gas_price, 9);
    assert_eq!(env.base.nonce, 3);
    assert_eq!(env.base.chain_id, None);
    assert_eq!(env.base.data, vec![1, 2, 3]);
    assert!(env.base.access_list.is_empty());
    assert_eq!(env.base.gas_priority_fee, None);
    assert!(env.base.blob_hashes.is_empty());
    assert_eq!(env.base.max_fee_per_blob_gas, 0);
    assert!(env.base.authorization_list.is_empty());
    assert_eq!(env.tx_hash, vec![7u8; 32]);
    assert_eq!(env.rng_mode, RngMode::Execution);
}

#[test]
fn eip2930_envelope_carries_its_access_list() {
    let tx = TxEip2930 {
        chain_id: 5124,
        nonce: 1,
        gas_price: 11,
        gas_limit: 50000,
        to: TxKind::Create,
        value: value_of(0),
        access_list: vec![AccessItem { address: addr(0xbb), storage_keys: vec![vec![1u8; 32]] }],
        input: Vec::new(),
    };
    let envelope = SeismicTxEnvelope::Eip2930(Signed { tx, hash: vec![8u8; 32] });
    let env = SeismicTransaction::from_recovered_tx(&envelope, addr(0x22));
    assert_eq!(env.base.tx_type, EIP2930_TX_TYPE_ID);
    assert_eq!(env.base.chain_id, Some(5124));
    assert_eq!(env.base.gas_price, 11);
    // The access list is natively present on this variant and maps through.
    assert_eq!(env.base.access_list.len(), 1);
    assert_eq!(env.base.access_list[0].address.bytes, vec![0xbb; 20]);
    assert_eq!(env.base.access_list[0].storage_keys, vec![vec![1u8; 32]]);
    // A priority fee is not, and stays at its neutral value.
    assert_eq!(env.base.gas_priority_fee, None);
    assert!(matches!(env.base.kind, TxKind::Create));
}

#[test]
fn eip1559_envelope_maps_its_fee_fields() {
    let tx = TxEip1559 {
        chain_id: 5124,
        nonce: 2,
        gas_limit: 60000,
        max_fee_per_gas: 1000,
        max_priority_fee_per_gas: 10,
        to: TxKind::Call(addr(0xcc)),
        value: value_of(1),
        access_list: vec![AccessItem { address: addr(0xcd), storage_keys: Vec::new() }],
        input: vec![0xde, 0xad],
    };
    let envelope = SeismicTxEnvelope::Eip1559(Signed { tx, hash: vec![9u8; 32] });
    let env = SeismicTransaction::from_recovered_tx(&envelope, addr(0x33));
    assert_eq!(env.base.tx_type, EIP1559_TX_TYPE_ID);
    assert_eq!(env.base.gas_price, 1000);
    assert_eq!(env.base.gas_priority_fee, Some(10));
    assert_eq!(env.base.access_list.len(), 1);
    assert_eq!(env.base.access_list[0].address.bytes, vec![0xcd; 20]);
    assert_eq!(env.base.chain_id, Some(5124));
}

#[test]
fn eip7702_envelope_calls_its_destination() {
    let tx = TxEip7702 {
        chain_id: 5124,
        nonce: 4,
        gas_limit: 70000,
        max_fee_per_gas: 2000,
        max_priority_fee_per_gas: 20,
        to: addr(0xdd),
        value: value_of(2),
        access_list: Vec::new(),
        authorization_list: vec![Authorization { chain_id: 5124, address: addr(0xee), nonce: 0 }],
        input: Vec::new(),
    };
    let envelope = SeismicTxEnvelope::Eip7702(Signed { tx, hash: vec![10u8; 32] });
    let env = SeismicTransaction::from_recovered_tx(&envelope, addr(0x44));
    assert_eq!(env.base.tx_type, EIP7702_TX_TYPE_ID);
    match &env.base.kind {
        TxKind::Call(a) => assert_eq!(a.bytes, vec![0xdd; 20]),
        TxKind::Create => panic!("expected a call destination"),
    }
    // The authorization list is this variant's point, and maps through.
    assert_eq!(env.base.authorization_list.len(), 1);
    assert_eq!(env.base.authorization_list[0].chain_id, 5124);
    assert_eq!(env.base.authorization_list[0].address.bytes, vec![0xee; 20]);
    assert_eq!(env.base.gas_price, 2000);
    assert_eq!(env.base.gas_priority_fee, Some(20));
}

#[test]
fn seismic_envelope_keeps_its_ciphertext_input() {
    let tx = TxSeismic {
        chain_id: 5124,
        nonce: 0,
        gas_price: 1000000000,
        gas_limit: 1000000,
        to: TxKind::Call(addr(0)),
        value: value_of(0),
        input: vec![0x5e; 40],
        seismic_elements: EncryptionElements {
            encryption_pubkey: vec![2u8; 33],
            encryption_nonce: vec![0u8; 12],
            message_version: 0,
        },
    };
    let envelope = SeismicTxEnvelope::Seismic(Signed { tx, hash: vec![11u8; 32] });
    assert_eq!(envelope.tx_type(), SeismicTxType::Seismic);
    let env = SeismicTransaction::from_recovered_tx(&envelope, addr(0x55));
    assert_eq!(env.base.tx_type, SEISMIC_TX_TYPE_ID);
    assert_eq!(env.base.tx_type, 74);
    assert_eq!(env.base.data, vec![0x5e; 40]);
    assert_eq!(env.base.gas_price, 1000000000);
}

#[test]
fn recovered_transaction_converts_into_its_environment() {
    let tx = TxLegacy {
        chain_id: Some(1),
        nonce: 0,
        gas_price: 1,
        gas_limit: 21000,
        to: TxKind::Create,
        value: value_of(0),
        input: Vec::new(),
    };
    let envelope = SeismicTxEnvelope::Legacy(Signed { tx, hash: vec![1u8; 32] });
    let recovered = Recovered { tx: envelope, signer: addr(0x66) };
    let env = recovered.into_tx_env();
    assert_eq!(env.base.tx_type, LEGACY_TX_TYPE_ID);
    assert_eq!(env.base.caller.bytes, vec![0x66; 20]);
    assert_eq!(env.base.chain_id, Some(1));
    let env2 = env.into_tx_env();
    assert_eq!(env2.base.caller.bytes, vec![0x66; 20]);
}

#[test]
fn simulation_mode_is_an_explicit_override() {
    let tx = TxLegacy {
        chain_id: None,
        nonce: 0,
        gas_price: 1,
        gas_limit: 21000,
        to: TxKind::Create,
        value: value_of(0),
        input: Vec::new(),
    };
    let envelope = SeismicTxEnvelope::Legacy(Signed { tx, hash: vec![1u8; 32] });
    let env = SeismicTransaction::from_recovered_tx(&envelope, addr(0x10));
    assert_eq!(env.rng_mode, RngMode::Execution);
    let sim = env.with_rng_mode(RngMode::Simulation);
    assert_eq!(sim.rng_mode, RngMode::Simulation);
    assert_eq!(sim.base.gas_limit, 21000);
}
