use seismic_evm::block::{BlockExecutionError, SeismicBlockExecutor, SeismicBlockExecutorFactory};
use seismic_evm::enclave::{EnclaveClientBuilder, EnclaveError};
use seismic_evm::evm::SeismicEvmFactory;
use seismic_evm::hardfork::SeismicChainHardforks;
use seismic_evm::primitives::{Address, Log, U256Val};
use seismic_evm::receipt_builder::{SeismicAlloyReceiptBuilder, SeismicReceiptEnvelope};
use seismic_evm::tx::{
    EncryptionElements, ExecutionResult, Recovered, SeismicTxEnvelope, SeismicTxType, Signed,
    TxKind, TxLegacy, TxSeismic,
};

struct Setup {
    builder: EnclaveClientBuilder,
    executor: SeismicBlockExecutor,
    encryption_pubkey: Vec<u8>,
    encryption_nonce: Vec<u8>,
    signer: Address,
}

fn setup() -> Setup {
    let builder = EnclaveClientBuilder::new();
    let factory = SeismicBlockExecutorFactory::new(
        SeismicAlloyReceiptBuilder::default(),
        SeismicChainHardforks::seismic_mainnet(),
        SeismicEvmFactory::new(&builder),
        builder.duplicate(),
    );
    let mut executor = factory.create_executor();
    executor.apply_pre_execution_changes().unwrap();
    Setup {
        builder,
        executor,
        encryption_pubkey: vec![2u8; 33],
        encryption_nonce: (100u8..112u8).collect(),
        signer: Address::from_bytes(vec![0x42; 20]),
    }
}

fn sample_seismic_tx(setup: &Setup, plaintext: &str) -> TxSeismic {
    let ciphertext = setup.builder.build().encrypt(
        &setup.encryption_pubkey,
        &plaintext.as_bytes().to_vec(),
        &setup.encryption_nonce,
    );
    TxSeismic {
        chain_id: 5124,
        nonce: 0,
        gas_price: 1000000000,
        gas_limit: 1000000,
        to: TxKind::Call(Address::zero()),
        value: U256Val { hi: 0, lo: 0 },
        input: ciphertext,
        seismic_elements: EncryptionElements {
            encryption_pubkey: setup.encryption_pubkey.clone(),
            encryption_nonce: setup.encryption_nonce.clone(),
            message_version: 0,
        },
    }
}

fn success_result(gas_used: u64) -> ExecutionResult {
    ExecutionResult { success: true, gas_used, logs: Vec::new(), output: Vec::new() }
}

#[test]
fn test_transaction_decryption_in_executor() {
    let mut setup = setup();
    let plaintext = "hello world";
    let tx_seismic = sample_seismic_tx(&setup, plaintext);
    let tx_envelope = SeismicTxEnvelope::Seismic(Signed { tx: tx_seismic, hash: vec![0u8; 32] });
    let recovered = Recovered { tx: tx_envelope, signer: setup.signer };

    let env = setup.executor.begin_transaction(&recovered).unwrap();
    // The decrypted input reaches the engine.
    assert_eq!(env.base.data, plaintext.as_bytes().to_vec());

    let gas = setup.executor.commit_transaction(&recovered, success_result(21000));
    assert_eq!(gas, 21000);
    let result = setup.executor.finish();
    assert_eq!(result.receipts.len(), 1);
    assert_eq!(result.gas_used, 21000);
    assert_eq!(result.receipts[0].tag(), SeismicTxType::Seismic);
    assert!(result.receipts[0].inner().receipt.status);
}

#[test]
fn test_incorrect_encryption() {
    let setup = setup();
    let plaintext = "hello world";
    let mut tx_seismic = sample_seismic_tx(&setup, plaintext);

    let wrong_pubkey = vec![3u8; 33];
    tx_seismic.seismic_elements.encryption_pubkey = wrong_pubkey;
    let tx_envelope = SeismicTxEnvelope::Seismic(Signed { tx: tx_seismic, hash: vec![0u8; 32] });
    let recovered = Recovered { tx: tx_envelope, signer: setup.signer };

    let result = setup.executor.begin_transaction(&recovered);
    assert!(result.is_err(), "expected transaction to fail");
    assert_eq!(
        result.err(),
        Some(BlockExecutionError::Internal(EnclaveError::DecryptionFailure))
    );
    // No receipt is produced for the failed transaction.
    let outcome = setup.executor.finish();
    assert_eq!(outcome.receipts.len(), 0);
    assert_eq!(outcome.gas_used, 0);
}

#[test]
fn non_confidential_transaction_passes_through() {
    let mut setup = setup();
    let tx = TxLegacy {
        chain_id: Some(5124),
        nonce: 0,
        gas_price: 7,
        gas_limit: 21000,
        to: TxKind::Create,
        value: U256Val { hi: 0, lo: 0 },
        input: vec![0xab, 0xcd],
    };
    let envelope = SeismicTxEnvelope::Legacy(Signed { tx, hash: vec![1u8; 32] });
    let recovered = Recovered { tx: envelope, signer: setup.signer };
    let env = setup.executor.begin_transaction(&recovered).unwrap();
    // The input is not treated as a ciphertext.
    assert_eq!(env.base.data, vec![0xab, 0xcd]);
    setup.executor.commit_transaction(&recovered, success_result(21000));
    let outcome = setup.executor.finish();
    assert_eq!(outcome.receipts[0].tag(), SeismicTxType::Legacy);
}

#[test]
fn gas_accumulates_across_transactions() {
    let mut setup = setup();
    let tx = TxLegacy {
        chain_id: Some(5124),
        nonce: 0,
        gas_price: 7,
        gas_limit: 30000,
        to: TxKind::Create,
        value: U256Val { hi: 0, lo: 0 },
        input: Vec::new(),
    };
    let envelope = SeismicTxEnvelope::Legacy(Signed { tx, hash: vec![1u8; 32] });
    let recovered = Recovered { tx: envelope, signer: setup.signer };
    setup.executor.begin_transaction(&recovered).unwrap();
    setup.executor.commit_transaction(&recovered, success_result(21000));
    setup.executor.begin_transaction(&recovered).unwrap();
    setup.executor.commit_transaction(&recovered, success_result(9000));
    let outcome = setup.executor.finish();
    assert_eq!(outcome.gas_used, 30000);
    assert_eq!(outcome.receipts.len(), 2);
    assert_eq!(outcome.receipts[0].inner().receipt.cumulative_gas_used, 21000);
    assert_eq!(outcome.receipts[1].inner().receipt.cumulative_gas_used, 30000);
}

#[test]
fn failed_execution_produces_failed_receipt() {
    let mut setup = setup();
    let tx = TxLegacy {
        chain_id: Some(5124),
        nonce: 0,
        gas_price: 7,
        gas_limit: 21000,
        to: TxKind::Create,
        value: U256Val { hi: 0, lo: 0 },
        input: Vec::new(),
    };
    let envelope = SeismicTxEnvelope::Legacy(Signed { tx, hash: vec![1u8; 32] });
    let recovered = Recovered { tx: envelope, signer: setup.signer };
    setup.executor.begin_transaction(&recovered).unwrap();
    let result = ExecutionResult {
        success: false,
        gas_used: 21000,
        logs: Vec::new(),
        output: Vec::new(),
    };
    setup.executor.commit_transaction(&recovered, result);
    let outcome = setup.executor.finish();
    assert!(!outcome.receipts[0].inner().receipt.status);
}

#[test]
fn receipt_logs_and_bloom_carry_through_executor() {
    let mut setup = setup();
    let tx = TxLegacy {
        chain_id: Some(5124),
        nonce: 0,
        gas_price: 7,
        gas_limit: 21000,
        to: TxKind::Create,
        value: U256Val { hi: 0, lo: 0 },
        input: Vec::new(),
    };
    let envelope = SeismicTxEnvelope::Legacy(Signed { tx, hash: vec![1u8; 32] });
    let recovered = Recovered { tx: envelope, signer: setup.signer };
    setup.executor.begin_transaction(&recovered).unwrap();
    let log = Log {
        address: Address::from_bytes(vec![0x99; 20]),
        topics: vec![vec![4u8; 32]],
        data: vec![1, 2],
    };
    let result = ExecutionResult {
        success: true,
        gas_used: 21000,
        logs: vec![log],
        output: Vec::new(),
    };
    setup.executor.commit_transaction(&recovered, result);
    let outcome = setup.executor.finish();
    let inner = match &outcome.receipts[0] {
        SeismicReceiptEnvelope::Legacy(inner) => inner,
        _ => panic!("expected a legacy receipt"),
    };
    assert_eq!(inner.receipt.logs.len(), 1);
    assert_eq!(inner.receipt.logs[0].data, vec![1, 2]);
    assert_eq!(inner.logs_bloom.len(), 256);
    // A log sets bits in the bloom.
    assert!(inner.logs_bloom.iter().any(|b| *b != 0));
}
