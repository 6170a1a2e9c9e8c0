use btc_anchoring::chain::{build_proposal, BuildError, ChainOutput, Proposal};
use btc_anchoring::config::{AnchoringConfig, ConfigError, FundingTx};
use btc_anchoring::keys::{renew_address, KeyRing, PrivateKey};
use btc_anchoring::network::{btc_network_from_str, btc_network_to_str, Network, NetworkError};
use btc_anchoring::scheduler::{schedule, ScheduleDecision};
use btc_anchoring::script::{derive_address, redeem_script_from_pubkeys, DerivationError, PublicKey};
use btc_anchoring::service::{BtcAnchoringService, BTC_ANCHORING_SERVICE_ID};
use btc_anchoring::signing::{sign_input, SigningError};
use btc_anchoring::signatures::{
    SignError, SignatureCollection, SignatureError, SignatureRecord, SignerLog,
};
use btc_anchoring::state::{actual_state, AnchoringState, StateError};

fn key(tag: u8) -> PublicKey {
    let mut bytes = [tag; 33];
    bytes[0] = 2;
    PublicKey { bytes }
}

fn keys(tags: &[u8]) -> Vec<PublicKey> {
    tags.iter().map(|t| key(*t)).collect()
}

fn funding() -> FundingTx {
    FundingTx { txid: [7u8; 32], output_index: 1, value: 100_000 }
}

fn config(tags: &[u8]) -> AnchoringConfig {
    AnchoringConfig::new_with_funding_tx(Network::Testnet, keys(tags), funding())
}

#[test]
fn majority_count_is_two_thirds_plus_one() {
    let expected = [(1usize, 1u8), (2, 2), (3, 3), (4, 3), (5, 4), (6, 5), (7, 5), (10, 7)];
    for (n, m) in expected {
        let tags: Vec<u8> = (0..n as u8).collect();
        let cfg = config(&tags);
        let r = cfg.majority_count();
        assert_eq!(r, m);
        assert!(1 <= r as usize && r as usize <= n);
    }
}

#[test]
fn latest_anchoring_height_scenario() {
    let cfg = AnchoringConfig { frequency: 500, ..config(&[1]) };
    assert_eq!(cfg.latest_anchoring_height(1200), 1000);
}

#[test]
fn latest_anchoring_height_is_a_multiple_not_above() {
    let cfg = AnchoringConfig { frequency: 7, ..config(&[1]) };
    for h in [0u64, 1, 6, 7, 8, 13, 14, 100, u64::MAX] {
        let r = cfg.latest_anchoring_height(h);
        assert_eq!(r % 7, 0);
        assert!(r <= h);
        assert!(h - r < 7);
    }
    assert_eq!(cfg.latest_anchoring_height(20), 14);
}

#[test]
fn missing_funding_transaction() {
    let cfg = AnchoringConfig { funding_tx: None, ..config(&[1, 2, 3, 4]) };
    assert_eq!(cfg.funding_tx().unwrap_err(), ConfigError::MissingFundingTransaction);
    let funded = config(&[1, 2, 3, 4]);
    assert_eq!(funded.funding_tx().unwrap().value, 100_000);
}

#[test]
fn bootstrap_configuration() {
    let pk1 = key(9);
    let cfg = AnchoringConfig::new(Network::Testnet, pk1);
    assert_eq!(cfg.validators.len(), 1);
    assert_eq!(cfg.validators[0].bytes, pk1.bytes);
    assert_eq!(cfg.majority_count(), 1);
    assert!(cfg.funding_tx.is_none());
    assert_eq!(cfg.fee, 1000);
    assert_eq!(cfg.frequency, 500);
    assert_eq!(cfg.utxo_confirmations, 5);
    assert_eq!(cfg.network, Network::Testnet);
}

#[test]
fn default_configuration() {
    let cfg = AnchoringConfig::default();
    assert!(cfg.validators.is_empty());
    assert!(cfg.funding_tx.is_none());
    assert_eq!((cfg.fee, cfg.frequency, cfg.utxo_confirmations), (1000, 500, 5));
    assert_eq!(cfg.network, Network::Testnet);
    assert_eq!(cfg.validate(), Err(ConfigError::EmptyValidatorSet));
}

#[test]
fn validation_errors() {
    assert_eq!(config(&[1, 2]).validate(), Ok(()));
    let zero = AnchoringConfig { frequency: 0, ..config(&[1, 2]) };
    assert_eq!(zero.validate(), Err(ConfigError::ZeroFrequency));
    let many = AnchoringConfig { validators: vec![key(1); 256], ..config(&[1]) };
    assert_eq!(many.validate(), Err(ConfigError::TooManyValidators));
}

#[test]
fn network_literals() {
    assert_eq!(btc_network_to_str(Network::Bitcoin), "bitcoin");
    assert_eq!(btc_network_to_str(Network::Testnet), "testnet");
    assert_eq!(btc_network_from_str("bitcoin"), Ok(Network::Bitcoin));
    assert_eq!(btc_network_from_str("testnet"), Ok(Network::Testnet));
    assert_eq!(btc_network_from_str("regtest"), Err(NetworkError::InvalidNetworkLiteral));
    assert_eq!(btc_network_from_str("Bitcoin"), Err(NetworkError::InvalidNetworkLiteral));
    assert_eq!(btc_network_from_str(""), Err(NetworkError::InvalidNetworkLiteral));
}

#[test]
fn redeem_script_layout() {
    let ks = keys(&[1, 2]);
    let script = redeem_script_from_pubkeys(&ks, 2).unwrap();
    let mut expected = vec![0x52u8, 33];
    expected.extend_from_slice(&ks[0].bytes);
    expected.push(33);
    expected.extend_from_slice(&ks[1].bytes);
    expected.extend_from_slice(&[0x52, 0xae]);
    assert_eq!(script, expected);
}

#[test]
fn redeem_script_large_counts() {
    let tags: Vec<u8> = (0..20).collect();
    let script = redeem_script_from_pubkeys(&keys(&tags), 17).unwrap();
    assert_eq!(&script[..3], &[1, 17, 33]);
    assert_eq!(&script[script.len() - 3..], &[1, 20, 0xae]);
    assert_eq!(script.len(), 2 + 20 * 34 + 2 + 1);
    let tags: Vec<u8> = (0..200).collect();
    let script = redeem_script_from_pubkeys(&keys(&tags), 134).unwrap();
    assert_eq!(&script[..3], &[2, 134, 0]);
    assert_eq!(&script[script.len() - 4..], &[2, 200, 0, 0xae]);
}

#[test]
fn derivation_errors() {
    assert_eq!(redeem_script_from_pubkeys(&vec![], 1), Err(DerivationError::EmptyKeySet));
    assert_eq!(redeem_script_from_pubkeys(&vec![], 0), Err(DerivationError::EmptyKeySet));
    assert_eq!(redeem_script_from_pubkeys(&keys(&[1, 2]), 0), Err(DerivationError::InvalidThreshold));
    assert_eq!(redeem_script_from_pubkeys(&keys(&[1, 2]), 3), Err(DerivationError::InvalidThreshold));
}

#[test]
fn derivation_is_deterministic_and_key_sensitive() {
    let (s1, a1) = config(&[1, 2, 3]).redeem_script().unwrap();
    let (s2, a2) = config(&[1, 2, 3]).redeem_script().unwrap();
    assert_eq!(s1, s2);
    assert_eq!(a1, a2);
    let (s3, a3) = config(&[1, 2, 4]).redeem_script().unwrap();
    assert_ne!(s1, s3);
    assert_ne!(a1, a3);
}

#[test]
fn addresses_are_witness_script_addresses() {
    let ks = keys(&[1, 2, 3]);
    let (script, testnet) = derive_address(&ks, 3, Network::Testnet).unwrap();
    let (script2, mainnet) = derive_address(&ks, 3, Network::Bitcoin).unwrap();
    assert_eq!(script, script2);
    assert!(testnet.starts_with("tb1q"));
    assert!(mainnet.starts_with("bc1q"));
    assert_eq!(testnet.len(), 62);
    assert_eq!(mainnet.len(), 62);
    assert_ne!(testnet.as_bytes(), &script[..]);
}

#[test]
fn transition_resolves_after_payment_to_following_address() {
    let abc = config(&[1, 2, 3]);
    let abcd = config(&[1, 2, 3, 4]);
    let (old_script, _) = abc.redeem_script().unwrap();
    let (new_script, _) = abcd.redeem_script().unwrap();
    let epochs = vec![abc, abcd];
    assert_eq!(
        actual_state(&epochs, Some(&old_script)),
        Ok(AnchoringState::Transition { actual_configuration: 0, following_configuration: 1 })
    );
    assert_eq!(actual_state(&epochs, Some(&new_script)), Ok(AnchoringState::Actual { configuration: 1 }));
    assert_eq!(actual_state(&epochs, None), Ok(AnchoringState::Actual { configuration: 1 }));
    assert_eq!(actual_state(&epochs, Some(&vec![0u8, 1])), Err(StateError::UnknownOutputScript));
}

#[test]
fn scheduler_is_idempotent() {
    let cfg = config(&[1, 2, 3]);
    let first = schedule(&cfg, 1200, Some(500), None);
    assert_eq!(first, ScheduleDecision::Propose { height: 1000 });
    let second = schedule(&cfg, 1200, Some(500), Some(1000));
    assert_eq!(second, ScheduleDecision::AwaitExisting { height: 1000 });
    assert_eq!(schedule(&cfg, 1200, Some(1000), Some(1000)), ScheduleDecision::Idle);
    assert_eq!(schedule(&cfg, 1500, Some(1000), Some(1000)), ScheduleDecision::Propose { height: 1500 });
    assert_eq!(schedule(&cfg, 0, None, None), ScheduleDecision::Propose { height: 0 });
}

fn tip(script: Vec<u8>, value: u64) -> ChainOutput {
    ChainOutput { txid: [3u8; 32], output_index: 0, value, script, anchored_height: 500 }
}

#[test]
fn proposal_from_funding_transaction() {
    let epochs = vec![config(&[1, 2, 3])];
    let (script, _) = epochs[0].redeem_script().unwrap();
    let p = build_proposal(&epochs, None, 5, 1234, [9u8; 32]).unwrap();
    assert_eq!(p.prev_txid, [7u8; 32]);
    assert_eq!(p.prev_output_index, 1);
    assert_eq!(p.input_value, 100_000);
    assert_eq!(p.output_value, 99_000);
    assert_eq!(p.anchored_height, 1000);
    assert_eq!(p.input_script, script);
    assert_eq!(p.output_script, script);
    assert_eq!(p.state_hash, [9u8; 32]);
}

#[test]
fn proposal_during_transition_pays_following_address() {
    let epochs = vec![config(&[1, 2, 3]), config(&[1, 2, 3, 4])];
    let (old_script, _) = epochs[0].redeem_script().unwrap();
    let (new_script, _) = epochs[1].redeem_script().unwrap();
    let t = tip(old_script.clone(), 50_000);
    let p = build_proposal(&epochs, Some(&t), 6, 1000, [1u8; 32]).unwrap();
    assert_eq!(p.prev_txid, [3u8; 32]);
    assert_eq!(p.input_script, old_script);
    assert_eq!(p.output_script, new_script);
    assert_eq!(p.output_value, 49_000);
    assert_eq!(p.anchored_height, 1000);
}

#[test]
fn proposal_errors() {
    let unfunded = vec![AnchoringConfig { funding_tx: None, ..config(&[1, 2]) }];
    assert_eq!(build_proposal(&unfunded, None, 10, 500, [0; 32]).unwrap_err(), BuildError::NoFundingTransaction);
    let epochs = vec![config(&[1, 2])];
    assert_eq!(build_proposal(&epochs, None, 4, 500, [0; 32]).unwrap_err(), BuildError::InsufficientConfirmations);
    let (script, _) = epochs[0].redeem_script().unwrap();
    let poor = tip(script, 999);
    assert_eq!(build_proposal(&epochs, Some(&poor), 5, 500, [0; 32]).unwrap_err(), BuildError::InsufficientFunds);
    let stranger = tip(vec![1, 2, 3], 10_000);
    assert_eq!(build_proposal(&epochs, Some(&stranger), 5, 500, [0; 32]).unwrap_err(), BuildError::UnknownOutputScript);
}

#[test]
fn threshold_finalization_with_four_validators() {
    let mut c = SignatureCollection::new(proposal(1000, 1), 4);
    assert_eq!(c.majority, 3);
    for v in [0usize, 2] {
        assert_eq!(c.add_signature(v, 0, vec![v as u8]), Ok(()));
    }
    assert_eq!(c.signer_count(0), 2);
    assert!(!c.is_finalizable());
    assert!(c.finalize().is_none());
    assert_eq!(c.add_signature(3, 0, vec![3]), Ok(()));
    assert_eq!(c.signer_count(0), 3);
    assert!(c.is_finalizable());
    assert!(c.finalize().is_some());
    assert_eq!(c.finalizing_signers(0), vec![0, 2, 3]);
    assert_eq!(c.add_signature(1, 0, vec![1]), Ok(()));
    assert_eq!(c.signer_count(0), 4);
    assert_eq!(c.finalizing_signers(0), vec![0, 1, 2]);
}

#[test]
fn rejected_signatures_are_not_counted() {
    let mut c = SignatureCollection::new(proposal(1000, 1), 4);
    assert_eq!(c.add_signature(4, 0, vec![1]), Err(SignatureError::UnknownValidator));
    assert_eq!(c.add_signature(0, 1, vec![1]), Err(SignatureError::UnknownInput));
    assert_eq!(c.add_signature(0, 0, vec![1]), Ok(()));
    assert_eq!(c.add_signature(0, 0, vec![2]), Err(SignatureError::DuplicateSignature));
    assert_eq!(c.signer_count(0), 1);
}

fn proposal(height: u64, hash: u8) -> Proposal {
    Proposal {
        prev_txid: [1; 32],
        prev_output_index: 0,
        input_script: vec![1, 2],
        output_script: vec![3, 4],
        input_value: 1010,
        output_value: 10,
        anchored_height: height,
        state_hash: [hash; 32],
    }
}

#[test]
fn no_equivocation() {
    let mut log = SignerLog::new();
    assert_eq!(log.record_signing(&proposal(1000, 1)), Ok(()));
    assert_eq!(log.record_signing(&proposal(1000, 1)), Ok(()));
    assert_eq!(log.signed.len(), 1);
    assert_eq!(log.record_signing(&proposal(1000, 2)), Err(SignError::DuplicateProposalSignature));
    assert_eq!(log.record_signing(&proposal(1500, 2)), Ok(()));
    assert_eq!(log.signed.len(), 2);
}

#[test]
fn key_rotation_follows_transition() {
    let epochs = vec![config(&[1, 2, 3]), config(&[1, 2, 3, 4])];
    let (_, old_address) = epochs[0].redeem_script().unwrap();
    let (_, new_address) = epochs[1].redeem_script().unwrap();
    let mut ring = KeyRing::new();
    let sk = PrivateKey { bytes: [5; 32] };
    ring.insert(old_address.clone(), sk);
    assert!(ring.lookup(&new_address).is_none());
    assert!(!renew_address(&mut ring, &epochs, AnchoringState::Actual { configuration: 1 }));
    let transition = AnchoringState::Transition { actual_configuration: 0, following_configuration: 1 };
    assert!(renew_address(&mut ring, &epochs, transition));
    assert_eq!(ring.lookup(&new_address).unwrap().bytes, [5; 32]);
    assert_eq!(ring.lookup(&old_address).unwrap().bytes, [5; 32]);
}

#[test]
fn service_identity() {
    let service = BtcAnchoringService::new(config(&[1]));
    assert_eq!(service.service_id(), BTC_ANCHORING_SERVICE_ID);
    assert_eq!(service.service_id(), 3);
    assert_eq!(service.service_name(), "btc_anchoring");
}

#[test]
fn records_for_other_proposals_are_rejected() {
    let mut c = SignatureCollection::new(proposal(1000, 1), 3);
    let foreign = SignatureRecord { validator: 0, proposal: proposal(1000, 2), input: 0, signature: vec![1] };
    assert_eq!(c.add_record(foreign), Err(SignatureError::UnknownProposal));
    assert_eq!(c.signer_count(0), 0);
    for v in 0..3 {
        let rec = SignatureRecord { validator: v, proposal: proposal(1000, 1), input: 0, signature: vec![10 + v as u8, 1] };
        assert_eq!(c.add_record(rec), Ok(()));
    }
    assert!(c.is_finalizable());
    let again = SignatureRecord { validator: 1, proposal: proposal(1000, 1), input: 0, signature: vec![9] };
    assert_eq!(c.add_record(again), Err(SignatureError::DuplicateSignature));
}

#[test]
fn witness_takes_lowest_signers_in_order() {
    let mut c = SignatureCollection::new(proposal(500, 3), 4);
    for v in [3usize, 1, 0, 2] {
        assert_eq!(c.add_signature(v, 0, vec![v as u8, 0xff]), Ok(()));
    }
    let signers = c.finalizing_signers(0);
    assert_eq!(signers, vec![0, 1, 2]);
    let witness = c.assemble_witness(0, &signers);
    assert_eq!(witness, vec![vec![0u8, 0xff], vec![1, 0xff], vec![2, 0xff]]);
}

#[test]
fn raw_transaction_decodes_as_bitcoin_transaction() {
    let epochs = vec![config(&[1, 2, 3])];
    let (script, address) = epochs[0].redeem_script().unwrap();
    let p = build_proposal(&epochs, None, 5, 1234, [9u8; 32]).unwrap();
    let raw = p.raw_transaction();
    let tx: bitcoin::Transaction = bitcoin::consensus::encode::deserialize(&raw).unwrap();
    assert_eq!(bitcoin::consensus::encode::serialize(&tx), raw);
    assert_eq!(tx.input.len(), 1);
    assert_eq!(tx.input[0].previous_output.vout, 1);
    assert_eq!(bitcoin::hashes::Hash::to_byte_array(tx.input[0].previous_output.txid), [7u8; 32]);
    assert_eq!(tx.output.len(), 2);
    assert_eq!(tx.output[0].value.to_sat(), 99_000);
    let expected = bitcoin::Address::p2wsh(&bitcoin::ScriptBuf::from_bytes(script.clone()), bitcoin::Network::Testnet);
    assert_eq!(expected.to_string(), address);
    assert_eq!(tx.output[0].script_pubkey, expected.script_pubkey());
    assert_ne!(tx.output[0].script_pubkey.as_bytes(), &script[..]);
    let data = tx.output[1].script_pubkey.as_bytes();
    assert_eq!(data[0], 0x6a);
    assert_eq!(data[1], 40);
    assert_eq!(&data[2..10], &1000u64.to_le_bytes());
    assert_eq!(&data[10..], &[9u8; 32]);
    assert_eq!(tx.output[1].value.to_sat(), 0);
}

#[test]
fn signatures_verify_against_the_spent_script() {
    let epochs = vec![config(&[1, 2, 3])];
    let p = build_proposal(&epochs, None, 5, 1000, [4u8; 32]).unwrap();
    let key = PrivateKey { bytes: [5; 32] };
    let sig = sign_input(&p, 0, &key).unwrap();
    assert_eq!(sign_input(&p, 0, &key).unwrap(), sig);
    let parsed = bitcoin::ecdsa::Signature::from_slice(&sig).unwrap();
    assert_eq!(parsed.sighash_type, bitcoin::EcdsaSighashType::All);
    let raw = p.raw_transaction();
    let tx: bitcoin::Transaction = bitcoin::consensus::encode::deserialize(&raw).unwrap();
    let script = bitcoin::ScriptBuf::from_bytes(p.input_script.clone());
    let mut cache = bitcoin::sighash::SighashCache::new(&tx);
    let hash = cache
        .p2wsh_signature_hash(0, &script, bitcoin::Amount::from_sat(100_000), bitcoin::EcdsaSighashType::All)
        .unwrap();
    let secp = bitcoin::secp256k1::Secp256k1::new();
    let sk = bitcoin::secp256k1::SecretKey::from_slice(&key.bytes).unwrap();
    let pk = bitcoin::secp256k1::PublicKey::from_secret_key(&secp, &sk);
    let msg = bitcoin::secp256k1::Message::from_digest(bitcoin::hashes::Hash::to_byte_array(hash));
    assert!(secp.verify_ecdsa(&msg, &parsed.signature, &pk).is_ok());
}

#[test]
fn signing_failures() {
    let epochs = vec![config(&[1, 2, 3])];
    let p = build_proposal(&epochs, None, 5, 1000, [4u8; 32]).unwrap();
    assert_eq!(sign_input(&p, 1, &PrivateKey { bytes: [5; 32] }), Err(SigningError::SigningFailed));
    assert_eq!(sign_input(&p, 0, &PrivateKey { bytes: [0; 32] }), Err(SigningError::SigningFailed));
}

#[test]
fn validator_refuses_to_sign_a_second_proposal_for_a_height() {
    let epochs = vec![config(&[1, 2, 3])];
    let a = build_proposal(&epochs, None, 5, 1000, [4u8; 32]).unwrap();
    let b = build_proposal(&epochs, None, 5, 1000, [6u8; 32]).unwrap();
    let key = PrivateKey { bytes: [5; 32] };
    let mut log = SignerLog::new();
    let first = log.sign(&a, 0, &key).unwrap();
    assert_eq!(log.sign(&a, 0, &key).unwrap(), first);
    assert_eq!(log.sign(&b, 0, &key), Err(SignError::DuplicateProposalSignature));
    assert_eq!(log.signed.len(), 1);
}

fn real_key(secret: u8) -> (PrivateKey, PublicKey) {
    let secp = bitcoin::secp256k1::Secp256k1::new();
    let sk = bitcoin::secp256k1::SecretKey::from_slice(&[secret; 32]).unwrap();
    let pk = bitcoin::secp256k1::PublicKey::from_secret_key(&secp, &sk);
    (PrivateKey { bytes: [secret; 32] }, PublicKey { bytes: pk.serialize() })
}

#[test]
fn finalized_transaction_extends_the_chain() {
    let pairs: Vec<(PrivateKey, PublicKey)> = (1..=4).map(real_key).collect();
    let validators: Vec<PublicKey> = pairs.iter().map(|p| p.1).collect();
    let cfg = AnchoringConfig::new_with_funding_tx(Network::Testnet, validators, funding());
    assert_eq!(cfg.majority_count(), 3);
    let epochs = vec![cfg];
    let p = build_proposal(&epochs, None, 5, 1000, [8u8; 32]).unwrap();
    let mut collection = SignatureCollection::new(p.clone(), 4);
    for v in [3usize, 1, 2] {
        let mut log = SignerLog::new();
        let sig = log.sign(&p, 0, &pairs[v].0).unwrap();
        let rec = SignatureRecord { validator: v, proposal: p.clone(), input: 0, signature: sig };
        assert_eq!(collection.add_record(rec), Ok(()));
        if v == 1 {
            assert!(collection.finalize().is_none());
        }
    }
    let raw = collection.finalize().unwrap();
    let tx: bitcoin::Transaction = bitcoin::consensus::encode::deserialize(&raw).unwrap();
    let witness: Vec<Vec<u8>> = tx.input[0].witness.iter().map(|w| w.to_vec()).collect();
    assert_eq!(witness.len(), 5);
    assert!(witness[0].is_empty());
    assert_eq!(witness[1], sign_input(&p, 0, &pairs[1].0).unwrap());
    assert_eq!(witness[2], sign_input(&p, 0, &pairs[2].0).unwrap());
    assert_eq!(witness[3], sign_input(&p, 0, &pairs[3].0).unwrap());
    assert_eq!(witness[4], p.input_script);
    let tip = p.chain_output();
    assert_eq!(bitcoin::hashes::Hash::to_byte_array(tx.compute_txid()), tip.txid);
    assert_eq!(tip.txid, p.txid());
    assert_eq!(tip.value, 99_000);
    assert_eq!(tip.anchored_height, 1000);
    assert_eq!(tip.script, p.output_script);
    let next = build_proposal(&epochs, Some(&tip), 5, 1500, [2u8; 32]).unwrap();
    assert_eq!(next.prev_txid, tip.txid);
    assert_eq!(next.prev_output_index, 0);
    assert_eq!(next.output_value, 98_000);
    assert_eq!(next.anchored_height, 1500);
}

#[test]
fn signing_succeeds_exactly_below_the_group_order() {
    let epochs = vec![config(&[1, 2, 3])];
    let p = build_proposal(&epochs, None, 5, 1000, [4u8; 32]).unwrap();
    let order: [u8; 32] = [
        0xff, 0xff, 0xff, 0xff, 0xff, 0xff, 0xff, 0xff, 0xff, 0xff, 0xff, 0xff, 0xff, 0xff, 0xff, 0xfe,
        0xba, 0xae, 0xdc, 0xe6, 0xaf, 0x48, 0xa0, 0x3b, 0xbf, 0xd2, 0x5e, 0x8c, 0xd0, 0x36, 0x41, 0x41,
    ];
    assert_eq!(sign_input(&p, 0, &PrivateKey { bytes: order }), Err(SigningError::SigningFailed));
    let mut below = order;
    below[31] = 0x40;
    assert!(sign_input(&p, 0, &PrivateKey { bytes: below }).is_ok());
    let mut one = [0u8; 32];
    one[31] = 1;
    assert!(sign_input(&p, 0, &PrivateKey { bytes: one }).is_ok());
}
