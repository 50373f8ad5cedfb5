use settlement::error::Error;
use settlement::provenance::{
    assemble_record, classify_output, decode_outputs, extract_settlement, fee_paid,
    first_outpoint, spent_output, summarize_outputs, DecodedOutput, OutPoint, OutputRole,
    RawTransaction, SettlementRecord, TxOutput, WalletView,
};
use settlement::script::{resolve_party, Network, Party};

const KEY_HASH: [u8; 20] = [
    0x75, 0x1e, 0x76, 0xe8, 0x19, 0x91, 0x96, 0xd4, 0x54, 0x94, 0x1c, 0x45, 0xd1, 0xb3, 0xa3,
    0x23, 0xf1, 0x43, 0x3b, 0xd6,
];
const SEGWIT_REGTEST: &str = "bcrt1qw508d6qejxtdg4y5r3zarvary0c5xw7kygt080";
const SEGWIT_MAINNET: &str = "bc1qw508d6qejxtdg4y5r3zarvary0c5xw7kv8f3t4";
const LEGACY_REGTEST: &str = "mrCDrCybB6J1vRfbwM5hemdJz73FwDBC8r";
const LEGACY_MAINNET: &str = "1BgGZ9tcN4rm9KBzDn7KprQz87SZ26SAMH";
const COIN: u64 = 100_000_000;

fn p2wpkh_script() -> Vec<u8> {
    let mut script = vec![0x00, 0x14];
    script.extend_from_slice(&KEY_HASH);
    script
}

fn p2pkh_script() -> Vec<u8> {
    let mut script = vec![0x76, 0xa9, 0x14];
    script.extend_from_slice(&KEY_HASH);
    script.push(0x88);
    script.push(0xac);
    script
}

fn p2sh_script() -> Vec<u8> {
    let mut script = vec![0xa9, 0x14];
    script.extend_from_slice(&[0u8; 20]);
    script.push(0x87);
    script
}

fn data_script() -> Vec<u8> {
    vec![0x6a, 0x04, 0xde, 0xad, 0xbe, 0xef]
}

fn address_of(party: &Party) -> Option<String> {
    match party {
        Party::Address(a) => Some(a.clone()),
        Party::Undecodable => None,
    }
}

fn wallet_view(fee: i64, height: u32) -> WalletView {
    WalletView {
        txid: "aa".repeat(32),
        fee: Some(fee),
        block_height: Some(height),
        block_hash: Some("bb".repeat(32)),
    }
}

fn funding(value: u64) -> RawTransaction {
    RawTransaction {
        inputs: vec![],
        outputs: vec![TxOutput { value, script: p2pkh_script() }],
    }
}

fn spending(outputs: Vec<TxOutput>) -> RawTransaction {
    RawTransaction { inputs: vec![OutPoint { txid: "cc".repeat(32), vout: 0 }], outputs }
}

fn payment(value: u64) -> TxOutput {
    TxOutput { value, script: p2wpkh_script() }
}

fn change(value: u64) -> TxOutput {
    TxOutput { value, script: p2pkh_script() }
}

fn extract(outputs: Vec<TxOutput>, spent: u64, fee: i64) -> Result<SettlementRecord, Error> {
    extract_settlement(
        &wallet_view(fee, 103),
        &spending(outputs),
        &funding(spent),
        &SEGWIT_REGTEST.to_string(),
        Network::Regtest,
    )
}

#[test]
fn decodes_witness_script_per_network() {
    let script = p2wpkh_script();
    assert_eq!(
        address_of(&resolve_party(&script, Network::Regtest)),
        Some(SEGWIT_REGTEST.to_string())
    );
    assert_eq!(
        address_of(&resolve_party(&script, Network::Bitcoin)),
        Some(SEGWIT_MAINNET.to_string())
    );
}

#[test]
fn decodes_legacy_script_per_network() {
    let script = p2pkh_script();
    assert_eq!(
        address_of(&resolve_party(&script, Network::Regtest)),
        Some(LEGACY_REGTEST.to_string())
    );
    assert_eq!(
        address_of(&resolve_party(&script, Network::Testnet)),
        Some(LEGACY_REGTEST.to_string())
    );
    assert_eq!(
        address_of(&resolve_party(&script, Network::Bitcoin)),
        Some(LEGACY_MAINNET.to_string())
    );
}

#[test]
fn decodes_script_hash_script() {
    assert_eq!(
        address_of(&resolve_party(&p2sh_script(), Network::Regtest)),
        Some("2MsFDzHRUAMpjHxKyoEHU3aMCMsVtMqs1PV".to_string())
    );
}

#[test]
fn non_standard_scripts_are_undecodable() {
    assert!(matches!(resolve_party(&data_script(), Network::Regtest), Party::Undecodable));
    assert!(matches!(resolve_party(&vec![], Network::Regtest), Party::Undecodable));
    assert!(matches!(resolve_party(&vec![0x51], Network::Regtest), Party::Undecodable));
    // A version-0 witness program of a length that no address has.
    let mut odd = vec![0x00, 0x10];
    odd.extend_from_slice(&[7u8; 16]);
    assert!(matches!(resolve_party(&odd, Network::Regtest), Party::Undecodable));
}

#[test]
fn classifies_by_exact_match() {
    let receiver = SEGWIT_REGTEST.to_string();
    assert_eq!(
        classify_output(&Party::Address(SEGWIT_REGTEST.to_string()), &receiver),
        OutputRole::Payment
    );
    assert_eq!(
        classify_output(&Party::Address(LEGACY_REGTEST.to_string()), &receiver),
        OutputRole::Change
    );
    assert_eq!(
        classify_output(&Party::Address(SEGWIT_REGTEST.to_uppercase()), &receiver),
        OutputRole::Change
    );
    assert_eq!(classify_output(&Party::Undecodable, &receiver), OutputRole::Unrecognized);
}

#[test]
fn settles_payment_and_change() {
    let record = extract(vec![payment(20 * COIN), change(30 * COIN - 1410)], 50 * COIN, -1410)
        .unwrap();
    assert_eq!(record.txid, "aa".repeat(32));
    assert_eq!(address_of(&record.sender_address), Some(LEGACY_REGTEST.to_string()));
    assert_eq!(record.sender_amount, 5_000_000_000);
    assert_eq!(record.receiver_address, SEGWIT_REGTEST);
    assert_eq!(record.receiver_amount, 2_000_000_000);
    assert_eq!(record.change_address, Some(LEGACY_REGTEST.to_string()));
    assert_eq!(record.change_amount, 2_999_998_590);
    assert_eq!(record.fee, 1410);
    assert_eq!(record.block_height, 103);
    assert_eq!(record.block_hash, "bb".repeat(32));
}

#[test]
fn settlement_conserves_value() {
    let record = extract(vec![payment(20 * COIN), change(30 * COIN - 1410)], 50 * COIN, -1410)
        .unwrap();
    assert_eq!(
        record.receiver_amount + record.change_amount + record.fee,
        record.sender_amount
    );
    assert!(record.is_balanced());
}

#[test]
fn unbalanced_record_is_told() {
    let record = extract(vec![payment(20 * COIN), change(30 * COIN)], 50 * COIN, -1410).unwrap();
    assert!(!record.is_balanced());
}

#[test]
fn output_order_does_not_matter() {
    let forward = extract(vec![payment(20 * COIN), change(7 * COIN)], 50 * COIN, -5).unwrap();
    let backward = extract(vec![change(7 * COIN), payment(20 * COIN)], 50 * COIN, -5).unwrap();
    for record in [forward, backward] {
        assert_eq!(record.receiver_amount, 20 * COIN);
        assert_eq!(record.change_amount, 7 * COIN);
        assert_eq!(record.change_address, Some(LEGACY_REGTEST.to_string()));
    }
}

#[test]
fn data_output_is_skipped() {
    let data = TxOutput { value: 0, script: data_script() };
    for outputs in [
        vec![data.clone(), payment(20 * COIN), change(7 * COIN)],
        vec![payment(20 * COIN), data.clone(), change(7 * COIN)],
        vec![payment(20 * COIN), change(7 * COIN), data.clone()],
    ] {
        let record = extract(outputs, 50 * COIN, -5).unwrap();
        assert_eq!(record.receiver_amount, 20 * COIN);
        assert_eq!(record.change_amount, 7 * COIN);
        assert_eq!(record.change_address, Some(LEGACY_REGTEST.to_string()));
    }
}

#[test]
fn data_output_never_becomes_change() {
    let data = TxOutput { value: 9, script: data_script() };
    let record = extract(vec![payment(20 * COIN), data], 50 * COIN, -5).unwrap();
    assert_eq!(record.change_address, None);
    assert_eq!(record.change_amount, 0);
    assert_eq!(record.receiver_amount, 20 * COIN);
}

#[test]
fn undecodable_sender_is_marked() {
    let prev = RawTransaction {
        inputs: vec![],
        outputs: vec![TxOutput { value: 50 * COIN, script: data_script() }],
    };
    let record = extract_settlement(
        &wallet_view(-5, 1),
        &spending(vec![payment(COIN)]),
        &prev,
        &SEGWIT_REGTEST.to_string(),
        Network::Regtest,
    )
    .unwrap();
    assert!(matches!(record.sender_address, Party::Undecodable));
    assert_eq!(record.sender_amount, 50 * COIN);
}

#[test]
fn follows_the_index_of_the_first_input() {
    let prev = RawTransaction {
        inputs: vec![],
        outputs: vec![
            TxOutput { value: 1, script: data_script() },
            TxOutput { value: 2, script: p2wpkh_script() },
            TxOutput { value: 3, script: p2pkh_script() },
        ],
    };
    let raw = RawTransaction {
        inputs: vec![
            OutPoint { txid: "cc".repeat(32), vout: 2 },
            OutPoint { txid: "dd".repeat(32), vout: 0 },
        ],
        outputs: vec![payment(1)],
    };
    assert_eq!(first_outpoint(&raw).unwrap().txid, "cc".repeat(32));
    assert_eq!(first_outpoint(&raw).unwrap().vout, 2);
    assert_eq!(spent_output(&raw, &prev).unwrap().value, 3);
    let record = extract_settlement(
        &wallet_view(-2, 1),
        &raw,
        &prev,
        &SEGWIT_REGTEST.to_string(),
        Network::Regtest,
    )
    .unwrap();
    assert_eq!(record.sender_amount, 3);
    assert_eq!(address_of(&record.sender_address), Some(LEGACY_REGTEST.to_string()));
}

#[test]
fn no_input_is_an_error() {
    let raw = RawTransaction { inputs: vec![], outputs: vec![payment(1)] };
    assert_eq!(first_outpoint(&raw).err(), Some(Error::NoInputs));
    assert_eq!(spent_output(&raw, &funding(5)).err(), Some(Error::NoInputs));
    let r = extract_settlement(
        &wallet_view(-1, 1),
        &raw,
        &funding(5),
        &SEGWIT_REGTEST.to_string(),
        Network::Regtest,
    );
    assert_eq!(r.err(), Some(Error::NoInputs));
}

#[test]
fn missing_previous_output_is_an_error() {
    let raw = RawTransaction {
        inputs: vec![OutPoint { txid: "cc".repeat(32), vout: 1 }],
        outputs: vec![payment(1)],
    };
    assert_eq!(spent_output(&raw, &funding(5)).err(), Some(Error::PrevOutputOutOfRange));
    let r = extract_settlement(
        &wallet_view(-1, 1),
        &raw,
        &funding(5),
        &SEGWIT_REGTEST.to_string(),
        Network::Regtest,
    );
    assert_eq!(r.err(), Some(Error::PrevOutputOutOfRange));
}

#[test]
fn two_change_like_outputs_are_ambiguous() {
    let other = TxOutput { value: 3, script: p2sh_script() };
    let r = extract(vec![payment(20), change(7), other], 50, -5);
    assert_eq!(r.err(), Some(Error::AmbiguousChange));
}

#[test]
fn later_payment_replaces_earlier() {
    let record = extract(vec![payment(20), payment(8), change(7)], 50, -5).unwrap();
    assert_eq!(record.receiver_amount, 8);
    assert_eq!(record.change_amount, 7);
}

#[test]
fn missing_wallet_fields_are_errors() {
    let receiver = SEGWIT_REGTEST.to_string();
    let raw = spending(vec![payment(20), change(7)]);
    let prev = funding(50);
    let mut view = wallet_view(-5, 9);
    view.fee = None;
    assert_eq!(
        extract_settlement(&view, &raw, &prev, &receiver, Network::Regtest).err(),
        Some(Error::MissingFee)
    );
    let mut view = wallet_view(-5, 9);
    view.block_height = None;
    view.block_hash = None;
    assert_eq!(
        extract_settlement(&view, &raw, &prev, &receiver, Network::Regtest).err(),
        Some(Error::MissingBlockHeight)
    );
    let mut view = wallet_view(-5, 9);
    view.block_hash = None;
    assert_eq!(
        extract_settlement(&view, &raw, &prev, &receiver, Network::Regtest).err(),
        Some(Error::MissingBlockHash)
    );
}

#[test]
fn ambiguity_comes_before_missing_fields() {
    let mut view = wallet_view(-5, 9);
    view.fee = None;
    let decoded = vec![
        DecodedOutput { value: 1, party: Party::Address("x".to_string()) },
        DecodedOutput { value: 2, party: Party::Address("y".to_string()) },
    ];
    let r = assemble_record(&view, Party::Undecodable, 5, &"r".to_string(), &decoded);
    assert_eq!(r.err(), Some(Error::AmbiguousChange));
}

#[test]
fn fee_is_taken_without_sign() {
    assert_eq!(fee_paid(-1410), 1410);
    assert_eq!(fee_paid(1410), 1410);
    assert_eq!(fee_paid(0), 0);
    assert_eq!(fee_paid(i64::MIN), 9_223_372_036_854_775_808);
    assert_eq!(fee_paid(i64::MAX), 9_223_372_036_854_775_807);
}

#[test]
fn summary_of_no_outputs_is_empty() {
    let summary = summarize_outputs(&vec![], &"r".to_string()).unwrap();
    assert_eq!(summary.receiver_amount, 0);
    assert_eq!(summary.change_amount, 0);
    assert_eq!(summary.change_address, None);
}

#[test]
fn decoding_keeps_order_and_amounts() {
    let decoded = decode_outputs(
        &vec![
            TxOutput { value: 4, script: data_script() },
            payment(5),
            change(6),
        ],
        Network::Regtest,
    );
    assert_eq!(decoded.len(), 3);
    assert_eq!(decoded[0].value, 4);
    assert_eq!(address_of(&decoded[0].party), None);
    assert_eq!(decoded[1].value, 5);
    assert_eq!(address_of(&decoded[1].party), Some(SEGWIT_REGTEST.to_string()));
    assert_eq!(decoded[2].value, 6);
    assert_eq!(address_of(&decoded[2].party), Some(LEGACY_REGTEST.to_string()));
}

#[test]
fn confirmed_transfer_of_twenty_coins() {
    // A matured 50-coin reward pays 20 coins to the receiver; the
    // confirming block is the 103rd.
    let sent = 20 * COIN;
    let input = 50 * COIN;
    let fee = 2820;
    let record = extract(vec![change(input - sent - fee), payment(sent)], input, -(fee as i64))
        .unwrap();
    assert_eq!(record.receiver_amount, sent);
    assert_eq!(record.change_amount, input - sent - fee);
    assert_eq!(record.block_height, 103);
    assert!(record.is_balanced());
}
