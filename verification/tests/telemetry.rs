use carbonchain::base::Origin;
use carbonchain::oracle;
use carbonchain::registry;
use carbonchain::registry::DeviceStatus;
use carbonchain::token;

const DEVICE_OWNER: u64 = 1;
const ORACLE_NODE: u64 = 9;

fn world() -> (oracle::Pallet, registry::Pallet, token::Pallet) {
    let mut reg = registry::Pallet::new(registry::Config {
        registration_deposit: 25,
        max_metadata_length: 64,
    });
    reg.whitelist_manufacturer(Origin::Root, b"acme".to_vec()).unwrap();
    reg.set_free_balance(DEVICE_OWNER, 100);
    reg.register_device(
        Origin::Signed(DEVICE_OWNER),
        b"dev1".to_vec(),
        vec![0u8; 32],
        b"acme".to_vec(),
        Vec::new(),
        1,
    )
    .unwrap();
    reg.update_device_status(Origin::Signed(DEVICE_OWNER), b"dev1".to_vec(), DeviceStatus::Active)
        .unwrap();
    let mut orc = oracle::Pallet::new(oracle::Config { min_oracle_nodes: 2, telemetry_timeout: 50 });
    orc.add_oracle_node(Origin::Root, ORACLE_NODE).unwrap();
    let tok = token::Pallet::new(token::Config { mint_rate_per_kwh: 10 });
    (orc, reg, tok)
}

fn sigs(n: u64) -> Vec<(u64, Vec<u8>)> {
    (0..n).map(|i| (100 + i, vec![0xab; 4])).collect()
}

#[test]
fn verified_submission_credits_reward_and_claim_pays_out() {
    let (mut orc, mut reg, mut tok) = world();
    let r = orc.submit_telemetry(
        &mut reg,
        &mut tok,
        Origin::Signed(ORACLE_NODE),
        b"dev1".to_vec(),
        1234,
        900,
        5000,
        [7u8; 32],
        1,
        sigs(3),
        10,
    );
    assert_eq!(r, Ok(()));
    assert_eq!(orc.report_count(&b"dev1".to_vec()), 1);
    let reports = orc.device_reports(&b"dev1".to_vec()).unwrap();
    assert_eq!(reports[0].device_id, b"dev1".to_vec());
    assert_eq!(reports[0].timestamp, 1234);
    assert_eq!(reports[0].co2_captured, 900);
    assert_eq!(reports[0].energy_produced, 5000);
    assert_eq!(reports[0].data_hash, [7u8; 32]);
    assert_eq!(reports[0].oracle_signatures.len(), 3);
    assert_eq!(reports[0].submitted_at, 10);
    assert!(orc.is_nonce_used(&b"dev1".to_vec(), 1));
    assert_eq!(reg.device(&b"dev1".to_vec()).unwrap().last_telemetry, 10);
    assert_eq!(tok.pending_of(DEVICE_OWNER), 50);
    assert_eq!(tok.balance_of(DEVICE_OWNER), 0);
    assert_eq!(tok.claim_rewards(Origin::Signed(DEVICE_OWNER)), Ok(()));
    assert_eq!(tok.balance_of(DEVICE_OWNER), 50);
    assert_eq!(tok.pending_of(DEVICE_OWNER), 0);
    assert!(matches!(
        orc.events.last(),
        Some(oracle::Event::TelemetryVerified { co2_captured: 900, energy_produced: 5000, .. })
    ));
}

#[test]
fn replayed_nonce_is_rejected_and_changes_nothing() {
    let (mut orc, mut reg, mut tok) = world();
    orc.submit_telemetry(
        &mut reg,
        &mut tok,
        Origin::Signed(ORACLE_NODE),
        b"dev1".to_vec(),
        1234,
        900,
        5000,
        [7u8; 32],
        1,
        sigs(3),
        10,
    )
    .unwrap();
    // same (device, nonce); every other argument differs
    let r = orc.submit_telemetry(
        &mut reg,
        &mut tok,
        Origin::Signed(ORACLE_NODE),
        b"dev1".to_vec(),
        9999,
        1,
        700000,
        [8u8; 32],
        1,
        sigs(5),
        11,
    );
    assert_eq!(r, Err(oracle::Error::NonceAlreadyUsed));
    assert_eq!(orc.report_count(&b"dev1".to_vec()), 1);
    assert_eq!(tok.pending_of(DEVICE_OWNER), 50);
    assert_eq!(reg.device(&b"dev1".to_vec()).unwrap().last_telemetry, 10);
}

#[test]
fn fresh_nonce_after_replay_is_accepted() {
    let (mut orc, mut reg, mut tok) = world();
    for nonce in [1u64, 2u64] {
        orc.submit_telemetry(
            &mut reg,
            &mut tok,
            Origin::Signed(ORACLE_NODE),
            b"dev1".to_vec(),
            1234,
            900,
            1000,
            [7u8; 32],
            nonce,
            sigs(2),
            10,
        )
        .unwrap();
    }
    assert_eq!(orc.report_count(&b"dev1".to_vec()), 2);
    assert_eq!(tok.pending_of(DEVICE_OWNER), 20);
}

#[test]
fn below_quorum_is_rejected_with_no_side_effects() {
    let (mut orc, mut reg, mut tok) = world();
    let r = orc.submit_telemetry(
        &mut reg,
        &mut tok,
        Origin::Signed(ORACLE_NODE),
        b"dev1".to_vec(),
        1234,
        900,
        5000,
        [7u8; 32],
        1,
        sigs(1),
        10,
    );
    assert_eq!(r, Err(oracle::Error::InsufficientOracleSignatures));
    assert_eq!(orc.report_count(&b"dev1".to_vec()), 0);
    assert_eq!(tok.pending_of(DEVICE_OWNER), 0);
    assert!(!orc.is_nonce_used(&b"dev1".to_vec(), 1));
    assert_eq!(reg.device(&b"dev1".to_vec()).unwrap().last_telemetry, 1);
}

#[test]
fn submission_from_non_oracle_is_rejected() {
    let (mut orc, mut reg, mut tok) = world();
    let r = orc.submit_telemetry(
        &mut reg,
        &mut tok,
        Origin::Signed(5),
        b"dev1".to_vec(),
        1234,
        900,
        5000,
        [7u8; 32],
        1,
        sigs(3),
        10,
    );
    assert_eq!(r, Err(oracle::Error::NotOracleNode));
}

#[test]
fn submission_for_unknown_device_is_rejected() {
    let (mut orc, mut reg, mut tok) = world();
    let r = orc.submit_telemetry(
        &mut reg,
        &mut tok,
        Origin::Signed(ORACLE_NODE),
        b"ghost".to_vec(),
        1234,
        900,
        5000,
        [7u8; 32],
        1,
        sigs(3),
        10,
    );
    assert_eq!(r, Err(oracle::Error::DeviceNotFound));
}

#[test]
fn submission_for_inactive_device_is_rejected() {
    let (mut orc, mut reg, mut tok) = world();
    reg.update_device_status(
        Origin::Signed(DEVICE_OWNER),
        b"dev1".to_vec(),
        DeviceStatus::Suspended,
    )
    .unwrap();
    let r = orc.submit_telemetry(
        &mut reg,
        &mut tok,
        Origin::Signed(ORACLE_NODE),
        b"dev1".to_vec(),
        1234,
        900,
        5000,
        [7u8; 32],
        1,
        sigs(3),
        10,
    );
    assert_eq!(r, Err(oracle::Error::DeviceNotActive));
}

#[test]
fn oracle_membership_is_root_managed() {
    let (mut orc, mut reg, mut tok) = world();
    assert_eq!(orc.add_oracle_node(Origin::Signed(1), 10), Err(oracle::Error::BadOrigin));
    assert_eq!(orc.remove_oracle_node(Origin::Signed(1), ORACLE_NODE), Err(oracle::Error::BadOrigin));
    assert!(orc.is_oracle_node(ORACLE_NODE));
    assert_eq!(orc.remove_oracle_node(Origin::Root, ORACLE_NODE), Ok(()));
    assert!(!orc.is_oracle_node(ORACLE_NODE));
    let r = orc.submit_telemetry(
        &mut reg,
        &mut tok,
        Origin::Signed(ORACLE_NODE),
        b"dev1".to_vec(),
        1234,
        900,
        5000,
        [7u8; 32],
        1,
        sigs(3),
        10,
    );
    assert_eq!(r, Err(oracle::Error::NotOracleNode));
}
