use corpusgen::config::{ChainSpec, Domain, GenConfig};
use corpusgen::gate::{
    process_block_header, process_deposits, process_exits, process_randao, process_transfers,
    GateError,
};
use corpusgen::builders::DepositBuilder;
use corpusgen::generate::{
    generate_attester_slashing, generate_block_header, generate_deposit, generate_randao,
    generate_transfer, generate_voluntary_exit,
};
use corpusgen::ops::{Operation, Transfer, VoluntaryExit};
use corpusgen::sign::compute_signature;
use corpusgen::state::{fixture_keypairs, minimal_state, State};
use corpusgen::{NUM_VALIDATORS, STATE_EPOCH};

fn fixture() -> (State, ChainSpec, GenConfig) {
    let sp = ChainSpec::minimal();
    let cfg = GenConfig::fixture();
    let st = minimal_state(&cfg, &sp);
    (st, sp, cfg)
}

// The fixture sits at slot 32 (epoch 4 of 8-slot epochs); the proposer there
// is (32 + 4) % 8 == 4.
const FIXTURE_PROPOSER: u64 = 4;

#[test]
fn exit_preconditioning_and_proposer() {
    let (mut st, sp, cfg) = fixture();
    let entry = generate_voluntary_exit(&mut st, &sp, &cfg).expect("exit must be accepted");
    match &entry.op {
        Operation::Exit(e) => {
            assert_eq!(e.epoch, STATE_EPOCH + sp.persistent_committee_period);
            // The preconditioned slot is 2052 * 8 == 16416; the proposer
            // there is (16416 + 2052) % 8 == 4.
            assert_eq!(e.validator_index, 4);
        }
        _ => panic!("wrong operation kind"),
    }
    assert_eq!(st.slot, (STATE_EPOCH + sp.persistent_committee_period) * sp.slots_per_epoch);
    assert_eq!(entry.op.label(), "VoluntaryExit");
    // The accepted exit marks the validator exited.
    assert_ne!(st.validators[4].exit_epoch, sp.far_future_epoch);
}

#[test]
fn exit_rejected_before_lockup_elapses() {
    let (mut st, sp, _cfg) = fixture();
    // Sign a formally correct exit, but without advancing the state first.
    let epoch = st.slot / sp.slots_per_epoch;
    let mut msg = corpusgen::bytes::u64_to_le_bytes(epoch);
    msg.extend_from_slice(&corpusgen::bytes::u64_to_le_bytes(0));
    let domain = sp.get_domain(epoch, Domain::VoluntaryExit, &st.fork);
    let exit = VoluntaryExit {
        epoch,
        validator_index: 0,
        signature: compute_signature(0, epoch, domain, &msg),
    };
    let res = process_exits(&mut st, &vec![exit], &sp);
    assert_eq!(res, Err(GateError::ValidatorLockedUp));
}

#[test]
fn exit_rejected_for_unknown_validator() {
    let (mut st, sp, _cfg) = fixture();
    let exit = VoluntaryExit { epoch: 0, validator_index: 99, signature: vec![0u8; 96] };
    assert_eq!(process_exits(&mut st, &vec![exit], &sp), Err(GateError::UnknownValidator));
}

#[test]
fn generation_is_deterministic() {
    let (mut st1, sp, cfg) = fixture();
    let (mut st2, _, _) = fixture();
    let e1 = generate_voluntary_exit(&mut st1, &sp, &cfg).unwrap();
    let e2 = generate_voluntary_exit(&mut st2, &sp, &cfg).unwrap();
    assert_eq!(e1.bytes, e2.bytes);
    assert_eq!(e1.hex, e2.hex);
    let (mut st1, _, _) = fixture();
    let (mut st2, _, _) = fixture();
    let b1 = generate_block_header(&mut st1, &sp).unwrap();
    let b2 = generate_block_header(&mut st2, &sp).unwrap();
    assert_eq!(b1.bytes, b2.bytes);
    assert_eq!(b1.hex, b2.hex);
}

#[test]
fn block_header_end_to_end() {
    let (mut st, sp, cfg) = fixture();
    assert_eq!(cfg.num_validators, NUM_VALIDATORS);
    assert_eq!(NUM_VALIDATORS, 8);
    let entry = generate_block_header(&mut st, &sp).expect("header must be accepted");
    assert_eq!(entry.op.label(), "Block");
    // The block's fixed wire size: slot, parent root, reveal, signature.
    let decoded = hex::decode(&entry.hex).expect("emitted hex must decode");
    assert_eq!(decoded, entry.bytes);
    assert_eq!(decoded.len(), 232);
    assert_eq!(entry.hex.len(), 464);
}

#[test]
fn block_header_rejected_at_wrong_slot() {
    let (mut st, sp, _cfg) = fixture();
    let entry = generate_block_header(&mut st, &sp).unwrap();
    match entry.op {
        Operation::Block(mut block) => {
            block.slot += 1;
            assert_eq!(
                process_block_header(&mut st, &block, &sp, true),
                Err(GateError::BadSlot)
            );
        }
        _ => panic!("wrong operation kind"),
    }
}

#[test]
fn block_header_rejected_with_tampered_signature() {
    let (mut st, sp, _cfg) = fixture();
    let entry = generate_block_header(&mut st, &sp).unwrap();
    match entry.op {
        Operation::Block(mut block) => {
            block.signature[0] ^= 1;
            assert_eq!(
                process_block_header(&mut st, &block, &sp, true),
                Err(GateError::BadSignature)
            );
        }
        _ => panic!("wrong operation kind"),
    }
}

#[test]
fn randao_end_to_end() {
    let (mut st, sp, _cfg) = fixture();
    let epoch = st.slot / sp.slots_per_epoch;
    let entry = generate_randao(&mut st, &sp).expect("randao block must be accepted");
    match &entry.op {
        Operation::Block(block) => {
            let msg = corpusgen::bytes::u64_to_le_bytes(epoch);
            let domain = sp.get_domain(epoch, Domain::Randao, &st.fork);
            let expected = compute_signature(FIXTURE_PROPOSER, epoch, domain, &msg);
            assert_eq!(block.randao_reveal, expected);
        }
        _ => panic!("wrong operation kind"),
    }
}

#[test]
fn randao_rejected_with_zero_reveal() {
    let (mut st, sp, _cfg) = fixture();
    let entry = generate_block_header(&mut st, &sp).unwrap();
    match entry.op {
        Operation::Block(block) => {
            // The header block carries an all-zero reveal: no randao.
            assert_eq!(process_randao(&mut st, &block, &sp), Err(GateError::BadRandaoReveal));
        }
        _ => panic!("wrong operation kind"),
    }
}

#[test]
fn deposit_index_matches_counter() {
    let (mut st, sp, cfg) = fixture();
    let keypairs = fixture_keypairs(cfg.num_validators + 2);
    let entry = generate_deposit(&mut st, &keypairs, &sp, &cfg).expect("deposit must be accepted");
    match &entry.op {
        Operation::Deposit(d) => {
            assert_eq!(d.index, 0);
            assert_eq!(d.amount, 32_000_000_000);
            assert_eq!(d.pubkey, keypairs[cfg.num_validators as usize + 1].pk);
        }
        _ => panic!("wrong operation kind"),
    }
    assert_eq!(st.deposit_index, 1);
    assert_eq!(st.validators.len(), 9);
    assert_eq!(st.balances.len(), 9);
    assert_eq!(st.balances[8], 32_000_000_000);
}

#[test]
fn deposit_rejected_at_mismatched_index() {
    let (mut st, sp, cfg) = fixture();
    let keypairs = fixture_keypairs(cfg.num_validators + 2);
    let kp = &keypairs[cfg.num_validators as usize + 1];
    let mut builder = DepositBuilder::new(kp.pk.clone(), 32_000_000_000);
    builder.set_index(5);
    let epoch = st.slot / sp.slots_per_epoch;
    builder.sign(epoch, &st.fork.clone(), &sp);
    let deposit = builder.build();
    corpusgen::gate::insert_eth1_data(&mut st, &deposit);
    assert_eq!(
        process_deposits(&mut st, &vec![deposit], &sp),
        Err(GateError::BadDepositIndex)
    );
}

#[test]
fn deposit_rejected_below_minimum_amount() {
    let (mut st, sp, cfg) = fixture();
    let keypairs = fixture_keypairs(cfg.num_validators + 2);
    let kp = &keypairs[cfg.num_validators as usize + 1];
    let mut builder = DepositBuilder::new(kp.pk.clone(), sp.min_deposit_amount - 1);
    builder.set_index(0);
    let epoch = st.slot / sp.slots_per_epoch;
    builder.sign(epoch, &st.fork.clone(), &sp);
    let deposit = builder.build();
    corpusgen::gate::insert_eth1_data(&mut st, &deposit);
    assert_eq!(
        process_deposits(&mut st, &vec![deposit], &sp),
        Err(GateError::DepositAmountTooLow)
    );
}

#[test]
fn transfer_crediting_and_balances() {
    let (mut st, sp, cfg) = fixture();
    let keypairs = fixture_keypairs(cfg.num_validators);
    let sender = FIXTURE_PROPOSER as usize;
    let recipient = ((FIXTURE_PROPOSER + 1) % 2) as usize;
    let before_sender = st.balances[sender];
    let before_recipient = st.balances[recipient];
    let entry = generate_transfer(&mut st, &keypairs, &sp).expect("transfer must be accepted");
    match &entry.op {
        Operation::Transfer(t) => {
            assert_eq!(t.sender, FIXTURE_PROPOSER);
            assert_eq!(t.recipient, recipient as u64);
            assert_eq!(t.amount, 1_000_000_000_000);
            assert_eq!(t.fee, 10_000_000_000);
        }
        _ => panic!("wrong operation kind"),
    }
    // The credit of fee + amount is consumed by the accepted transfer: the
    // sender is back at the original balance, the recipient grew by amount.
    assert_eq!(st.balances[sender], before_sender);
    assert_eq!(st.balances[recipient], before_recipient + 1_000_000_000_000);
}

#[test]
fn transfer_rejected_when_undercredited() {
    let (mut st, sp, _cfg) = fixture();
    let keypairs = fixture_keypairs(NUM_VALIDATORS);
    let sender: u64 = 0;
    let mut transfer = Transfer {
        sender,
        recipient: 1,
        amount: 1_000_000_000_000,
        fee: 10_000_000_000,
        slot: st.slot,
        pubkey: keypairs[0].pk.clone(),
        signature: Vec::new(),
    };
    let mut msg = corpusgen::bytes::u64_to_le_bytes(transfer.sender);
    msg.extend_from_slice(&corpusgen::bytes::u64_to_le_bytes(transfer.recipient));
    msg.extend_from_slice(&corpusgen::bytes::u64_to_le_bytes(transfer.amount));
    msg.extend_from_slice(&corpusgen::bytes::u64_to_le_bytes(transfer.fee));
    msg.extend_from_slice(&corpusgen::bytes::u64_to_le_bytes(transfer.slot));
    msg.extend_from_slice(&transfer.pubkey);
    let epoch = transfer.slot / sp.slots_per_epoch;
    let domain = sp.get_domain(epoch, Domain::Transfer, &st.fork);
    transfer.signature = compute_signature(transfer.sender, epoch, domain, &msg);
    // The fixture balance of 32_000_000_000 is far below amount + fee.
    assert_eq!(
        process_transfers(&mut st, &vec![transfer], &sp),
        Err(GateError::InsufficientBalance)
    );
}

fn signed_transfer(mut t: Transfer, sp: &ChainSpec, fork: &corpusgen::config::Fork) -> Transfer {
    let mut msg = corpusgen::bytes::u64_to_le_bytes(t.sender);
    msg.extend_from_slice(&corpusgen::bytes::u64_to_le_bytes(t.recipient));
    msg.extend_from_slice(&corpusgen::bytes::u64_to_le_bytes(t.amount));
    msg.extend_from_slice(&corpusgen::bytes::u64_to_le_bytes(t.fee));
    msg.extend_from_slice(&corpusgen::bytes::u64_to_le_bytes(t.slot));
    msg.extend_from_slice(&t.pubkey);
    let epoch = t.slot / sp.slots_per_epoch;
    let domain = sp.get_domain(epoch, Domain::Transfer, fork);
    t.signature = compute_signature(t.sender, epoch, domain, &msg);
    t
}

#[test]
fn exit_rejected_twice_for_same_validator() {
    let (mut st, sp, cfg) = fixture();
    generate_voluntary_exit(&mut st, &sp, &cfg).expect("first exit must be accepted");
    let res = generate_voluntary_exit(&mut st, &sp, &cfg);
    assert_eq!(res.err(), Some(GateError::ValidatorAlreadyExited));
}

#[test]
fn exit_rejected_with_future_epoch() {
    let (mut st, sp, _cfg) = fixture();
    corpusgen::state::increase_state_epoch(
        &mut st,
        STATE_EPOCH + sp.persistent_committee_period,
        &sp,
    );
    let cur = st.slot / sp.slots_per_epoch;
    let exit = VoluntaryExit { epoch: cur + 1, validator_index: 0, signature: vec![0u8; 96] };
    assert_eq!(
        process_exits(&mut st, &vec![exit], &sp),
        Err(GateError::ExitEpochInFuture)
    );
}

#[test]
fn block_header_rejected_with_wrong_parent_root() {
    let (mut st, sp, _cfg) = fixture();
    let entry = generate_block_header(&mut st, &sp).unwrap();
    match entry.op {
        Operation::Block(mut block) => {
            block.previous_block_root[0] ^= 1;
            assert_eq!(
                process_block_header(&mut st, &block, &sp, true),
                Err(GateError::BadParentRoot)
            );
        }
        _ => panic!("wrong operation kind"),
    }
}

#[test]
fn deposit_rejected_without_eth1_record() {
    let (mut st, sp, cfg) = fixture();
    let keypairs = fixture_keypairs(cfg.num_validators + 2);
    let kp = &keypairs[cfg.num_validators as usize + 1];
    let mut builder = DepositBuilder::new(kp.pk.clone(), 32_000_000_000);
    builder.set_index(0);
    builder.sign(st.slot / sp.slots_per_epoch, &st.fork, &sp);
    let deposit = builder.build();
    assert_eq!(
        process_deposits(&mut st, &vec![deposit], &sp),
        Err(GateError::DepositNotInEth1Data)
    );
}

#[test]
fn deposit_rejected_with_malformed_pubkey() {
    let (mut st, sp, _cfg) = fixture();
    let mut builder = DepositBuilder::new(vec![0xb1; 10], 32_000_000_000);
    builder.set_index(0);
    builder.sign(st.slot / sp.slots_per_epoch, &st.fork, &sp);
    let deposit = builder.build();
    corpusgen::gate::insert_eth1_data(&mut st, &deposit);
    assert_eq!(
        process_deposits(&mut st, &vec![deposit], &sp),
        Err(GateError::BadDepositPubkey)
    );
}

#[test]
fn transfer_rejected_to_unknown_recipient() {
    let (mut st, sp, _cfg) = fixture();
    let transfer = Transfer {
        sender: 0,
        recipient: 99,
        amount: 1,
        fee: 1,
        slot: st.slot,
        pubkey: vec![0xb1; 48],
        signature: vec![0u8; 96],
    };
    assert_eq!(
        process_transfers(&mut st, &vec![transfer], &sp),
        Err(GateError::BadRecipient)
    );
}

#[test]
fn transfer_rejected_on_recipient_overflow() {
    let (mut st, sp, _cfg) = fixture();
    let keypairs = fixture_keypairs(NUM_VALIDATORS);
    st.balances[1] = u64::MAX;
    let transfer = signed_transfer(
        Transfer {
            sender: 0,
            recipient: 1,
            amount: 2,
            fee: 1,
            slot: st.slot,
            pubkey: keypairs[0].pk.clone(),
            signature: Vec::new(),
        },
        &sp,
        &st.fork,
    );
    assert_eq!(
        process_transfers(&mut st, &vec![transfer], &sp),
        Err(GateError::BalanceOverflow)
    );
}

#[test]
fn transfer_rejected_at_wrong_slot() {
    let (mut st, sp, _cfg) = fixture();
    let keypairs = fixture_keypairs(NUM_VALIDATORS);
    let transfer = signed_transfer(
        Transfer {
            sender: 0,
            recipient: 1,
            amount: 1,
            fee: 1,
            slot: st.slot + 1,
            pubkey: keypairs[0].pk.clone(),
            signature: Vec::new(),
        },
        &sp,
        &st.fork,
    );
    assert_eq!(
        process_transfers(&mut st, &vec![transfer], &sp),
        Err(GateError::BadSlot)
    );
}

#[test]
fn slashing_double_vote_accepted() {
    let (mut st, sp, cfg) = fixture();
    let entry =
        generate_attester_slashing(&mut st, &sp, &cfg).expect("slashing must be accepted");
    match &entry.op {
        Operation::Slashing(sl) => {
            assert_eq!(
                sl.attestation_1.data.target_epoch,
                sl.attestation_2.data.target_epoch
            );
            assert_eq!(sl.attestation_1.attester_indices, sl.attestation_2.attester_indices);
            assert_ne!(
                sl.attestation_1.data.beacon_block_root,
                sl.attestation_2.data.beacon_block_root
            );
            assert_eq!(sl.attestation_1.attester_indices.len() as u64, NUM_VALIDATORS);
        }
        _ => panic!("wrong operation kind"),
    }
    // Every shared attester is marked slashed.
    for v in &st.validators {
        assert!(v.slashed);
    }
}

#[test]
fn slashing_rejected_for_identical_attestations() {
    let (mut st, sp, cfg) = fixture();
    let entry = generate_attester_slashing(&mut st, &sp, &cfg).unwrap();
    match entry.op {
        Operation::Slashing(sl) => {
            let twin = corpusgen::ops::AttesterSlashing {
                attestation_1: sl.attestation_1.clone(),
                attestation_2: sl.attestation_1.clone(),
            };
            let (mut fresh, _, _) = fixture();
            assert_eq!(
                corpusgen::gate::process_attester_slashings(&mut fresh, &vec![twin], &sp),
                Err(GateError::NotSlashable)
            );
        }
        _ => panic!("wrong operation kind"),
    }
}

#[test]
fn slashing_rejected_when_all_attesters_already_slashed() {
    let (mut st, sp, cfg) = fixture();
    generate_attester_slashing(&mut st, &sp, &cfg).unwrap();
    // A second identical slashing finds nobody left to slash.
    let res = generate_attester_slashing(&mut st, &sp, &cfg);
    assert_eq!(res.err(), Some(GateError::NoSlashableAttester));
}
