use corpusgen::bytes::{u64_from_le_bytes, u64_to_le_bytes};
use corpusgen::codec::{encode_exit, encode_operation, encode_slashing, encode_transfer};
use corpusgen::config::{ChainSpec, Domain, Fork, GenConfig};
use corpusgen::generate::{generate_deposit, generate_transfer, generate_voluntary_exit};
use corpusgen::ops::{
    AttestationData, AttesterSlashing, IndexedAttestation, Transfer, VoluntaryExit,
};
use corpusgen::state::{fixture_keypairs, minimal_state, RelativeEpoch};

#[test]
fn le_bytes_round_trip() {
    let v: u64 = 0x0123_4567_89ab_cdef;
    let b = u64_to_le_bytes(v);
    assert_eq!(b, vec![0xef, 0xcd, 0xab, 0x89, 0x67, 0x45, 0x23, 0x01]);
    assert_eq!(u64_from_le_bytes(&b, 0), v);
}

#[test]
fn exit_encoding_is_exact() {
    let exit = VoluntaryExit { epoch: 1, validator_index: 2, signature: vec![7u8; 96] };
    let bytes = encode_exit(&exit);
    assert_eq!(bytes.len(), 112);
    let mut expected = vec![1u8, 0, 0, 0, 0, 0, 0, 0, 2, 0, 0, 0, 0, 0, 0, 0];
    expected.extend_from_slice(&[7u8; 96]);
    assert_eq!(bytes, expected);
}

#[test]
fn transfer_encoding_is_exact() {
    let t = Transfer {
        sender: 3,
        recipient: 1,
        amount: 256,
        fee: 2,
        slot: 9,
        pubkey: vec![0xb1; 48],
        signature: vec![0x5e; 96],
    };
    let bytes = encode_transfer(&t);
    assert_eq!(bytes.len(), 184);
    assert_eq!(&bytes[0..8], &[3, 0, 0, 0, 0, 0, 0, 0]);
    assert_eq!(&bytes[8..16], &[1, 0, 0, 0, 0, 0, 0, 0]);
    assert_eq!(&bytes[16..24], &[0, 1, 0, 0, 0, 0, 0, 0]);
    assert_eq!(&bytes[24..32], &[2, 0, 0, 0, 0, 0, 0, 0]);
    assert_eq!(&bytes[32..40], &[9, 0, 0, 0, 0, 0, 0, 0]);
    assert_eq!(&bytes[40..88], &[0xb1; 48]);
    assert_eq!(&bytes[88..184], &[0x5e; 96]);
}

#[test]
fn slashing_encoding_layout() {
    let att = |root: u8| IndexedAttestation {
        attester_indices: vec![0, 1, 2],
        data: AttestationData {
            source_epoch: 0,
            target_epoch: 4,
            beacon_block_root: vec![root; 32],
        },
        signature: vec![9u8; 96],
    };
    let sl = AttesterSlashing { attestation_1: att(1), attestation_2: att(2) };
    let bytes = encode_slashing(&sl);
    // Each attestation encodes count, indices, source, target, root and
    // signature: 8 + 24 + 8 + 8 + 32 + 96 == 176 bytes.
    let att_len = 8 + 24 + 8 + 8 + 32 + 96;
    assert_eq!(bytes.len(), 8 + 2 * att_len);
    assert_eq!(&bytes[0..8], &[att_len as u8, 0, 0, 0, 0, 0, 0, 0]);
    // The first attestation's count field.
    assert_eq!(&bytes[8..16], &[3, 0, 0, 0, 0, 0, 0, 0]);
}

#[test]
fn hex_rendering_matches_reference_encoder() {
    let sp = ChainSpec::minimal();
    let cfg = GenConfig::fixture();
    let mut st = minimal_state(&cfg, &sp);
    let entry = generate_voluntary_exit(&mut st, &sp, &cfg).unwrap();
    // The exit's epoch is 4 + 2048 == 2052 == 0x0804, little-endian first.
    assert!(entry.hex.starts_with("0408000000000000"));
    assert_eq!(entry.hex, hex::encode(&entry.bytes));
}

#[test]
fn emitted_hex_round_trips_for_every_kind() {
    let sp = ChainSpec::minimal();
    let cfg = GenConfig::fixture();
    let keypairs = fixture_keypairs(cfg.num_validators + 2);

    let mut st = minimal_state(&cfg, &sp);
    let exit = generate_voluntary_exit(&mut st, &sp, &cfg).unwrap();
    let mut st = minimal_state(&cfg, &sp);
    let deposit = generate_deposit(&mut st, &keypairs, &sp, &cfg).unwrap();
    let mut st = minimal_state(&cfg, &sp);
    let transfer = generate_transfer(&mut st, &keypairs, &sp).unwrap();

    for entry in [exit, deposit, transfer] {
        let decoded = hex::decode(&entry.hex).expect("hex must decode");
        assert_eq!(decoded, entry.bytes);
        assert_eq!(hex::encode(&decoded), entry.hex);
        assert_eq!(entry.bytes, encode_operation(&entry.op));
        assert_eq!(entry.hex.len(), 2 * entry.bytes.len());
    }
}

#[test]
fn domain_mixes_fork_version_in_force() {
    let sp = ChainSpec::minimal();
    let fork = Fork { previous_version: 7, current_version: 9, epoch: 5 };
    // Before the fork epoch the previous version is in force.
    assert_eq!(sp.get_domain(4, Domain::VoluntaryExit, &fork), 4 + (7u64 << 32));
    assert_eq!(sp.get_domain(5, Domain::VoluntaryExit, &fork), 4 + (9u64 << 32));
    assert_eq!(sp.get_domain(5, Domain::Transfer, &fork), 5 + (9u64 << 32));
}

#[test]
fn proposer_selection_is_slot_and_epoch_dependent() {
    let sp = ChainSpec::minimal();
    let cfg = GenConfig::fixture();
    let st = minimal_state(&cfg, &sp);
    // Slot 32, epoch 4, eight validators: (32 + 4) % 8 == 4.
    assert_eq!(
        st.get_beacon_proposer_index(st.slot, RelativeEpoch::Current, &sp),
        Some(4)
    );
    assert_eq!(
        st.get_beacon_proposer_index(st.slot, RelativeEpoch::Previous, &sp),
        Some(3)
    );
    assert_eq!(
        st.get_beacon_proposer_index(st.slot, RelativeEpoch::Next, &sp),
        Some(5)
    );
    let empty_cfg = GenConfig { num_validators: 0, state_epoch: 4 };
    let empty = minimal_state(&empty_cfg, &sp);
    assert_eq!(
        empty.get_beacon_proposer_index(empty.slot, RelativeEpoch::Current, &sp),
        None
    );
}

#[test]
fn fixture_keypairs_are_deterministic_and_sized() {
    let kps = fixture_keypairs(10);
    assert_eq!(kps.len(), 10);
    for (i, kp) in kps.iter().enumerate() {
        assert_eq!(kp.sk.len(), 32);
        assert_eq!(kp.pk.len(), 48);
        assert_eq!(&kp.pk[0..8], &u64_to_le_bytes(i as u64)[..]);
    }
    let again = fixture_keypairs(10);
    for i in 0..10 {
        assert_eq!(kps[i].pk, again[i].pk);
        assert_eq!(kps[i].sk, again[i].sk);
    }
}
