use dispatch_engine::bigint::{bigint_array_serializer, bigint_serializer};
use dispatch_engine::gate::{authorize_caller, authorize_owner};
use dispatch_engine::instruction::{decode_mint_target, decode_position, Header};
use dispatch_engine::object_id::to_full_obj_id;
use dispatch_engine::outcome::Rejection;
use dispatch_engine::player::{same_identity, Player};
use dispatch_engine::registry::Registry;

#[test]
fn full_object_id_appends_the_tags() {
    assert_eq!(to_full_obj_id(42), [42, 0xffff, 0xff01, 0xff02]);
    assert_eq!(to_full_obj_id(0), [0, 0xffff, 0xff01, 0xff02]);
    assert_eq!(to_full_obj_id(u64::MAX), [u64::MAX, 0xffff, 0xff01, 0xff02]);
}

#[test]
fn full_object_id_is_repeatable_and_injective() {
    for handle in [0u64, 1, 42, 0xffff, 0xff01, u64::MAX] {
        assert_eq!(to_full_obj_id(handle), to_full_obj_id(handle));
        assert_eq!(to_full_obj_id(handle)[1..], to_full_obj_id(handle ^ 1)[1..]);
        assert_ne!(to_full_obj_id(handle), to_full_obj_id(handle ^ 1));
    }
}

#[test]
fn header_fields_are_cut_from_the_word() {
    let header = Header::decode(0x0000_0000_0006_0201);
    assert_eq!(header, Header { opcode: 1, feature: 2, nonce: 6 });
    let header = Header::decode(u64::MAX);
    assert_eq!(header, Header { opcode: 0xff, feature: 0xff, nonce: 0xffff_ffff_ffff });
    let header = Header::decode(0);
    assert_eq!(header, Header { opcode: 0, feature: 0, nonce: 0 });
    let header = Header::decode(0x1234_5678_9abc_def0);
    assert_eq!(header, Header { opcode: 0xf0, feature: 0xde, nonce: 0x1234_5678_9abc });
}

#[test]
fn header_fields_rebuild_the_word() {
    for word in [0u64, 1, 0x0102_0304_0506_0708, u64::MAX, 393217] {
        let header = Header::decode(word);
        assert_eq!(header.nonce * 65536 + header.feature * 256 + header.opcode, word);
    }
}

#[test]
fn position_reads_two_little_endian_bytes() {
    assert_eq!(decode_position(1000), 1000);
    assert_eq!(decode_position(0x1_0000), 0);
    assert_eq!(decode_position(0xffff_ffff_ffff_ffff), 0xffff);
    let word: u64 = 0x1122_3344_5566_7788;
    let bytes = word.to_le_bytes();
    assert_eq!(decode_position(word), u16::from_le_bytes([bytes[0], bytes[1]]) as usize);
    assert_eq!(decode_position(word), 0x7788);
}

#[test]
fn mint_target_sits_between_zero_words() {
    assert_eq!(decode_mint_target(7, 8), [0, 7, 8, 0]);
    assert_eq!(decode_mint_target(u64::MAX, 0), [0, u64::MAX, 0, 0]);
}

#[test]
fn identities_compare_word_by_word() {
    assert!(same_identity(&[1, 2, 3, 4], &[1, 2, 3, 4]));
    assert!(!same_identity(&[1, 2, 3, 4], &[0, 2, 3, 4]));
    assert!(!same_identity(&[1, 2, 3, 4], &[1, 0, 3, 4]));
    assert!(!same_identity(&[1, 2, 3, 4], &[1, 2, 0, 4]));
    assert!(!same_identity(&[1, 2, 3, 4], &[1, 2, 3, 0]));
}

#[test]
fn fresh_player_has_nonce_zero_and_owns_nothing() {
    let player = Player::new([9, 8, 7, 6]);
    assert_eq!(player.identity(), [9, 8, 7, 6]);
    assert_eq!(player.nonce(), 0);
    assert!(!player.owns(0));
    assert!(player.owned_handles().is_empty());
}

#[test]
fn nonce_must_grow() {
    let mut player = Player::new([1, 0, 0, 0]);
    assert!(!player.check_and_increment_nonce(0));
    assert_eq!(player.nonce(), 0);
    assert!(player.check_and_increment_nonce(5));
    assert_eq!(player.nonce(), 5);
    assert!(!player.check_and_increment_nonce(5));
    assert!(!player.check_and_increment_nonce(4));
    assert_eq!(player.nonce(), 5);
    assert!(player.check_and_increment_nonce(6));
    assert_eq!(player.nonce(), 6);
    assert!(player.check_and_increment_nonce(u64::MAX));
    assert_eq!(player.nonce(), u64::MAX);
    assert!(!player.check_and_increment_nonce(u64::MAX));
}

#[test]
fn grant_and_revoke_keep_a_set() {
    let mut player = Player::new([1, 0, 0, 0]);
    player.grant(42);
    player.grant(7);
    player.grant(42);
    assert!(player.owns(42));
    assert!(player.owns(7));
    assert!(!player.owns(8));
    let mut handles = player.owned_handles();
    handles.sort();
    assert_eq!(handles, vec![7, 42]);
    player.revoke(42);
    assert!(!player.owns(42));
    assert!(player.owns(7));
    player.revoke(42);
    player.revoke(1000);
    assert_eq!(player.owned_handles(), vec![7]);
    assert_eq!(player.nonce(), 0);
    assert_eq!(player.identity(), [1, 0, 0, 0]);
}

#[test]
fn clone_holds_the_same_record() {
    let mut player = Player::new([1, 2, 3, 4]);
    assert!(player.check_and_increment_nonce(3));
    player.grant(5);
    let copy = player.clone();
    assert_eq!(copy, player);
    assert_eq!(copy.nonce(), 3);
    assert!(copy.owns(5));
}

#[test]
fn lookup_tells_absent_from_fresh() {
    let mut registry = Registry::new();
    assert_eq!(registry.lookup(&[1, 0, 0, 0]), None);
    registry.store(Player::new([1, 0, 0, 0]));
    assert_eq!(registry.lookup(&[1, 0, 0, 0]), Some(Player::new([1, 0, 0, 0])));
    assert_eq!(registry.lookup(&[0, 0, 0, 1]), None);
}

#[test]
fn store_replaces_the_record_of_its_identity() {
    let mut registry = Registry::new();
    let mut first = Player::new([1, 0, 0, 0]);
    first.grant(1);
    let mut second = Player::new([2, 0, 0, 0]);
    second.grant(2);
    registry.store(first.clone());
    registry.store(second.clone());
    assert!(first.check_and_increment_nonce(8));
    first.grant(3);
    registry.store(first.clone());
    assert_eq!(registry.lookup(&[1, 0, 0, 0]), Some(first));
    assert_eq!(registry.lookup(&[2, 0, 0, 0]), Some(second));
}

#[test]
fn lookup_hands_out_a_copy() {
    let mut registry = Registry::new();
    registry.store(Player::new([1, 0, 0, 0]));
    let mut copy = registry.lookup(&[1, 0, 0, 0]).unwrap();
    assert!(copy.check_and_increment_nonce(4));
    copy.grant(9);
    assert_eq!(registry.lookup(&[1, 0, 0, 0]).unwrap().nonce(), 0);
    assert!(!registry.lookup(&[1, 0, 0, 0]).unwrap().owns(9));
}

#[test]
fn caller_check_gives_each_rejection() {
    let mut registry = Registry::new();
    let mut player = Player::new([1, 0, 0, 0]);
    assert!(player.check_and_increment_nonce(5));
    player.grant(42);
    registry.store(player);
    assert_eq!(authorize_caller(&registry, &[2, 0, 0, 0], 6), Err(Rejection::UnknownIdentity));
    assert_eq!(authorize_caller(&registry, &[1, 0, 0, 0], 5), Err(Rejection::StaleNonce));
    let admitted = authorize_caller(&registry, &[1, 0, 0, 0], 6).unwrap();
    assert_eq!(admitted.nonce(), 6);
    assert_eq!(admitted.identity(), [1, 0, 0, 0]);
    assert!(admitted.owns(42));
    assert_eq!(registry.lookup(&[1, 0, 0, 0]).unwrap().nonce(), 5);
}

#[test]
fn owner_check_gives_each_rejection() {
    let mut registry = Registry::new();
    let mut player = Player::new([1, 0, 0, 0]);
    assert!(player.check_and_increment_nonce(5));
    player.grant(42);
    registry.store(player);
    assert_eq!(authorize_owner(&registry, &[2, 0, 0, 0], 6, 42), Err(Rejection::UnknownIdentity));
    assert_eq!(authorize_owner(&registry, &[1, 0, 0, 0], 5, 42), Err(Rejection::StaleNonce));
    assert_eq!(authorize_owner(&registry, &[1, 0, 0, 0], 6, 43), Err(Rejection::NotOwner));
    let admitted = authorize_owner(&registry, &[1, 0, 0, 0], 6, 42).unwrap();
    assert_eq!(admitted.nonce(), 6);
    assert_eq!(registry.lookup(&[1, 0, 0, 0]).unwrap().nonce(), 5);
}

#[test]
fn words_are_shown_in_decimal() {
    assert_eq!(bigint_serializer(&0), "0");
    assert_eq!(bigint_serializer(&7), "7");
    assert_eq!(bigint_serializer(&10), "10");
    assert_eq!(bigint_serializer(&42), "42");
    assert_eq!(bigint_serializer(&1000), "1000");
    assert_eq!(bigint_serializer(&9_007_199_254_740_993), "9007199254740993");
    assert_eq!(bigint_serializer(&u64::MAX), "18446744073709551615");
    for value in [1u64, 9, 99, 100, 101, 65535, 65536, 1 << 32, 1 << 63] {
        assert_eq!(bigint_serializer(&value), value.to_string());
    }
}

#[test]
fn lists_of_words_are_shown_in_order() {
    assert_eq!(bigint_array_serializer(&vec![]), Vec::<String>::new());
    assert_eq!(
        bigint_array_serializer(&vec![1, 0, u64::MAX, 1234567890]),
        vec!["1", "0", "18446744073709551615", "1234567890"]
    );
}
