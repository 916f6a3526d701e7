use anchor_lang::prelude::Pubkey;
use voltchain::address::Address;
use voltchain::encoding::u64_to_le_bytes;
use voltchain::record_key::{
    RecordKey, POOL_SEED, SALE_SEED, USER_CLAIM_SEED, USER_POSITION_SEED,
};

fn address(tag: u8) -> Address {
    Address::new([tag; 32])
}

fn program_id() -> Address {
    let mut bytes = [0u8; 32];
    let mut i = 0;
    while i < 32 {
        bytes[i] = (i as u8) * 7 + 1;
        i += 1;
    }
    Address::new(bytes)
}

fn keys() -> Vec<RecordKey> {
    vec![
        RecordKey::Pool,
        RecordKey::UserPosition { owner: address(3) },
        RecordKey::UserPosition { owner: address(4) },
        RecordKey::Sale { id: 0 },
        RecordKey::Sale { id: 1 },
        RecordKey::Sale { id: 256 },
        RecordKey::UserClaim { owner: address(3), sale_id: 0 },
        RecordKey::UserClaim { owner: address(3), sale_id: 1 },
        RecordKey::UserClaim { owner: address(4), sale_id: 0 },
    ]
}

#[test]
fn seed_tags_are_ascii_names() {
    assert_eq!(&POOL_SEED, b"pool");
    assert_eq!(&USER_POSITION_SEED, b"user_position");
    assert_eq!(&SALE_SEED, b"sale");
    assert_eq!(&USER_CLAIM_SEED, b"user_claim");
}

#[test]
fn little_endian_bytes_match_std() {
    assert_eq!(u64_to_le_bytes(0), vec![0u8; 8]);
    assert_eq!(u64_to_le_bytes(1), vec![1, 0, 0, 0, 0, 0, 0, 0]);
    assert_eq!(u64_to_le_bytes(256), vec![0, 1, 0, 0, 0, 0, 0, 0]);
    assert_eq!(u64_to_le_bytes(0x0102030405060708), vec![8, 7, 6, 5, 4, 3, 2, 1]);
    assert_eq!(u64_to_le_bytes(u64::MAX), vec![255u8; 8]);
    let samples = [0u64, 1, 255, 256, 65_535, 1_000_000, 1 << 40, u64::MAX - 1, u64::MAX];
    for x in samples {
        assert_eq!(u64_to_le_bytes(x), x.to_le_bytes().to_vec());
    }
}

#[test]
fn seeds_of_each_kind() {
    let owner = address(3);
    assert_eq!(RecordKey::Pool.seeds(), vec![b"pool".to_vec()]);
    assert_eq!(
        RecordKey::UserPosition { owner }.seeds(),
        vec![b"user_position".to_vec(), vec![3u8; 32]]
    );
    assert_eq!(
        RecordKey::Sale { id: 258 }.seeds(),
        vec![b"sale".to_vec(), vec![2, 1, 0, 0, 0, 0, 0, 0]]
    );
    assert_eq!(
        RecordKey::UserClaim { owner, sale_id: 1 }.seeds(),
        vec![b"user_claim".to_vec(), vec![3u8; 32], vec![1, 0, 0, 0, 0, 0, 0, 0]]
    );
}

#[test]
fn seeds_are_collision_free() {
    let all = keys();
    for (i, a) in all.iter().enumerate() {
        for (j, b) in all.iter().enumerate() {
            let same_bytes = a.seeds().concat() == b.seeds().concat();
            assert_eq!(same_bytes, i == j);
            assert_eq!(a.seeds() == b.seeds(), i == j);
        }
    }
}

#[test]
fn derived_address_is_the_program_address() {
    let id = program_id();
    let outside_id = Pubkey::new_from_array(id.bytes);
    for key in keys() {
        let seeds = key.seeds();
        let parts: Vec<&[u8]> = seeds.iter().map(|seed| seed.as_slice()).collect();
        let (expected, expected_bump) = Pubkey::find_program_address(&parts, &outside_id);
        let (found, bump) = key.find_address(&id).unwrap();
        assert_eq!(found.bytes, expected.to_bytes());
        assert_eq!(bump, expected_bump);
        // The result is derived, not handed through.
        assert_ne!(found, id);
        for seed in seeds.iter() {
            assert_ne!(found.bytes.to_vec(), *seed);
        }
    }
}

#[test]
fn derived_address_is_rebuilt_from_its_bump() {
    let id = program_id();
    let outside_id = Pubkey::new_from_array(id.bytes);
    for key in keys() {
        let (found, bump) = key.find_address(&id).unwrap();
        let mut seeds = key.seeds();
        seeds.push(vec![bump]);
        let parts: Vec<&[u8]> = seeds.iter().map(|seed| seed.as_slice()).collect();
        let rebuilt = Pubkey::create_program_address(&parts, &outside_id).unwrap();
        assert_eq!(rebuilt.to_bytes(), found.bytes);
    }
}

#[test]
fn derived_addresses_differ_by_key_and_program() {
    let id = program_id();
    let all = keys();
    for (i, a) in all.iter().enumerate() {
        for (j, b) in all.iter().enumerate() {
            let same = a.find_address(&id).unwrap().0 == b.find_address(&id).unwrap().0;
            assert_eq!(same, i == j);
        }
    }
    assert_ne!(
        RecordKey::Pool.find_address(&id).unwrap().0,
        RecordKey::Pool.find_address(&address(9)).unwrap().0
    );
    assert_eq!(RecordKey::Pool.find_address(&id), RecordKey::Pool.find_address(&id));
}
