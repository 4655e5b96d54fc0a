use alloy_sol_types::{sol_data, SolType};
use channel_consumption::contracts::consumption::{
    encode_consumption, hash_consumption, ConsumptionParam, CONSUMPTION_TYPE,
};
use channel_consumption::utils::eip712::{
    encode_domain, encode_typed_data, Eip712, Eip712Params, Environment, DOMAIN_TYPE,
};
use channel_consumption::utils::errors::Errors;
use channel_consumption::utils::primitives::{Address, B256, U256};
use inkmate_common::crypto::ecrecover::EcdsaError;

const SEPARATOR_CHAIN_1: [u8; 32] = [
    0x46, 0x94, 0x3e, 0xf9, 0x0d, 0x6e, 0x31, 0x5d, 0xab, 0x58, 0x4f, 0xf0, 0x78, 0x20, 0x9e, 0x0f,
    0x5c, 0x4a, 0x1a, 0x0f, 0x55, 0x30, 0x20, 0xb0, 0x4b, 0x61, 0xd9, 0x98, 0x13, 0xb7, 0x93, 0x92,
];

const SEPARATOR_CHAIN_42161: [u8; 32] = [
    0x02, 0xeb, 0x58, 0x01, 0x88, 0x7d, 0x7c, 0xa1, 0xf8, 0x9f, 0xea, 0xad, 0x2e, 0x0f, 0x74, 0x01,
    0x9b, 0x8e, 0x59, 0xc8, 0xa4, 0xc3, 0x94, 0x26, 0x4f, 0x2d, 0x4a, 0x02, 0xb7, 0xe1, 0xbc, 0x9e,
];

const STRUCT_HASH: [u8; 32] = [
    0x1d, 0x2f, 0x69, 0x26, 0x8f, 0x64, 0x0b, 0x8a, 0x7a, 0x96, 0xf6, 0xa7, 0xab, 0xae, 0xd4, 0x74,
    0xec, 0xed, 0xb1, 0xd9, 0xd2, 0x42, 0x55, 0x75, 0x96, 0xfd, 0xb2, 0x3e, 0xbe, 0x58, 0xe0, 0xa8,
];

const DIGEST: [u8; 32] = [
    0x0e, 0x94, 0x32, 0xa6, 0x56, 0x93, 0x24, 0x92, 0x92, 0x59, 0x6d, 0x72, 0x21, 0x90, 0xcc, 0xd8,
    0x81, 0xfd, 0x1d, 0x83, 0x54, 0xbb, 0x87, 0xa3, 0x37, 0xf5, 0x6c, 0x87, 0xca, 0x5c, 0x72, 0x38,
];

fn env(chain_id: u64) -> Environment {
    Environment { chain_id, contract_address: Address([0x11u8; 20]) }
}

fn user() -> Address {
    let mut bytes = [0u8; 20];
    bytes[19] = 0x0c;
    Address(bytes)
}

#[test]
fn domain_parameters() {
    assert_eq!(ConsumptionParam::name(), "ChannelConsumption");
    assert_eq!(ConsumptionParam::version(), "0.0.1");
    assert_eq!(
        DOMAIN_TYPE,
        "EIP712Domain(string name,string version,uint256 chainId,address verifyingContract)"
    );
    assert_eq!(
        CONSUMPTION_TYPE,
        "ValidateConsumption(address user,bytes32 channelId,uint256 addedConsumption,uint256 deadline)"
    );
}

#[test]
fn fresh_separator_has_the_known_value() {
    let cache: Eip712<ConsumptionParam> = Eip712::new();
    assert_eq!(cache.read_domain_separator(&env(1)), Ok(B256(SEPARATOR_CHAIN_1)));
    assert_eq!(cache.read_domain_separator(&env(42161)), Ok(B256(SEPARATOR_CHAIN_42161)));
    assert_eq!(cache.cached_chain_id(), 0);
    assert_eq!(cache.cached_domain_separator(), B256([0u8; 32]));
}

#[test]
fn fresh_separator_depends_on_the_contract() {
    let cache: Eip712<ConsumptionParam> = Eip712::new();
    let elsewhere = Environment { chain_id: 1, contract_address: Address([0x12u8; 20]) };
    assert_ne!(cache.read_domain_separator(&elsewhere), Ok(B256(SEPARATOR_CHAIN_1)));
}

#[test]
fn separator_is_what_the_outside_crates_compute() {
    let type_hash = alloy_primitives::keccak256(DOMAIN_TYPE.as_bytes());
    let name_hash = alloy_primitives::keccak256("ChannelConsumption".as_bytes());
    let version_hash = alloy_primitives::keccak256("0.0.1".as_bytes());
    let encoded = <(
        sol_data::FixedBytes<32>,
        sol_data::FixedBytes<32>,
        sol_data::FixedBytes<32>,
        sol_data::Uint<256>,
        sol_data::Address,
    ) as SolType>::abi_encode(&(
        type_hash,
        name_hash,
        version_hash,
        alloy_primitives::U256::from(42161u64),
        alloy_primitives::Address::from([0x11u8; 20]),
    ));
    assert_eq!(
        encode_domain(
            &B256(type_hash.0),
            &B256(name_hash.0),
            &B256(version_hash.0),
            42161,
            &Address([0x11u8; 20])
        ),
        encoded
    );
    let cache: Eip712<ConsumptionParam> = Eip712::new();
    assert_eq!(
        cache.read_domain_separator(&env(42161)),
        Ok(B256(alloy_primitives::keccak256(&encoded).0))
    );
}

#[test]
fn initialize_fills_the_cache() {
    let mut cache: Eip712<ConsumptionParam> = Eip712::new();
    cache.initialize(&env(1));
    assert_eq!(cache.cached_chain_id(), 1);
    assert_eq!(cache.cached_domain_separator(), B256(SEPARATOR_CHAIN_1));
}

#[test]
fn cached_read_equals_fresh_read() {
    let mut cache: Eip712<ConsumptionParam> = Eip712::new();
    cache.initialize(&env(1));
    let fresh = cache.read_domain_separator(&env(1));
    assert_eq!(cache.domain_separator(&env(1)), fresh);
    assert_eq!(cache.domain_separator(&env(1)), fresh);
    assert_eq!(cache.cached_chain_id(), 1);
    assert_eq!(cache.cached_domain_separator(), B256(SEPARATOR_CHAIN_1));
}

#[test]
fn chain_change_recomputes_and_updates_the_cache() {
    let mut cache: Eip712<ConsumptionParam> = Eip712::new();
    cache.initialize(&env(1));
    assert_eq!(cache.domain_separator(&env(42161)), Ok(B256(SEPARATOR_CHAIN_42161)));
    assert_eq!(cache.cached_chain_id(), 42161);
    assert_eq!(cache.cached_domain_separator(), B256(SEPARATOR_CHAIN_42161));
    assert_eq!(cache.domain_separator(&env(1)), Ok(B256(SEPARATOR_CHAIN_1)));
    assert_eq!(cache.cached_chain_id(), 1);
}

#[test]
fn first_read_of_an_empty_cache_computes() {
    let mut cache: Eip712<ConsumptionParam> = Eip712::new();
    assert_eq!(cache.domain_separator(&env(1)), Ok(B256(SEPARATOR_CHAIN_1)));
    assert_eq!(cache.cached_chain_id(), 1);
    assert_eq!(cache.cached_domain_separator(), B256(SEPARATOR_CHAIN_1));
}

#[test]
fn matching_chain_id_is_a_pure_read() {
    let mut cache: Eip712<ConsumptionParam> = Eip712::from_cache(1, B256([7u8; 32]));
    assert_eq!(cache.domain_separator(&env(1)), Ok(B256([7u8; 32])));
    assert_eq!(cache.cached_chain_id(), 1);
    assert_eq!(cache.cached_domain_separator(), B256([7u8; 32]));

    let mut empty: Eip712<ConsumptionParam> = Eip712::new();
    assert_eq!(empty.domain_separator(&env(0)), Ok(B256([0u8; 32])));
    assert_eq!(empty.cached_domain_separator(), B256([0u8; 32]));
}

#[test]
fn typed_data_layout() {
    let preimage = encode_typed_data(&B256([0xaau8; 32]), &B256([0xbbu8; 32]));
    assert_eq!(preimage.len(), 66);
    assert_eq!(&preimage[0..2], &[0x19u8, 0x01u8][..]);
    assert_eq!(&preimage[2..34], &[0xaau8; 32][..]);
    assert_eq!(&preimage[34..66], &[0xbbu8; 32][..]);
}

#[test]
fn struct_hash_has_the_known_value() {
    let hash = hash_consumption(
        &user(),
        &B256([1u8; 32]),
        &U256::from_u64(100),
        &U256::from_u64(1_700_000_000),
    );
    assert_eq!(hash, B256(STRUCT_HASH));
}

#[test]
fn struct_hash_binds_every_field() {
    let base = hash_consumption(
        &user(),
        &B256([1u8; 32]),
        &U256::from_u64(100),
        &U256::from_u64(1_700_000_000),
    );
    assert_ne!(
        hash_consumption(
            &Address([0u8; 20]),
            &B256([1u8; 32]),
            &U256::from_u64(100),
            &U256::from_u64(1_700_000_000)
        ),
        base
    );
    assert_ne!(
        hash_consumption(
            &user(),
            &B256([2u8; 32]),
            &U256::from_u64(100),
            &U256::from_u64(1_700_000_000)
        ),
        base
    );
    assert_ne!(
        hash_consumption(
            &user(),
            &B256([1u8; 32]),
            &U256::from_u64(101),
            &U256::from_u64(1_700_000_000)
        ),
        base
    );
    assert_ne!(
        hash_consumption(
            &user(),
            &B256([1u8; 32]),
            &U256::from_u64(100),
            &U256::from_u64(1_700_000_001)
        ),
        base
    );
}

#[test]
fn struct_layout_is_what_the_outside_crate_encodes() {
    let type_hash = alloy_primitives::keccak256(CONSUMPTION_TYPE.as_bytes());
    let encoded = <(
        sol_data::FixedBytes<32>,
        sol_data::Address,
        sol_data::FixedBytes<32>,
        sol_data::Uint<256>,
        sol_data::Uint<256>,
    ) as SolType>::abi_encode(&(
        type_hash,
        alloy_primitives::Address::from(user().0),
        alloy_primitives::FixedBytes::<32>::from([1u8; 32]),
        alloy_primitives::U256::from(100u64),
        alloy_primitives::U256::from(1_700_000_000u64),
    ));
    assert_eq!(encoded.len(), 160);
    assert_eq!(
        encode_consumption(
            &B256(type_hash.0),
            &user(),
            &B256([1u8; 32]),
            &U256::from_u64(100),
            &U256::from_u64(1_700_000_000)
        ),
        encoded
    );
}

#[test]
fn signing_digest_has_the_known_value() {
    let mut cache: Eip712<ConsumptionParam> = Eip712::new();
    let digest = cache.signing_digest(&env(1), &B256(STRUCT_HASH));
    assert_eq!(digest, B256(DIGEST));
    assert_eq!(cache.cached_chain_id(), 1);
    assert_eq!(cache.cached_domain_separator(), B256(SEPARATOR_CHAIN_1));
    assert_eq!(cache.signing_digest(&env(1), &B256(STRUCT_HASH)), B256(DIGEST));
    assert_ne!(cache.signing_digest(&env(42161), &B256(STRUCT_HASH)), B256(DIGEST));
    assert_eq!(cache.cached_chain_id(), 42161);
}

#[test]
fn signing_digest_uses_the_cached_separator() {
    let mut cache: Eip712<ConsumptionParam> = Eip712::from_cache(1, B256([7u8; 32]));
    let digest = cache.signing_digest(&env(1), &B256(STRUCT_HASH));
    let preimage = encode_typed_data(&B256([7u8; 32]), &B256(STRUCT_HASH));
    assert_eq!(digest, B256(alloy_primitives::keccak256(&preimage).0));
}

#[test]
fn recovered_signer_is_passed_on() {
    assert_eq!(
        Eip712::<ConsumptionParam>::recover_typed_data_signer(Ok([5u8; 20])),
        Ok(Address([5u8; 20]))
    );
    assert_eq!(
        Eip712::<ConsumptionParam>::recover_typed_data_signer(Ok([0u8; 20])),
        Ok(Address([0u8; 20]))
    );
}

#[test]
fn failed_recovery_is_an_error() {
    assert_eq!(
        Eip712::<ConsumptionParam>::recover_typed_data_signer(Err(EcdsaError)),
        Err(Errors::EcRecoverError)
    );
}
