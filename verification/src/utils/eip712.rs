//! EIP-712 domain separation with a cache that follows the chain id, and the
//! digest that a typed-data signature is made over.

use crate::utils::errors::Errors;
use crate::utils::hashing::{append_bytes, keccak, keccak256};
use crate::utils::primitives::{u64_word, Address, B256, U256};
use crate::utils::solidity::{address_word, append_address};
use core::marker::PhantomData;
use inkmate_common::crypto::ecrecover::EcdsaError;
use vstd::prelude::*;
use vstd::string::StringSliceAdditionalSpecFns;
use vstd::utf8::encode_utf8;

verus! {

/// The error of `inkmate_common`'s `ecrecover`: recovery failed. It carries
/// nothing.
#[verifier::external_type_specification]
#[verifier::external_body]
pub struct ExEcdsaError(EcdsaError);

/// The type descriptor of the EIP-712 domain.
pub const DOMAIN_TYPE: &'static str =
    "EIP712Domain(string name,string version,uint256 chainId,address verifyingContract)";

/// What the host says of the call at hand.
#[derive(Clone, Copy, Debug)]
pub struct Environment {
    /// The id of the chain that the contract runs on.
    pub chain_id: u64,
    /// The contract's own address.
    pub contract_address: Address,
}

/// The name and version that a contract signs under.
pub trait Eip712Params {
    /// The name of the signing domain.
    spec fn domain_name() -> Seq<char>;

    /// The version of the signing domain.
    spec fn domain_version() -> Seq<char>;

    /// The name of the signing domain.
    fn name() -> (name: &'static str)
        ensures
            name@ == Self::domain_name(),
    ;

    /// The version of the signing domain.
    fn version() -> (version: &'static str)
        ensures
            version@ == Self::domain_version(),
    ;
}

/// The bytes that are hashed into a domain separator: the five words of the
/// domain, in order.
pub open spec fn domain_preimage(
    type_hash: Seq<u8>,
    name_hash: Seq<u8>,
    version_hash: Seq<u8>,
    chain_id: u64,
    contract_address: Seq<u8>,
) -> Seq<u8> {
    type_hash + name_hash + version_hash + u64_word(chain_id) + address_word(contract_address)
}

/// The domain separator of a name and version on a chain, for a contract.
pub open spec fn domain_separator_of(
    name: Seq<u8>,
    version: Seq<u8>,
    chain_id: u64,
    contract_address: Seq<u8>,
) -> Seq<u8> {
    keccak256(
        domain_preimage(
            keccak256(DOMAIN_TYPE.spec_bytes()),
            keccak256(name),
            keccak256(version),
            chain_id,
            contract_address,
        ),
    )
}

/// The 66 bytes that a typed-data signature is made over, before hashing: the
/// prefix `0x19 0x01`, the domain separator, the hash of the signed struct.
pub open spec fn typed_data_preimage(domain_separator: Seq<u8>, struct_hash: Seq<u8>) -> Seq<u8> {
    seq![0x19u8, 0x01u8] + domain_separator + struct_hash
}

/// The digest that a typed-data signature is made over.
pub open spec fn typed_data_digest(domain_separator: Seq<u8>, struct_hash: Seq<u8>) -> Seq<u8> {
    keccak256(typed_data_preimage(domain_separator, struct_hash))
}

/// Lays out the five words of a domain.
pub fn encode_domain(
    type_hash: &B256,
    name_hash: &B256,
    version_hash: &B256,
    chain_id: u64,
    contract_address: &Address,
) -> (preimage: Vec<u8>)
    ensures
        preimage@ == domain_preimage(
            type_hash@,
            name_hash@,
            version_hash@,
            chain_id,
            contract_address@,
        ),
{
    let mut preimage: Vec<u8> = Vec::new();
    append_bytes(&mut preimage, type_hash.0.as_slice());
    append_bytes(&mut preimage, name_hash.0.as_slice());
    append_bytes(&mut preimage, version_hash.0.as_slice());
    let chain_word = U256::from_u64(chain_id);
    append_bytes(&mut preimage, chain_word.0.as_slice());
    append_address(&mut preimage, contract_address);
    assert(preimage@ =~= domain_preimage(
        type_hash@,
        name_hash@,
        version_hash@,
        chain_id,
        contract_address@,
    ));
    preimage
}

/// Lays out the bytes that a typed-data signature is made over.
pub fn encode_typed_data(domain_separator: &B256, struct_hash: &B256) -> (preimage: Vec<u8>)
    ensures
        preimage@ == typed_data_preimage(domain_separator@, struct_hash@),
        preimage@.len() == 66,
{
    let mut preimage: Vec<u8> = Vec::new();
    preimage.push(0x19u8);
    preimage.push(0x01u8);
    append_bytes(&mut preimage, domain_separator.0.as_slice());
    append_bytes(&mut preimage, struct_hash.0.as_slice());
    assert(preimage@ =~= typed_data_preimage(domain_separator@, struct_hash@));
    preimage
}

/// What a separator cache holds.
pub struct CachedSeparator {
    /// The chain id that the separator was computed for.
    pub chain_id: u64,
    /// The separator.
    pub separator: Seq<u8>,
}

/// A domain separator with the chain id that it was computed for.
pub struct Eip712<T: Eip712Params> {
    cached_chain_id: u64,
    cached_domain_separator: B256,
    phantom: PhantomData<T>,
}

impl<T: Eip712Params> View for Eip712<T> {
    type V = CachedSeparator;

    closed spec fn view(&self) -> CachedSeparator {
        CachedSeparator {
            chain_id: self.cached_chain_id,
            separator: self.cached_domain_separator@,
        }
    }
}

impl<T: Eip712Params> Eip712<T> {
    /// The separator of `T`'s name and version in an environment.
    pub open spec fn fresh_separator(env: Environment) -> Seq<u8> {
        domain_separator_of(
            encode_utf8(T::domain_name()),
            encode_utf8(T::domain_version()),
            env.chain_id,
            env.contract_address@,
        )
    }

    /// Whether the cached separator is the one of the cached chain id, for a
    /// contract at `contract_address`.
    pub open spec fn holds(cache: CachedSeparator, contract_address: Address) -> bool {
        cache.separator == Self::fresh_separator(
            Environment { chain_id: cache.chain_id, contract_address },
        )
    }

    /// The separator that a read through the cache gives in `env`: the cached
    /// one while the chain id is the cached one, a fresh one otherwise.
    pub open spec fn read(cache: CachedSeparator, env: Environment) -> Seq<u8> {
        if env.chain_id == cache.chain_id {
            cache.separator
        } else {
            Self::fresh_separator(env)
        }
    }

    /// The cache after a read in `env`: it holds what the read gave, for the
    /// chain id of `env`.
    pub open spec fn refreshed(cache: CachedSeparator, env: Environment) -> CachedSeparator {
        CachedSeparator { chain_id: env.chain_id, separator: Self::read(cache, env) }
    }

    /// While the chain id is the one that the separator was cached for, a
    /// read through the cache gives what a fresh computation gives, leaves
    /// the cache as it is, and so does every read after it.
    pub proof fn lemma_cached_read_is_fresh(cache: CachedSeparator, env: Environment)
        requires
            Self::holds(cache, env.contract_address),
            cache.chain_id == env.chain_id,
        ensures
            Self::read(cache, env) == Self::fresh_separator(env),
            Self::refreshed(cache, env) == cache,
    {
    }

    /// On another chain id than the cached one, a read computes the
    /// separator anew, and the cache then holds it for the new chain id: the
    /// next read there is a cached one and gives the same.
    pub proof fn lemma_chain_change_recomputes(cache: CachedSeparator, env: Environment)
        requires
            cache.chain_id != env.chain_id,
        ensures
            Self::read(cache, env) == Self::fresh_separator(env),
            Self::refreshed(cache, env).chain_id == env.chain_id,
            Self::holds(Self::refreshed(cache, env), env.contract_address),
            Self::read(Self::refreshed(cache, env), env) == Self::fresh_separator(env),
    {
    }

    /// A cache that holds nothing yet: chain id zero and a zero separator.
    pub fn new() -> (cache: Self)
        ensures
            cache@.chain_id == 0,
            cache@.separator == Seq::new(32, |i: int| 0u8),
    {
        let cache = Eip712 {
            cached_chain_id: 0,
            cached_domain_separator: B256([0u8; 32]),
            phantom: PhantomData,
        };
        assert(cache@.separator =~= Seq::new(32, |i: int| 0u8));
        cache
    }

    /// A cache as it was stored: a separator and the chain id that it was
    /// computed for.
    pub fn from_cache(chain_id: u64, domain_separator: B256) -> (cache: Self)
        ensures
            cache@.chain_id == chain_id,
            cache@.separator == domain_separator@,
    {
        Eip712 {
            cached_chain_id: chain_id,
            cached_domain_separator: domain_separator,
            phantom: PhantomData,
        }
    }

    /// The chain id that the cached separator was computed for.
    pub fn cached_chain_id(&self) -> (chain_id: u64)
        ensures
            chain_id == self@.chain_id,
    {
        self.cached_chain_id
    }

    /// The cached separator.
    pub fn cached_domain_separator(&self) -> (separator: B256)
        ensures
            separator@ == self@.separator,
    {
        self.cached_domain_separator
    }

    /// Computes the separator for the environment and caches it.
    pub fn initialize(&mut self, env: &Environment)
        ensures
            final(self)@.chain_id == env.chain_id,
            final(self)@.separator == Self::fresh_separator(*env),
            Self::holds(final(self)@, env.contract_address),
    {
        let initial_domain_separator = Self::compute_domain_separator(env);
        self.cached_chain_id = env.chain_id;
        self.cached_domain_separator = initial_domain_separator;
    }

    /// Computes the separator for the environment.
    fn compute_domain_separator(env: &Environment) -> (separator: B256)
        ensures
            separator@ == Self::fresh_separator(*env),
    {
        let type_hash = keccak(DOMAIN_TYPE.as_bytes());
        let name_hash = keccak(T::name().as_bytes());
        let version_hash = keccak(T::version().as_bytes());
        let preimage = encode_domain(
            &type_hash,
            &name_hash,
            &version_hash,
            env.chain_id,
            &env.contract_address,
        );
        keccak(preimage.as_slice())
    }

    /// Reads the separator through the cache, computing it anew when the
    /// chain id is not the cached one.
    fn refresh(&mut self, env: &Environment) -> (separator: B256)
        ensures
            separator@ == Self::read(old(self)@, *env),
            final(self)@ == Self::refreshed(old(self)@, *env),
    {
        if env.chain_id == self.cached_chain_id {
            self.cached_domain_separator
        } else {
            let domain_separator = Self::compute_domain_separator(env);
            self.cached_chain_id = env.chain_id;
            self.cached_domain_separator = domain_separator;
            domain_separator
        }
    }

    /// The separator for the environment, from the cache while the chain id
    /// is the cached one. On another chain id the separator is computed anew
    /// and replaces the cached one. Never fails.
    pub fn domain_separator(&mut self, env: &Environment) -> (result: Result<B256, Errors>)
        ensures
            result is Ok,
            result->Ok_0@ == Self::read(old(self)@, *env),
            final(self)@ == Self::refreshed(old(self)@, *env),
            Self::holds(old(self)@, env.contract_address) ==> result->Ok_0@
                == Self::fresh_separator(*env),
            Self::holds(old(self)@, env.contract_address) || old(self)@.chain_id != env.chain_id
                ==> Self::holds(final(self)@, env.contract_address),
    {
        Ok(self.refresh(env))
    }

    /// The separator for the environment, computed without looking at the
    /// cache or touching it. Never fails.
    pub fn read_domain_separator(&self, env: &Environment) -> (result: Result<B256, Errors>)
        ensures
            result is Ok,
            result->Ok_0@ == Self::fresh_separator(*env),
    {
        Ok(Self::compute_domain_separator(env))
    }

    /// The digest that the signature over a struct with hash `struct_hash`
    /// is made over in `env`. Reads the separator through the cache, as
    /// `domain_separator` does.
    pub fn signing_digest(&mut self, env: &Environment, struct_hash: &B256) -> (digest: B256)
        ensures
            digest@ == typed_data_digest(Self::read(old(self)@, *env), struct_hash@),
            final(self)@ == Self::refreshed(old(self)@, *env),
    {
        let domain_separator = self.refresh(env);
        let preimage = encode_typed_data(&domain_separator, struct_hash);
        keccak(preimage.as_slice())
    }

    /// The signer of typed data, from what signature recovery on the signing
    /// digest gave: the recovered address, whichever it is, or
    /// `EcRecoverError` when recovery failed.
    pub fn recover_typed_data_signer(recovered: Result<[u8; 20], EcdsaError>) -> (result: Result<
        Address,
        Errors,
    >)
        ensures
            result == match recovered {
                Ok(bytes) => Ok::<Address, Errors>(Address(bytes)),
                Err(_) => Err::<Address, Errors>(Errors::EcRecoverError),
            },
    {
        match recovered {
            Ok(bytes) => Ok(Address(bytes)),
            Err(_) => Err(Errors::EcRecoverError),
        }
    }
}

} // verus!
