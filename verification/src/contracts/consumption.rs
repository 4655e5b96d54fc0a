//! The contract: set up once, then fed signed consumption.
//!
//! A push runs in three steps, with the host at work between them:
//! `push_digest` gives the digest that the platform signed; the host recovers
//! the signer from it, and `authorization_query` turns the recovered signer
//! into the question for the content registry; the host asks, and `push_ccu`
//! decides on the answer and updates the ledger.

use crate::contracts::ledger::ConsumptionLedger;
use crate::utils::eip712::{typed_data_digest, Eip712, Eip712Params, Environment};
use crate::utils::errors::Errors;
use crate::utils::hashing::{append_bytes, keccak, keccak256};
use crate::utils::primitives::{u256_limit, Address, B256, U256};
use crate::utils::solidity::{
    address_word, append_address, decode_bool_return, encode_is_authorized, is_authorized_call,
    returned_bool,
};
use inkmate_common::crypto::ecrecover::EcdsaError;
use vstd::prelude::*;
use vstd::slice::slice_to_vec;
use vstd::string::StringSliceAdditionalSpecFns;

verus! {

/// The type descriptor of the struct that the platform signs.
pub const CONSUMPTION_TYPE: &'static str =
    "ValidateConsumption(address user,bytes32 channelId,uint256 addedConsumption,uint256 deadline)";

/// What `call_helper` fails with when the registry's answer cannot be read.
pub const DECODING_ERROR: &'static str = "decoding error";

/// The signing domain of the contract.
pub struct ConsumptionParam;

impl Eip712Params for ConsumptionParam {
    open spec fn domain_name() -> Seq<char> {
        "ChannelConsumption"@
    }

    open spec fn domain_version() -> Seq<char> {
        "0.0.1"@
    }

    fn name() -> (name: &'static str) {
        "ChannelConsumption"
    }

    fn version() -> (version: &'static str) {
        "0.0.1"
    }
}

/// The event of a push that was accepted.
#[derive(Clone, Copy, Debug, PartialEq, Eq)]
pub struct CcuPushed {
    /// The user whose consumption grew.
    pub user: Address,
    /// The channel that was consumed.
    pub channel_id: B256,
    /// The user's cumulative consumption after the push.
    pub total_consumption: U256,
}

/// A call that the host is to make to the content registry.
#[derive(Debug)]
pub struct RegistryCall {
    /// The registry's address.
    pub to: Address,
    /// The call data.
    pub calldata: Vec<u8>,
}

/// The bytes that are hashed into the hash of the signed struct: the type
/// hash and the four fields, a word each.
pub open spec fn consumption_preimage(
    type_hash: Seq<u8>,
    user: Seq<u8>,
    channel_id: Seq<u8>,
    added_consumption: Seq<u8>,
    deadline: Seq<u8>,
) -> Seq<u8> {
    type_hash + address_word(user) + channel_id + added_consumption + deadline
}

/// The hash of the signed struct.
pub open spec fn consumption_struct_hash(
    user: Seq<u8>,
    channel_id: Seq<u8>,
    added_consumption: Seq<u8>,
    deadline: Seq<u8>,
) -> Seq<u8> {
    keccak256(
        consumption_preimage(
            keccak256(CONSUMPTION_TYPE.spec_bytes()),
            user,
            channel_id,
            added_consumption,
            deadline,
        ),
    )
}

/// Whether the registry's answer grants the role: the call went through and
/// returned `true`.
pub open spec fn role_granted(response: Result<Vec<u8>, Vec<u8>>) -> bool {
    response matches Ok(data) && returned_bool(data@) == Some(true)
}

/// Lays out the words of the signed struct.
pub fn encode_consumption(
    type_hash: &B256,
    user: &Address,
    channel_id: &B256,
    added_consumption: &U256,
    deadline: &U256,
) -> (preimage: Vec<u8>)
    ensures
        preimage@ == consumption_preimage(
            type_hash@,
            user@,
            channel_id@,
            added_consumption.0@,
            deadline.0@,
        ),
{
    let mut preimage: Vec<u8> = Vec::new();
    append_bytes(&mut preimage, type_hash.0.as_slice());
    append_address(&mut preimage, user);
    append_bytes(&mut preimage, channel_id.0.as_slice());
    append_bytes(&mut preimage, added_consumption.0.as_slice());
    append_bytes(&mut preimage, deadline.0.as_slice());
    assert(preimage@ =~= consumption_preimage(
        type_hash@,
        user@,
        channel_id@,
        added_consumption.0@,
        deadline.0@,
    ));
    preimage
}

/// Hashes the signed struct.
pub fn hash_consumption(
    user: &Address,
    channel_id: &B256,
    added_consumption: &U256,
    deadline: &U256,
) -> (struct_hash: B256)
    ensures
        struct_hash@ == consumption_struct_hash(
            user@,
            channel_id@,
            added_consumption.0@,
            deadline.0@,
        ),
{
    let type_hash = keccak(CONSUMPTION_TYPE.as_bytes());
    let preimage = encode_consumption(&type_hash, user, channel_id, added_consumption, deadline);
    keccak(preimage.as_slice())
}

/// Reads the outcome of a call to `isAuthorized`: the returned `bool`, the
/// call's own error, or `DECODING_ERROR` when what came back is shorter than
/// a word.
pub fn call_helper(response: Result<Vec<u8>, Vec<u8>>) -> (result: Result<bool, Vec<u8>>)
    ensures
        match response {
            Ok(data) => match returned_bool(data@) {
                Some(granted) => result == Ok::<bool, Vec<u8>>(granted),
                None => result is Err && result->Err_0@ == DECODING_ERROR.spec_bytes(),
            },
            Err(error) => result == Err::<bool, Vec<u8>>(error),
        },
{
    match response {
        Ok(data) => match decode_bool_return(data.as_slice()) {
            Some(granted) => Ok(granted),
            None => Err(slice_to_vec(DECODING_ERROR.as_bytes())),
        },
        Err(error) => Err(error),
    }
}

/// What the contract stands for, whatever it has cached: who owns it, which
/// content it tracks at which registry, what each user has consumed and what
/// all of them have consumed together.
pub struct ContractView {
    /// The owner; the zero address until the contract is initialized.
    pub owner: Address,
    /// The id of the tracked content.
    pub content_id: U256,
    /// The address of the content registry.
    pub registry: Address,
    /// What each user has consumed.
    pub consumptions: Map<Seq<u8>, nat>,
    /// What all users together have consumed.
    pub total: nat,
}

/// The zero address, as bytes.
pub open spec fn zero_address() -> Seq<u8> {
    Seq::new(20, |i: int| 0u8)
}

impl ContractView {
    /// Whether `initialize` has given the contract an owner.
    pub open spec fn initialized(self) -> bool {
        self.owner@ != zero_address()
    }

    /// What `initialize` answers.
    pub open spec fn initialize_result(self) -> Result<(), Errors> {
        if self.initialized() {
            Err(Errors::AlreadyInitialized)
        } else {
            Ok(())
        }
    }

    /// The contract after `initialize`: configured when it was not yet, as
    /// before when it was.
    pub open spec fn initialize(self, owner: Address, content_id: U256, registry: Address) -> Self {
        if self.initialized() {
            self
        } else {
            ContractView { owner, content_id, registry, ..self }
        }
    }

    /// Whether both counters have room for `added` more for `user`.
    pub open spec fn has_room(self, user: Seq<u8>, added: nat) -> bool {
        self.consumptions[user] + added < u256_limit() && self.total + added < u256_limit()
    }

    /// The contract after `added` was added for `user`.
    pub open spec fn credited(self, user: Seq<u8>, added: nat) -> Self {
        ContractView {
            consumptions: self.consumptions.insert(user, self.consumptions[user] + added),
            total: self.total + added,
            ..self
        }
    }
}

/// Once `initialize` has given the contract an owner, every further
/// `initialize` is refused with `AlreadyInitialized`, whatever its arguments,
/// and leaves owner, content id and registry as they are. The owner given
/// must not be the zero address: with that owner the contract stays as good
/// as not initialized.
pub proof fn lemma_initialize_only_once(
    state: ContractView,
    owner: Address,
    content_id: U256,
    registry: Address,
    next_owner: Address,
    next_content_id: U256,
    next_registry: Address,
)
    requires
        !state.initialized(),
        owner@ != zero_address(),
    ensures
        state.initialize_result() == Ok::<(), Errors>(()),
        state.initialize(owner, content_id, registry).owner == owner,
        state.initialize(owner, content_id, registry).content_id == content_id,
        state.initialize(owner, content_id, registry).registry == registry,
        state.initialize(owner, content_id, registry).initialize_result() == Err::<(), Errors>(
            Errors::AlreadyInitialized,
        ),
        state.initialize(owner, content_id, registry).initialize(
            next_owner,
            next_content_id,
            next_registry,
        ) == state.initialize(owner, content_id, registry),
{
}

/// Two accepted pushes for a user add up: after `first` and then `second`
/// the user's consumption and the aggregate have both grown by
/// `first + second`, and nobody else's consumption has changed.
pub proof fn lemma_pushes_accumulate(state: ContractView, user: Seq<u8>, first: nat, second: nat)
    ensures
        state.credited(user, first).credited(user, second).consumptions[user]
            == state.consumptions[user] + first + second,
        state.credited(user, first).credited(user, second).total == state.total + first + second,
        state.credited(user, first).credited(user, second) == state.credited(user, first + second),
        forall|other: Seq<u8>|
            other != user ==> state.credited(user, first).credited(user, second).consumptions[other]
                == state.consumptions[other],
{
    assert(state.credited(user, first).credited(user, second).consumptions =~= state.credited(
        user,
        first + second,
    ).consumptions);
}

/// An accepted push lowers no counter: the user's consumption and the
/// aggregate grow by what was added, and every other user's consumption
/// stays as it is.
pub proof fn lemma_credit_never_lowers(state: ContractView, user: Seq<u8>, added: nat)
    ensures
        state.credited(user, added).total >= state.total,
        forall|any: Seq<u8>| #[trigger]
            state.credited(user, added).consumptions[any] >= state.consumptions[any],
        state.credited(user, added).owner == state.owner,
        state.credited(user, added).content_id == state.content_id,
        state.credited(user, added).registry == state.registry,
{
}

/// The contract's state.
pub struct ChannelConsumptionContract {
    ledger: ConsumptionLedger,
    nutty_content_id: U256,
    content_registry: Address,
    owner: Address,
    eip712: Eip712<ConsumptionParam>,
}

impl View for ChannelConsumptionContract {
    type V = ContractView;

    closed spec fn view(&self) -> ContractView {
        ContractView {
            owner: self.owner,
            content_id: self.nutty_content_id,
            registry: self.content_registry,
            consumptions: self.ledger.consumptions(),
            total: self.ledger.total(),
        }
    }
}

impl ChannelConsumptionContract {
    /// The ledger inside the contract.
    pub closed spec fn spec_ledger(&self) -> ConsumptionLedger {
        self.ledger
    }

    /// The separator cache inside the contract.
    pub closed spec fn spec_eip712(&self) -> Eip712<ConsumptionParam> {
        self.eip712
    }

    /// A contract that was not initialized yet: no owner, no content, an
    /// empty ledger, nothing cached.
    pub fn new() -> (contract: Self)
        ensures
            !contract@.initialized(),
            contract@.content_id@ == 0,
            contract@.registry@ == zero_address(),
            contract@.consumptions == Map::total(|user: Seq<u8>| 0nat),
            contract@.total == 0,
            contract.spec_ledger().wf(),
            contract.spec_eip712()@.chain_id == 0,
            contract.spec_eip712()@.separator == Seq::new(32, |i: int| 0u8),
    {
        let contract = ChannelConsumptionContract {
            ledger: ConsumptionLedger::new(),
            nutty_content_id: U256::zero(),
            content_registry: Address::zero(),
            owner: Address::zero(),
            eip712: Eip712::new(),
        };
        assert(contract@.consumptions =~= Map::total(|user: Seq<u8>| 0nat));
        contract
    }

    /// A contract as it was stored.
    pub fn from_parts(
        owner: Address,
        nutty_content_id: U256,
        content_registry: Address,
        ledger: ConsumptionLedger,
        eip712: Eip712<ConsumptionParam>,
    ) -> (contract: Self)
        ensures
            contract@.owner == owner,
            contract@.content_id == nutty_content_id,
            contract@.registry == content_registry,
            contract@.consumptions == ledger.consumptions(),
            contract@.total == ledger.total(),
            contract.spec_ledger() == ledger,
            contract.spec_eip712() == eip712,
    {
        ChannelConsumptionContract { ledger, nutty_content_id, content_registry, owner, eip712 }
    }

    /// The owner: the zero address until the contract is initialized.
    pub fn owner(&self) -> (owner: Address)
        ensures
            owner == self@.owner,
    {
        self.owner
    }

    /// The id of the tracked content.
    pub fn nutty_content_id(&self) -> (content_id: U256)
        ensures
            content_id == self@.content_id,
    {
        self.nutty_content_id
    }

    /// The address of the content registry.
    pub fn content_registry(&self) -> (registry: Address)
        ensures
            registry == self@.registry,
    {
        self.content_registry
    }

    /// The ledger.
    pub fn ledger(&self) -> (ledger: &ConsumptionLedger)
        ensures
            *ledger == self.spec_ledger(),
            ledger.consumptions() == self@.consumptions,
            ledger.total() == self@.total,
    {
        &self.ledger
    }

    /// The separator cache.
    pub fn eip712(&self) -> (eip712: &Eip712<ConsumptionParam>)
        ensures
            *eip712 == self.spec_eip712(),
    {
        &self.eip712
    }

    /// Gives the contract its owner, the content it tracks and the registry
    /// to ask. Refused with `AlreadyInitialized`, and without any change,
    /// once the contract has an owner.
    pub fn initialize(
        &mut self,
        owner: Address,
        nutty_content_id: U256,
        content_registry: Address,
    ) -> (result: Result<(), Errors>)
        ensures
            result == old(self)@.initialize_result(),
            final(self)@ == old(self)@.initialize(owner, nutty_content_id, content_registry),
            final(self).spec_ledger() == old(self).spec_ledger(),
            final(self).spec_eip712() == old(self).spec_eip712(),
    {
        if !self.owner.is_zero() {
            return Err(Errors::AlreadyInitialized);
        }
        self.owner = owner;
        self.nutty_content_id = nutty_content_id;
        self.content_registry = content_registry;
        Ok(())
    }

    /// First step of a push: the digest that the platform's signature is
    /// made over, for `user` as the caller. Only the separator cache may
    /// change. The deadline is part of what was signed and of nothing else:
    /// it is compared with no clock, so a signature does not expire.
    pub fn push_digest(
        &mut self,
        env: &Environment,
        user: &Address,
        channel_id: &B256,
        added_consumption: &U256,
        deadline: &U256,
    ) -> (digest: B256)
        ensures
            digest@ == typed_data_digest(
                Eip712::<ConsumptionParam>::read(old(self).spec_eip712()@, *env),
                consumption_struct_hash(user@, channel_id@, added_consumption.0@, deadline.0@),
            ),
            final(self)@ == old(self)@,
            final(self).spec_ledger() == old(self).spec_ledger(),
            final(self).spec_eip712()@ == Eip712::<ConsumptionParam>::refreshed(
                old(self).spec_eip712()@,
                *env,
            ),
    {
        let struct_hash = hash_consumption(user, channel_id, added_consumption, deadline);
        self.eip712.signing_digest(env, &struct_hash)
    }

    /// Second step of a push: from what signature recovery gave, the
    /// question to the registry whether the signer may validate consumption
    /// for the tracked content. A failed recovery ends the push with
    /// `EcRecoverError`. Any recovered address is asked about, the zero
    /// address too.
    pub fn authorization_query(&self, recovered: Result<[u8; 20], EcdsaError>) -> (result: Result<
        RegistryCall,
        Errors,
    >)
        ensures
            match recovered {
                Ok(signer) => {
                    &&& result is Ok
                    &&& result->Ok_0.to == self@.registry
                    &&& result->Ok_0.calldata@ == is_authorized_call(self@.content_id.0@, signer@)
                },
                Err(_) => result == Err::<RegistryCall, Errors>(Errors::EcRecoverError),
            },
    {
        let signer = match Eip712::<ConsumptionParam>::recover_typed_data_signer(recovered) {
            Ok(signer) => signer,
            Err(error) => {
                return Err(error);
            },
        };
        Ok(self.validator_role_query(&signer))
    }

    /// The question to the registry whether `validator` may validate
    /// consumption for the tracked content.
    pub fn validator_role_query(&self, validator: &Address) -> (query: RegistryCall)
        ensures
            query.to == self@.registry,
            query.calldata@ == is_authorized_call(self@.content_id.0@, validator@),
    {
        RegistryCall {
            to: self.content_registry,
            calldata: encode_is_authorized(&self.nutty_content_id, validator),
        }
    }

    /// Whether the registry's answer grants the validator role: `CallError`
    /// when the call failed or its answer cannot be read,
    /// `InvalidPlatformSignature` when the answer is `false`.
    pub fn _check_validator_role(response: Result<Vec<u8>, Vec<u8>>) -> (result: Result<(), Errors>)
        ensures
            result == match response {
                Ok(data) => match returned_bool(data@) {
                    Some(true) => Ok::<(), Errors>(()),
                    Some(false) => Err::<(), Errors>(Errors::InvalidPlatformSignature),
                    None => Err::<(), Errors>(Errors::CallError),
                },
                Err(_) => Err::<(), Errors>(Errors::CallError),
            },
            result is Ok <==> role_granted(response),
    {
        let has_role = match call_helper(response) {
            Ok(has_role) => has_role,
            Err(_) => {
                return Err(Errors::CallError);
            },
        };
        if has_role {
            Ok(())
        } else {
            Err(Errors::InvalidPlatformSignature)
        }
    }

    /// Last step of a push: decides on the registry's answer. Without the
    /// role the push is accepted and does nothing, whatever the reason: the
    /// caller cannot tell a bad signature from a signer without the role.
    /// With the role `added_consumption` is added to what `user` has
    /// consumed and to the aggregate, and the event to emit is handed back;
    /// when a counter has no room for it, the push fails and changes
    /// nothing.
    pub fn push_ccu(
        &mut self,
        user: Address,
        channel_id: B256,
        added_consumption: U256,
        response: Result<Vec<u8>, Vec<u8>>,
    ) -> (result: Result<Option<CcuPushed>, Errors>)
        ensures
            !role_granted(response) ==> {
                &&& result == Ok::<Option<CcuPushed>, Errors>(None)
                &&& *final(self) == *old(self)
            },
            role_granted(response) && !old(self)@.has_room(user@, added_consumption@) ==> {
                &&& result == Err::<Option<CcuPushed>, Errors>(Errors::ArithmeticOverflow)
                &&& *final(self) == *old(self)
            },
            role_granted(response) && old(self)@.has_room(user@, added_consumption@) ==> {
                &&& result matches Ok(Some(event))
                &&& event.user == user
                &&& event.channel_id == channel_id
                &&& event.total_consumption@ == old(self)@.consumptions[user@]
                    + added_consumption@
                &&& final(self)@ == old(self)@.credited(user@, added_consumption@)
                &&& final(self).spec_eip712() == old(self).spec_eip712()
            },
            old(self).spec_ledger().wf() ==> final(self).spec_ledger().wf(),
    {
        if Self::_check_validator_role(response).is_err() {
            return Ok(None);
        }
        let total_consumption = match self.ledger.apply(&user, &added_consumption) {
            Ok(total_consumption) => total_consumption,
            Err(error) => {
                return Err(error);
            },
        };
        Ok(Some(CcuPushed { user, channel_id, total_consumption }))
    }

    /// What `user` has consumed so far: zero for a user never seen. Never
    /// fails.
    pub fn get_user_consumption(&self, user: Address) -> (result: Result<U256, Errors>)
        ensures
            result is Ok,
            result->Ok_0@ == self@.consumptions[user@],
    {
        Ok(self.ledger.user_consumption(&user))
    }

    /// What all users together have consumed. Never fails.
    pub fn get_total_consumption(&self) -> (result: Result<U256, Errors>)
        ensures
            result is Ok,
            result->Ok_0@ == self@.total,
    {
        Ok(self.ledger.total_consumption())
    }
}

} // verus!
