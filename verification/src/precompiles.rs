//! Rule sets and the precompiled contracts that belong to them.

use vstd::prelude::*;

use crate::primitives::{same_address, Address};

verus! {

/// The rules of the Ethereum virtual machine, in the order in which they came into force.
#[derive(Debug, Clone, Copy, PartialEq, Eq, Structural)]
pub enum SpecId {
    /// Frontier.
    Frontier,
    /// Frontier Thawing.
    FrontierThawing,
    /// Homestead.
    Homestead,
    /// The DAO fork.
    DaoFork,
    /// Tangerine Whistle.
    Tangerine,
    /// Spurious Dragon.
    SpuriousDragon,
    /// Byzantium.
    Byzantium,
    /// Constantinople.
    Constantinople,
    /// Petersburg.
    Petersburg,
    /// Istanbul.
    Istanbul,
    /// Muir Glacier.
    MuirGlacier,
    /// Berlin.
    Berlin,
    /// London.
    London,
    /// Arrow Glacier.
    ArrowGlacier,
    /// Gray Glacier.
    GrayGlacier,
    /// Paris, also called the merge.
    Merge,
    /// Shanghai.
    Shanghai,
    /// Cancun.
    Cancun,
    /// Prague.
    Prague,
    /// Osaka.
    Osaka,
}

impl SpecId {
    /// The place of the rules in the order in which they came into force, from 0.
    pub open spec fn index(self) -> u8 {
        match self {
            SpecId::Frontier => 0,
            SpecId::FrontierThawing => 1,
            SpecId::Homestead => 2,
            SpecId::DaoFork => 3,
            SpecId::Tangerine => 4,
            SpecId::SpuriousDragon => 5,
            SpecId::Byzantium => 6,
            SpecId::Constantinople => 7,
            SpecId::Petersburg => 8,
            SpecId::Istanbul => 9,
            SpecId::MuirGlacier => 10,
            SpecId::Berlin => 11,
            SpecId::London => 12,
            SpecId::ArrowGlacier => 13,
            SpecId::GrayGlacier => 14,
            SpecId::Merge => 15,
            SpecId::Shanghai => 16,
            SpecId::Cancun => 17,
            SpecId::Prague => 18,
            SpecId::Osaka => 19,
        }
    }

    /// Returns the place of the rules in the order in which they came into force, from 0.
    pub fn as_u8(self) -> (index: u8)
        ensures
            index == self.index(),
    {
        match self {
            SpecId::Frontier => 0,
            SpecId::FrontierThawing => 1,
            SpecId::Homestead => 2,
            SpecId::DaoFork => 3,
            SpecId::Tangerine => 4,
            SpecId::SpuriousDragon => 5,
            SpecId::Byzantium => 6,
            SpecId::Constantinople => 7,
            SpecId::Petersburg => 8,
            SpecId::Istanbul => 9,
            SpecId::MuirGlacier => 10,
            SpecId::Berlin => 11,
            SpecId::London => 12,
            SpecId::ArrowGlacier => 13,
            SpecId::GrayGlacier => 14,
            SpecId::Merge => 15,
            SpecId::Shanghai => 16,
            SpecId::Cancun => 17,
            SpecId::Prague => 18,
            SpecId::Osaka => 19,
        }
    }
}

impl Default for SpecId {
    fn default() -> (spec: Self)
        ensures
            spec == SpecId::Prague,
    {
        SpecId::Prague
    }
}

/// The rules at which the precompiled contracts changed.
#[derive(Debug, Clone, Copy, PartialEq, Eq, Structural)]
pub enum PrecompileSpecId {
    /// Addresses 1 to 4.
    Homestead,
    /// Adds addresses 5 to 8.
    Byzantium,
    /// Adds address 9 and reprices addresses 6 to 8.
    Istanbul,
    /// Reprices address 5.
    Berlin,
    /// Adds address 10.
    Cancun,
    /// Adds addresses 11 to 17.
    Prague,
    /// Adds address 256 and reprices address 5.
    Osaka,
}

impl PrecompileSpecId {
    /// The rules for precompiled contracts under the rules `spec`: the last that changed a
    /// precompiled contract and came into force no later than `spec`.
    pub open spec fn of(spec: SpecId) -> PrecompileSpecId {
        let index = spec.index();
        if index < SpecId::Byzantium.index() {
            PrecompileSpecId::Homestead
        } else if index < SpecId::Istanbul.index() {
            PrecompileSpecId::Byzantium
        } else if index < SpecId::Berlin.index() {
            PrecompileSpecId::Istanbul
        } else if index < SpecId::Cancun.index() {
            PrecompileSpecId::Berlin
        } else if index < SpecId::Prague.index() {
            PrecompileSpecId::Cancun
        } else if index < SpecId::Osaka.index() {
            PrecompileSpecId::Prague
        } else {
            PrecompileSpecId::Osaka
        }
    }

    /// Returns the rules for precompiled contracts under the rules `spec`.
    pub fn from_spec_id(spec: SpecId) -> (id: PrecompileSpecId)
        ensures
            id == PrecompileSpecId::of(spec),
    {
        precompile_spec_of_index(spec.as_u8())
    }

    /// The first rules with these precompiled contracts.
    pub open spec fn first(self) -> SpecId {
        match self {
            PrecompileSpecId::Homestead => SpecId::Frontier,
            PrecompileSpecId::Byzantium => SpecId::Byzantium,
            PrecompileSpecId::Istanbul => SpecId::Istanbul,
            PrecompileSpecId::Berlin => SpecId::Berlin,
            PrecompileSpecId::Cancun => SpecId::Cancun,
            PrecompileSpecId::Prague => SpecId::Prague,
            PrecompileSpecId::Osaka => SpecId::Osaka,
        }
    }

    /// Returns the first rules with these precompiled contracts.
    pub fn first_spec_id(self) -> (spec: SpecId)
        ensures
            spec == self.first(),
            PrecompileSpecId::of(spec) == self,
    {
        match self {
            PrecompileSpecId::Homestead => SpecId::Frontier,
            PrecompileSpecId::Byzantium => SpecId::Byzantium,
            PrecompileSpecId::Istanbul => SpecId::Istanbul,
            PrecompileSpecId::Berlin => SpecId::Berlin,
            PrecompileSpecId::Cancun => SpecId::Cancun,
            PrecompileSpecId::Prague => SpecId::Prague,
            PrecompileSpecId::Osaka => SpecId::Osaka,
        }
    }

    /// The last address of the block of precompiled contracts that starts at address 1.
    pub open spec fn last(self) -> int {
        match self {
            PrecompileSpecId::Homestead => 4,
            PrecompileSpecId::Byzantium => 8,
            PrecompileSpecId::Istanbul => 9,
            PrecompileSpecId::Berlin => 9,
            PrecompileSpecId::Cancun => 10,
            PrecompileSpecId::Prague => 17,
            PrecompileSpecId::Osaka => 17,
        }
    }

    /// Whether `address` is that of a precompiled contract.
    pub open spec fn has_precompile(self, address: Address) -> bool {
        let number = address@[18] * 256 + address@[19];
        &&& forall|i: int| 0 <= i < 18 ==> address@[i] == 0
        &&& 1 <= number <= self.last() || self is Osaka && number == 256
    }
}

/// The rules for precompiled contracts under the rules with the place `index`.
///
/// This calls `revm::precompile::PrecompileSpecId::from_spec_id`. The contract claims that the
/// call gives the last rules that changed a precompiled contract and are no later than those
/// with the place `index`.
#[verifier::external_body]
fn precompile_spec_of_index(index: u8) -> (id: PrecompileSpecId)
    requires
        index <= 19,
    ensures
        forall|spec: SpecId| #[trigger] spec.index() == index ==> id == PrecompileSpecId::of(spec),
{
    let spec = revm::primitives::hardfork::SpecId::try_from_u8(index).unwrap();
    match revm::precompile::PrecompileSpecId::from_spec_id(spec) {
        revm::precompile::PrecompileSpecId::HOMESTEAD => PrecompileSpecId::Homestead,
        revm::precompile::PrecompileSpecId::BYZANTIUM => PrecompileSpecId::Byzantium,
        revm::precompile::PrecompileSpecId::ISTANBUL => PrecompileSpecId::Istanbul,
        revm::precompile::PrecompileSpecId::BERLIN => PrecompileSpecId::Berlin,
        revm::precompile::PrecompileSpecId::CANCUN => PrecompileSpecId::Cancun,
        revm::precompile::PrecompileSpecId::PRAGUE => PrecompileSpecId::Prague,
        revm::precompile::PrecompileSpecId::OSAKA => PrecompileSpecId::Osaka,
    }
}

/// The addresses of the precompiled contracts under the rules `id`, in no particular order.
///
/// This calls `revm::precompile::Precompiles::new` and reads the addresses of the set that it
/// returns. The contract claims that they are those of `PrecompileSpecId::has_precompile`, each
/// once.
#[verifier::external_body]
fn static_precompile_addresses(id: PrecompileSpecId) -> (addresses: Vec<Address>)
    ensures
        addresses@.no_duplicates(),
        forall|address: Address| #[trigger]
            addresses@.contains(address) <==> id.has_precompile(address),
{
    let set = revm::precompile::Precompiles::new(match id {
        PrecompileSpecId::Homestead => revm::precompile::PrecompileSpecId::HOMESTEAD,
        PrecompileSpecId::Byzantium => revm::precompile::PrecompileSpecId::BYZANTIUM,
        PrecompileSpecId::Istanbul => revm::precompile::PrecompileSpecId::ISTANBUL,
        PrecompileSpecId::Berlin => revm::precompile::PrecompileSpecId::BERLIN,
        PrecompileSpecId::Cancun => revm::precompile::PrecompileSpecId::CANCUN,
        PrecompileSpecId::Prague => revm::precompile::PrecompileSpecId::PRAGUE,
        PrecompileSpecId::Osaka => revm::precompile::PrecompileSpecId::OSAKA,
    });
    set.addresses().map(|address| address.into_array()).collect()
}

/// The precompiled contracts that a machine offers.
#[derive(Debug)]
pub struct PrecompilesMap {
    id: PrecompileSpecId,
    xchain: bool,
    addresses: Vec<Address>,
}

impl PrecompilesMap {
    #[verifier::type_invariant]
    spec fn inv(self) -> bool {
        forall|address: Address| #[trigger]
            self.addresses@.contains(address) <==> self.id.has_precompile(address)
    }

    /// The rules that the contracts belong to.
    pub closed spec fn id(self) -> PrecompileSpecId {
        self.id
    }

    /// Whether the machine executes for more than one chain.
    pub closed spec fn xchain(self) -> bool {
        self.xchain
    }

    /// Whether there is a contract at `address`. For one chain those of the rules stand there.
    pub closed spec fn offers(self, address: Address) -> bool {
        self.addresses@.contains(address)
    }

    /// The contracts under the rules `id`, for one chain or for several.
    pub fn from_static(id: PrecompileSpecId, xchain: bool) -> (map: PrecompilesMap)
        ensures
            map.id() == id,
            map.xchain() == xchain,
    {
        PrecompilesMap { id, xchain, addresses: static_precompile_addresses(id) }
    }

    /// Returns the rules that the contracts belong to.
    pub fn spec_id(&self) -> (id: PrecompileSpecId)
        ensures
            id == self.id(),
    {
        self.id
    }

    /// Whether the machine executes for more than one chain.
    pub fn is_cross_chain(&self) -> (xchain: bool)
        ensures
            xchain == self.xchain(),
    {
        self.xchain
    }

    /// Whether there is a precompiled contract at `address`.
    pub fn contains(&self, address: &Address) -> (found: bool)
        ensures
            found == self.offers(*address),
            !self.xchain() ==> found == self.id().has_precompile(*address),
    {
        proof {
            use_type_invariant(self);
        }
        let mut i: usize = 0;
        while i < self.addresses.len()
            invariant
                i <= self.addresses@.len(),
                forall|j: int| 0 <= j < i ==> self.addresses@[j] != *address,
                self.inv(),
            decreases self.addresses@.len() - i,
        {
            if same_address(&self.addresses[i], address) {
                assert(self.addresses@.contains(*address));
                return true;
            }
            i += 1;
        }
        assert(!self.addresses@.contains(*address));
        false
    }
}

/// No rules take a precompiled contract away: what has one under earlier rules has one under
/// all later rules.
pub proof fn law_precompiles_only_grow(earlier: SpecId, later: SpecId, address: Address)
    requires
        earlier.index() <= later.index(),
        PrecompileSpecId::of(earlier).has_precompile(address),
    ensures
        PrecompileSpecId::of(later).has_precompile(address),
{
}

} // verus!
