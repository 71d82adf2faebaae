//! The flags of the requests to a resource manager that is close to the XA
//! standard.

use vstd::prelude::*;

verus! {

/// The bit of the flag [`Flags::resume`].
pub const RESUME: u32 = 0x0800_0000;

/// The bit of the flag [`Flags::join`].
pub const JOIN: u32 = 0x0020_0000;

/// The bit of the flag [`Flags::start_recovery_scan`].
pub const START_RECOVERY_SCAN: u32 = 0x0100_0000;

/// The bit of the flag [`Flags::end_recovery_scan`].
pub const END_RECOVERY_SCAN: u32 = 0x0080_0000;

/// The bit of the flag [`Flags::one_phase`].
pub const ONE_PHASE: u32 = 0x4000_0000;

/// The bit of the flag [`Flags::fail`].
pub const FAIL: u32 = 0x2000_0000;

/// The bit of the flag [`Flags::success`].
pub const SUCCESS: u32 = 0x0400_0000;

/// The bit of the flag [`Flags::suspend`].
pub const SUSPEND: u32 = 0x0200_0000;

/// All bits that are flags.
pub const ALL_FLAGS: u32 = 0x6FA0_0000;

/// Flag values that are used by the methods in
/// [`CResourceManager`](crate::rm::CResourceManager): a set of flags, each of
/// them one bit.
#[derive(Clone, Copy, Debug, PartialEq, Eq, Structural, Hash)]
pub struct Flags {
    bits: u32,
}

impl Flags {
    /// The set with the bits `bits`.
    pub closed spec fn of(bits: u32) -> Flags {
        Flags { bits }
    }

    /// The bits of the flags in the set.
    pub closed spec fn view(&self) -> u32 {
        self.bits
    }

    /// No resource manager feature selected.
    pub fn empty() -> (flags: Flags)
        ensures
            flags@ == 0,
    {
        Flags { bits: 0 }
    }

    /// All flags.
    pub fn all() -> (flags: Flags)
        ensures
            flags@ == ALL_FLAGS,
    {
        Flags { bits: ALL_FLAGS }
    }

    /// For `CResourceManager::start()`:
    /// indicates that the resource should associate with a previously suspended transaction.
    pub fn resume() -> (flags: Flags)
        ensures
            flags@ == RESUME,
    {
        Flags { bits: RESUME }
    }

    /// For `CResourceManager::start()`:
    /// indicates that the transaction should associate with a transaction
    /// previously seen by the server.
    pub fn join() -> (flags: Flags)
        ensures
            flags@ == JOIN,
    {
        Flags { bits: JOIN }
    }

    /// For `CResourceManager::recover()`:
    /// indicates that the server should start a new recovery scan.
    pub fn start_recovery_scan() -> (flags: Flags)
        ensures
            flags@ == START_RECOVERY_SCAN,
    {
        Flags { bits: START_RECOVERY_SCAN }
    }

    /// For `CResourceManager::recover()`:
    /// indicates that the server should end the current recovery scan.
    pub fn end_recovery_scan() -> (flags: Flags)
        ensures
            flags@ == END_RECOVERY_SCAN,
    {
        Flags { bits: END_RECOVERY_SCAN }
    }

    /// Indicates that the caller is using one-phase optimization.
    pub fn one_phase() -> (flags: Flags)
        ensures
            flags@ == ONE_PHASE,
    {
        Flags { bits: ONE_PHASE }
    }

    /// For `CResourceManager::end()`:
    /// indicates that the transaction should be disassociated,
    /// and that the work has failed
    pub fn fail() -> (flags: Flags)
        ensures
            flags@ == FAIL,
    {
        Flags { bits: FAIL }
    }

    /// For `CResourceManager::end()`:
    /// indicates that the transaction should be disassociated,
    /// and that the work has completed sucessfully.
    pub fn success() -> (flags: Flags)
        ensures
            flags@ == SUCCESS,
    {
        Flags { bits: SUCCESS }
    }

    /// For `CResourceManager::end()`:
    /// indicates that the resource should temporarily suspend the association
    /// with the transaction.
    pub fn suspend() -> (flags: Flags)
        ensures
            flags@ == SUSPEND,
    {
        Flags { bits: SUSPEND }
    }

    /// Returns the bits of the flags in the set.
    pub fn bits(&self) -> (bits: u32)
        ensures
            bits == self@,
    {
        self.bits
    }

    /// The set with the bits `bits`, unless one of them is no flag.
    pub fn from_bits(bits: u32) -> (flags: Option<Flags>)
        ensures
            bits & !ALL_FLAGS == 0 ==> (flags matches Some(set) && set@ == bits),
            bits & !ALL_FLAGS != 0 ==> flags is None,
    {
        if bits & !ALL_FLAGS == 0 {
            Some(Flags { bits })
        } else {
            None
        }
    }

    /// Returns `true` if no flag is in the set.
    pub fn is_empty(&self) -> (empty: bool)
        ensures
            empty == (self@ == 0),
    {
        self.bits == 0
    }

    /// Returns `true` if all flags in `other` are in `self`.
    pub fn contains(&self, other: Flags) -> (all: bool)
        ensures
            all == (self@ & other@ == other@),
    {
        self.bits & other.bits == other.bits
    }

    /// Returns `true` if only the flags in `other` are contained within `self`.
    #[inline]
    pub fn contains_only(&self, other: Flags) -> (only: bool)
        ensures
            only == (self@ & !other@ == 0),
    {
        self.bits & !other.bits == 0
    }
}

impl Default for Flags {
    fn default() -> (flags: Flags)
        ensures
            flags@ == 0,
    {
        Flags { bits: 0 }
    }
}

impl core::ops::BitOr for Flags {
    type Output = Flags;

    /// The flags that are in one of the two sets.
    fn bitor(self, other: Flags) -> (flags: Flags)
        ensures
            flags@ == self@ | other@,
    {
        Flags { bits: self.bits | other.bits }
    }
}

impl vstd::std_specs::ops::BitOrSpecImpl for Flags {
    open spec fn obeys_bitor_spec() -> bool {
        true
    }

    open spec fn bitor_req(self, other: Flags) -> bool {
        true
    }

    open spec fn bitor_spec(self, other: Flags) -> Flags {
        Flags::of(self@ | other@)
    }
}

impl core::ops::BitAnd for Flags {
    type Output = Flags;

    /// The flags that are in both sets.
    fn bitand(self, other: Flags) -> (flags: Flags)
        ensures
            flags@ == self@ & other@,
    {
        Flags { bits: self.bits & other.bits }
    }
}

impl vstd::std_specs::ops::BitAndSpecImpl for Flags {
    open spec fn obeys_bitand_spec() -> bool {
        true
    }

    open spec fn bitand_req(self, other: Flags) -> bool {
        true
    }

    open spec fn bitand_spec(self, other: Flags) -> Flags {
        Flags::of(self@ & other@)
    }
}

impl core::ops::Not for Flags {
    type Output = Flags;

    /// The flags that are not in the set.
    fn not(self) -> (flags: Flags)
        ensures
            flags@ == !self@ & ALL_FLAGS,
    {
        Flags { bits: !self.bits & ALL_FLAGS }
    }
}

impl vstd::std_specs::ops::NotSpecImpl for Flags {
    open spec fn obeys_not_spec() -> bool {
        true
    }

    open spec fn not_req(self) -> bool {
        true
    }

    open spec fn not_spec(self) -> Flags {
        Flags::of(!self@ & ALL_FLAGS)
    }
}

} // verus!
