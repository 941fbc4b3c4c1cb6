//! Pool states, dataset types and type masks, with their native numbering.

use vstd::prelude::*;
use vstd::std_specs::convert::FromSpecImpl;
use vstd::std_specs::ops::BitOrSpecImpl;

verus! {

/// State of a storage pool as the native library reports it.
#[derive(Debug, Copy, Clone, PartialEq, Eq, Structural)]
pub enum ZPoolState {
    Active,
    Exported,
    Destroyed,
    Spare,
    L2Cache,
    Uninitialized,
    Unavailable,
    PotentiallyActive,
}

impl ZPoolState {
    /// The native number of this state.
    pub open spec fn raw(self) -> u32 {
        match self {
            ZPoolState::Active => 0,
            ZPoolState::Exported => 1,
            ZPoolState::Destroyed => 2,
            ZPoolState::Spare => 3,
            ZPoolState::L2Cache => 4,
            ZPoolState::Uninitialized => 5,
            ZPoolState::Unavailable => 6,
            ZPoolState::PotentiallyActive => 7,
        }
    }

    /// The state that a native number stands for, if it stands for one.
    pub open spec fn of_raw(raw: u32) -> Option<ZPoolState> {
        if exists|s: ZPoolState| s.raw() == raw {
            Some(choose|s: ZPoolState| s.raw() == raw)
        } else {
            None
        }
    }

    /// Reads a native number; `None` for a number outside the native enumeration.
    pub fn from_raw(raw: u32) -> (state: Option<ZPoolState>)
        ensures
            state == Self::of_raw(raw),
            state matches Some(s) ==> s.raw() == raw,
            state is None ==> forall|s: ZPoolState| s.raw() != raw,
    {
        let state = match raw {
            0 => Some(ZPoolState::Active),
            1 => Some(ZPoolState::Exported),
            2 => Some(ZPoolState::Destroyed),
            3 => Some(ZPoolState::Spare),
            4 => Some(ZPoolState::L2Cache),
            5 => Some(ZPoolState::Uninitialized),
            6 => Some(ZPoolState::Unavailable),
            7 => Some(ZPoolState::PotentiallyActive),
            _ => None,
        };
        proof {
            Self::raw_is_injective();
            if let Some(s) = state {
                assert(s.raw() == raw);
            }
        }
        state
    }

    /// Reads a native number that belongs to the native enumeration.
    pub fn from(raw: u32) -> (state: ZPoolState)
        requires
            Self::of_raw(raw) is Some,
        ensures
            state.raw() == raw,
            Self::of_raw(raw) == Some(state),
    {
        match Self::from_raw(raw) {
            Some(state) => state,
            None => ZPoolState::Active,
        }
    }

    /// The native number of a state stands for that state.
    pub proof fn of_raw_of_raw(state: ZPoolState)
        ensures
            Self::of_raw(state.raw()) == Some(state),
    {
        Self::raw_is_injective();
    }

    /// No two states share a native number.
    pub proof fn raw_is_injective()
        ensures
            forall|a: ZPoolState, b: ZPoolState| a.raw() == b.raw() ==> a == b,
    {
    }
}

impl From<ZPoolState> for u32 {
    fn from(state: ZPoolState) -> (raw: u32) {
        match state {
            ZPoolState::Active => 0,
            ZPoolState::Exported => 1,
            ZPoolState::Destroyed => 2,
            ZPoolState::Spare => 3,
            ZPoolState::L2Cache => 4,
            ZPoolState::Uninitialized => 5,
            ZPoolState::Unavailable => 6,
            ZPoolState::PotentiallyActive => 7,
        }
    }
}

impl FromSpecImpl<ZPoolState> for u32 {
    open spec fn obeys_from_spec() -> bool {
        true
    }

    open spec fn from_spec(state: ZPoolState) -> u32 {
        state.raw()
    }
}

/// Kind of a dataset. Each kind is one bit of the native type mask.
#[derive(Debug, Copy, Clone, PartialEq, Eq, Structural)]
pub enum DatasetType {
    Filesystem,
    Snapshot,
    Volume,
    Pool,
    Bookmark,
}

impl DatasetType {
    /// The native number of this kind: a single bit.
    pub open spec fn raw(self) -> u32 {
        match self {
            DatasetType::Filesystem => 1,
            DatasetType::Snapshot => 2,
            DatasetType::Volume => 4,
            DatasetType::Pool => 8,
            DatasetType::Bookmark => 16,
        }
    }

    /// The kind that a native number stands for, if it stands for one.
    pub open spec fn of_raw(raw: u32) -> Option<DatasetType> {
        if exists|t: DatasetType| t.raw() == raw {
            Some(choose|t: DatasetType| t.raw() == raw)
        } else {
            None
        }
    }

    /// Reads a native number; `None` for a number outside the native enumeration.
    pub fn from_raw(raw: u32) -> (kind: Option<DatasetType>)
        ensures
            kind == Self::of_raw(raw),
            kind matches Some(t) ==> t.raw() == raw,
            kind is None ==> forall|t: DatasetType| t.raw() != raw,
    {
        let kind = match raw {
            1 => Some(DatasetType::Filesystem),
            2 => Some(DatasetType::Snapshot),
            4 => Some(DatasetType::Volume),
            8 => Some(DatasetType::Pool),
            16 => Some(DatasetType::Bookmark),
            _ => None,
        };
        proof {
            Self::raw_is_injective();
            if let Some(t) = kind {
                assert(t.raw() == raw);
            }
        }
        kind
    }

    /// Reads a native number that belongs to the native enumeration.
    pub fn from(raw: u32) -> (kind: DatasetType)
        requires
            Self::of_raw(raw) is Some,
        ensures
            kind.raw() == raw,
            Self::of_raw(raw) == Some(kind),
    {
        match Self::from_raw(raw) {
            Some(kind) => kind,
            None => DatasetType::Filesystem,
        }
    }

    /// No two kinds share a native number.
    pub proof fn raw_is_injective()
        ensures
            forall|a: DatasetType, b: DatasetType| a.raw() == b.raw() ==> a == b,
    {
    }

    /// The native number of a kind stands for that kind.
    pub proof fn of_raw_of_raw(kind: DatasetType)
        ensures
            Self::of_raw(kind.raw()) == Some(kind),
    {
        Self::raw_is_injective();
    }

    /// A snapshot or a bookmark: a dataset that holds no data of its own to mount or export.
    pub open spec fn is_derived(self) -> bool {
        self == DatasetType::Snapshot || self == DatasetType::Bookmark
    }
}

impl From<DatasetType> for u32 {
    fn from(kind: DatasetType) -> (raw: u32) {
        match kind {
            DatasetType::Filesystem => 1,
            DatasetType::Snapshot => 2,
            DatasetType::Volume => 4,
            DatasetType::Pool => 8,
            DatasetType::Bookmark => 16,
        }
    }
}

impl FromSpecImpl<DatasetType> for u32 {
    open spec fn obeys_from_spec() -> bool {
        true
    }

    open spec fn from_spec(kind: DatasetType) -> u32 {
        kind.raw()
    }
}

/// A set of dataset kinds, one bit for each, as the native open call takes it.
#[derive(Debug, Copy, Clone, PartialEq, Eq, Structural)]
pub struct DatasetTypeMask(pub u32);

impl DatasetTypeMask {
    /// The bits of the mask.
    pub open spec fn bits(self) -> u32 {
        self.0
    }

    /// Whether the mask lets datasets of the given kind through.
    pub open spec fn admits(self, kind: DatasetType) -> bool {
        self.0 & kind.raw() != 0
    }

    /// The mask that lets every kind through: all bits set.
    pub fn all() -> (mask: DatasetTypeMask)
        ensures
            mask.bits() == u32::MAX,
            forall|kind: DatasetType| mask.admits(kind),
    {
        let mask = DatasetTypeMask(u32::MAX);
        proof {
            assert forall|kind: DatasetType| mask.admits(kind) by {
                let k = kind.raw();
                assert(k != 0 ==> 0xffff_ffffu32 & k != 0) by (bit_vector);
            }
        }
        mask
    }

    /// The bits of the mask, for the native call.
    pub fn raw(&self) -> (bits: u32)
        ensures
            bits == self.bits(),
    {
        self.0
    }

    /// Whether the mask lets datasets of the given kind through.
    pub fn contains(&self, kind: DatasetType) -> (found: bool)
        ensures
            found == self.admits(kind),
    {
        let bit: u32 = kind.into();
        self.0 & bit != 0
    }

    /// A mask built with `|` lets through exactly the kinds it was built from.
    pub proof fn union_admits(a: DatasetType, b: DatasetType, kind: DatasetType)
        ensures
            DatasetTypeMask(a.raw() | b.raw()).admits(kind) <==> (kind == a || kind == b),
            DatasetTypeMask(a.raw()).admits(kind) <==> kind == a,
    {
        let (x, y, k) = (a.raw(), b.raw(), kind.raw());
        assert(((x | y) & k != 0) <==> (x & k != 0 || y & k != 0)) by (bit_vector);
        assert(forall|p: u32, q: u32|
            (p == 1 || p == 2 || p == 4 || p == 8 || p == 16) && (q == 1 || q == 2 || q == 4 || q
                == 8 || q == 16) ==> ((#[trigger] (p & q)) != 0 <==> p == q)) by (bit_vector);
    }

    /// Adding a kind to a mask keeps what the mask let through and lets that kind through too.
    pub proof fn extension_admits(mask: DatasetTypeMask, added: DatasetType, kind: DatasetType)
        ensures
            DatasetTypeMask(mask.bits() | added.raw()).admits(kind) <==> (mask.admits(kind) || kind
                == added),
    {
        let (m, x, k) = (mask.bits(), added.raw(), kind.raw());
        assert(((m | x) & k != 0) <==> (m & k != 0 || x & k != 0)) by (bit_vector);
        assert(forall|p: u32, q: u32|
            (p == 1 || p == 2 || p == 4 || p == 8 || p == 16) && (q == 1 || q == 2 || q == 4 || q
                == 8 || q == 16) ==> ((#[trigger] (p & q)) != 0 <==> p == q)) by (bit_vector);
    }
}

impl From<DatasetType> for DatasetTypeMask {
    fn from(kind: DatasetType) -> (mask: DatasetTypeMask) {
        DatasetTypeMask(kind.into())
    }
}

impl FromSpecImpl<DatasetType> for DatasetTypeMask {
    open spec fn obeys_from_spec() -> bool {
        true
    }

    open spec fn from_spec(kind: DatasetType) -> DatasetTypeMask {
        DatasetTypeMask(kind.raw())
    }
}

impl core::ops::BitOr for DatasetType {
    type Output = DatasetTypeMask;

    fn bitor(self, rhs: DatasetType) -> (mask: DatasetTypeMask) {
        let left: u32 = self.into();
        let right: u32 = rhs.into();
        DatasetTypeMask(left | right)
    }
}

impl BitOrSpecImpl for DatasetType {
    open spec fn obeys_bitor_spec() -> bool {
        true
    }

    open spec fn bitor_req(self, rhs: DatasetType) -> bool {
        true
    }

    open spec fn bitor_spec(self, rhs: DatasetType) -> DatasetTypeMask {
        DatasetTypeMask(self.raw() | rhs.raw())
    }
}

impl core::ops::BitOr<DatasetType> for DatasetTypeMask {
    type Output = DatasetTypeMask;

    fn bitor(self, rhs: DatasetType) -> (mask: DatasetTypeMask) {
        let right: u32 = rhs.into();
        DatasetTypeMask(self.0 | right)
    }
}

impl BitOrSpecImpl<DatasetType> for DatasetTypeMask {
    open spec fn obeys_bitor_spec() -> bool {
        true
    }

    open spec fn bitor_req(self, rhs: DatasetType) -> bool {
        true
    }

    open spec fn bitor_spec(self, rhs: DatasetType) -> DatasetTypeMask {
        DatasetTypeMask(self.0 | rhs.raw())
    }
}

} // verus!
