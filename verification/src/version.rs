use vstd::prelude::*;

verus! {

/// Raw tag of the oldest primary revision that can still be loaded.
pub const OLDEST_LOADABLE_PACKAGE: i32 = 214;

/// Raw tag of the newest primary revision.
pub const LATEST_PACKAGE: i32 = 522;

/// Raw tag of the first secondary revision.
pub const INITIAL_UE5: i32 = 1000;

/// Raw tag of the newest secondary revision.
pub const LATEST_UE5: i32 = 1009;

/// A revision of the primary timeline. Revisions are ordered by their raw
/// tags: a later engine release has a strictly larger tag.
#[derive(Clone, Copy, Debug, PartialEq, Eq, PartialOrd, Ord, Hash)]
pub struct ObjectVersion {
    tag: i32,
}

/// A revision of the secondary timeline, ordered by raw tag as well.
#[derive(Clone, Copy, Debug, PartialEq, Eq, PartialOrd, Ord, Hash)]
pub struct ObjectVersionUE5 {
    tag: i32,
}

impl ObjectVersion {
    /// The raw tag of this revision.
    pub closed spec fn raw(self) -> int {
        self.tag as int
    }

    /// Whether `raw` is the tag of a revision of the primary timeline.
    pub open spec fn known(raw: int) -> bool {
        OLDEST_LOADABLE_PACKAGE <= raw <= LATEST_PACKAGE
    }

    /// Whether this value stands for a revision of the timeline.
    pub open spec fn valid(self) -> bool {
        Self::known(self.raw())
    }

    /// Looks `raw` up in the primary timeline.
    pub fn from_i32(raw: i32) -> (r: Option<ObjectVersion>)
        ensures
            Self::known(raw as int) <==> r is Some,
            r is Some ==> r->Some_0.raw() == raw && r->Some_0.valid(),
    {
        if OLDEST_LOADABLE_PACKAGE <= raw && raw <= LATEST_PACKAGE {
            Some(ObjectVersion { tag: raw })
        } else {
            None
        }
    }

    /// The raw tag of this revision.
    pub fn to_i32(self) -> (r: i32)
        ensures
            r == self.raw(),
    {
        self.tag
    }

    /// Whether this revision is `other` or a later one.
    pub fn at_least(self, other: ObjectVersion) -> (r: bool)
        ensures
            r == (self.raw() >= other.raw()),
    {
        self.tag >= other.tag
    }

    /// A revision is determined by its raw tag.
    pub proof fn lemma_raw_determines(a: ObjectVersion, b: ObjectVersion)
        requires
            a.raw() == b.raw(),
        ensures
            a == b,
    {
    }
}

impl ObjectVersionUE5 {
    /// The raw tag of this revision.
    pub closed spec fn raw(self) -> int {
        self.tag as int
    }

    /// Whether `raw` is the tag of a revision of the secondary timeline.
    pub open spec fn known(raw: int) -> bool {
        INITIAL_UE5 <= raw <= LATEST_UE5
    }

    /// Whether this value stands for a revision of the timeline.
    pub open spec fn valid(self) -> bool {
        Self::known(self.raw())
    }

    /// Looks `raw` up in the secondary timeline.
    pub fn from_i32(raw: i32) -> (r: Option<ObjectVersionUE5>)
        ensures
            Self::known(raw as int) <==> r is Some,
            r is Some ==> r->Some_0.raw() == raw && r->Some_0.valid(),
    {
        if INITIAL_UE5 <= raw && raw <= LATEST_UE5 {
            Some(ObjectVersionUE5 { tag: raw })
        } else {
            None
        }
    }

    /// The raw tag of this revision.
    pub fn to_i32(self) -> (r: i32)
        ensures
            r == self.raw(),
    {
        self.tag
    }

    /// A revision is determined by its raw tag.
    pub proof fn lemma_raw_determines(a: ObjectVersionUE5, b: ObjectVersionUE5)
        requires
            a.raw() == b.raw(),
        ensures
            a == b,
    {
    }
}

} // verus!
