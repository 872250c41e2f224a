//! The closed taxonomy a plugin declares itself as.
//!
//! Purely descriptive: hosts use it for UI grouping and filtering, no
//! behaviour attaches to it.  Like the operation table, the integer position
//! of each entry is part of the wire contract and never changes.

use vstd::prelude::*;

verus! {

/// Plugin type.  Generally either `Effect` or `Synth`; the remaining entries
/// only help the host categorize the plugin.
#[derive(Clone, Copy, Debug, PartialEq, Eq, Structural)]
pub enum Category {
    /// Unknown / not implemented.
    Unknown,
    /// Any effect.
    Effect,
    /// An instrument.
    Synth,
    /// Scope, tuner, spectrum analyser, etc.
    Analysis,
    /// Dynamics, etc.
    Mastering,
    /// Panners, etc.
    Spacializer,
    /// Delays and reverbs.
    RoomFx,
    /// Dedicated surround processor.
    SurroundFx,
    /// Denoiser, etc.
    Restoration,
    /// Offline processing.
    OfflineProcess,
    /// Contains other plugins.
    Shell,
    /// Tone generator, etc.
    Generator,
}

/// Number of entries in the taxonomy; valid ordinals are `0 .. CATEGORY_COUNT`.
pub const CATEGORY_COUNT: i32 = 12;

impl Category {
    /// The fixed position of this entry in the published taxonomy.
    pub open spec fn ordinal_spec(self) -> int {
        match self {
            Category::Unknown => 0,
            Category::Effect => 1,
            Category::Synth => 2,
            Category::Analysis => 3,
            Category::Mastering => 4,
            Category::Spacializer => 5,
            Category::RoomFx => 6,
            Category::SurroundFx => 7,
            Category::Restoration => 8,
            Category::OfflineProcess => 9,
            Category::Shell => 10,
            Category::Generator => 11,
        }
    }

    /// Integer value reported to the host for this category.
    pub fn ordinal(self) -> (r: i32)
        ensures
            r as int == self.ordinal_spec(),
    {
        match self {
            Category::Unknown => 0,
            Category::Effect => 1,
            Category::Synth => 2,
            Category::Analysis => 3,
            Category::Mastering => 4,
            Category::Spacializer => 5,
            Category::RoomFx => 6,
            Category::SurroundFx => 7,
            Category::Restoration => 8,
            Category::OfflineProcess => 9,
            Category::Shell => 10,
            Category::Generator => 11,
        }
    }

    /// The category occupying a given taxonomy position, if any.
    pub open spec fn from_ordinal_spec(n: int) -> Option<Category> {
        if n == 0 {
            Some(Category::Unknown)
        } else if n == 1 {
            Some(Category::Effect)
        } else if n == 2 {
            Some(Category::Synth)
        } else if n == 3 {
            Some(Category::Analysis)
        } else if n == 4 {
            Some(Category::Mastering)
        } else if n == 5 {
            Some(Category::Spacializer)
        } else if n == 6 {
            Some(Category::RoomFx)
        } else if n == 7 {
            Some(Category::SurroundFx)
        } else if n == 8 {
            Some(Category::Restoration)
        } else if n == 9 {
            Some(Category::OfflineProcess)
        } else if n == 10 {
            Some(Category::Shell)
        } else if n == 11 {
            Some(Category::Generator)
        } else {
            None
        }
    }

    /// Decode a taxonomy position received from the host.
    pub fn from_ordinal(n: i32) -> (r: Option<Category>)
        ensures
            r == Category::from_ordinal_spec(n as int),
    {
        if n == 0 {
            Some(Category::Unknown)
        } else if n == 1 {
            Some(Category::Effect)
        } else if n == 2 {
            Some(Category::Synth)
        } else if n == 3 {
            Some(Category::Analysis)
        } else if n == 4 {
            Some(Category::Mastering)
        } else if n == 5 {
            Some(Category::Spacializer)
        } else if n == 6 {
            Some(Category::RoomFx)
        } else if n == 7 {
            Some(Category::SurroundFx)
        } else if n == 8 {
            Some(Category::Restoration)
        } else if n == 9 {
            Some(Category::OfflineProcess)
        } else if n == 10 {
            Some(Category::Shell)
        } else if n == 11 {
            Some(Category::Generator)
        } else {
            None
        }
    }
}

/// Encoding then decoding a category gives the category back: positions in
/// the taxonomy identify their entries.
pub proof fn lemma_category_round_trip(c: Category)
    ensures
        Category::from_ordinal_spec(c.ordinal_spec()) == Some(c),
{
}

/// Every taxonomy position below `CATEGORY_COUNT` is occupied, and none
/// above it is.
pub proof fn lemma_category_ordinal_range(n: int)
    ensures
        Category::from_ordinal_spec(n) is Some <==> 0 <= n < CATEGORY_COUNT,
{
}

} // verus!
