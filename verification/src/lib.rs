//! The decision core of an over-roll guard for Path of Exile crafting.

pub mod build_info;
pub mod cycle;
pub mod descriptions;
pub mod host;
pub mod item;
pub mod keys;
pub mod laws;
pub mod number;
pub mod platform;
pub mod pool;
pub mod search;
pub mod text;
pub mod verdict;
pub mod wire;
pub mod wording;

pub use build_info::{BuildEnv, BuildInfo};
pub use cycle::{
    Command, CraftSession, CycleConfig, CycleReport, Event, Feedback, HaltReason, Outcome, Press,
    ReadOutcome, RefusalReason, State,
};
pub use item::{parse_item_text, Annotation, Item, ItemIdentity, ParsedMod, Rarity, Unreadable};
pub use platform::{Platform, PlatformError, PlatformInfo, StubPlatform};
pub use pool::{
    Band, DataError, Generation, GroupSpec, ModGroup, ModPool, ModTier, OddsBasis, PoolTotals,
};
pub use verdict::{assess, Assessment, Diagnostic, Target, Verdict};
