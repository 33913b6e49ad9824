//! A string-keyed map of shared, immutable values that many handles can use
//! at once: every handle reaches the same table, guarded by one reader-writer
//! lock.

pub mod laws;
pub mod parallel_map;
pub mod table;

pub use parallel_map::ParallelMap;
pub use table::Table;
