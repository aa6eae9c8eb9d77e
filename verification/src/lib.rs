pub mod access;
pub mod benchmark;
pub mod cht;
pub mod config;
pub mod doram_core;
pub mod hierarchy;
pub mod lowmc;
pub mod ohtable;
pub mod party;
pub mod shuffle;
pub mod sort;
pub mod speed_cache;
pub mod timings;
