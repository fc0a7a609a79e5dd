//! Laws that hold of the contract as a whole.
pub mod books;
pub mod checks;
pub mod codes;
pub mod control;
pub mod custody;
pub mod deposits;
pub mod duties;
pub mod entries;
pub mod entrypoints;
pub mod lifecycle;
pub mod money;
pub mod payouts;
pub mod phases;
pub mod reads;
pub mod records;
