//! Transactional core of a vending machine: exact integer money arithmetic,
//! immutable soda descriptions, capacity-bounded slots, and the machine
//! aggregate that ties them together under verified consistency rules.

pub mod machine;
pub mod money;
pub mod numfmt;
pub mod ports;
pub mod slot;
pub mod soda;
