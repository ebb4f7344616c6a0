pub mod cliffs;
pub mod deposit_entry;
pub mod lockup;
pub mod registrar;
pub mod sums;
pub mod voter;
