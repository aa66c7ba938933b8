pub mod stake;
pub mod spl;
pub mod socean;
pub mod marinade;
pub mod jito;
