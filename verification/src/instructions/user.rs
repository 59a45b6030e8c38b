pub mod claim;
pub mod stake;
pub mod unstake;
