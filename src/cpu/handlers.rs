pub mod arithmetic;
pub mod jumps;
pub mod loads;
