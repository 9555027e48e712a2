pub mod alu;
pub mod clock;
pub mod cpu_context;
pub mod operands;
pub mod reg_file;
pub mod handlers;
pub mod invariants;
