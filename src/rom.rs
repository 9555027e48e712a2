pub mod rom_info;
pub mod rom_parser;
