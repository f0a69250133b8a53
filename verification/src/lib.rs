pub mod constants;
pub mod cpu;
pub mod interconnect;
