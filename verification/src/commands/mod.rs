pub mod staged;
pub mod disasm;
pub mod polkavm_cc_build;
