//! A byte-code interpreter for a small subset of the MOS 6502 instruction set:
//! LDA, LDX, STA, TAX, INX, NOP and BRK, with the processor's addressing modes
//! and its zero and negative status flags.
//!
//! [`machine::Machine`] is the mathematical model of the processor and its
//! 64 KiB address space; [`cpu::CPU`] is the executable machine, every method
//! of which is specified against the model.
pub mod cpu;
pub mod machine;
pub mod mem;
pub mod theorems;
