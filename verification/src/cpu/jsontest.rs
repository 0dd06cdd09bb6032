//! Plain-data records for single-instruction test vectors.
//!
//! A vector gives a full CPU state before and after executing exactly one
//! instruction, together with the data-bus traffic it should produce. The
//! host side parses them from their on-disk form; the library only consumes
//! the plain values.

use vstd::prelude::*;

verus! {

/// One RAM cell of a test state: address and expected byte.
#[derive(Clone, Copy, PartialEq, Eq, Structural, Debug)]
pub struct MemTest(pub u16, pub u8);

/// One data-bus access: address, value, and access kind ("read" or "write").
#[derive(Clone, Debug)]
pub struct DatabusLog(pub u16, pub u8, pub String);

/// A complete architectural CPU state plus the RAM cells it constrains.
#[derive(Clone, Debug)]
pub struct CpuTestState {
    pub s: u8,
    pub a: u8,
    pub x: u8,
    pub y: u8,
    pub p: u8,
    pub pc: u16,
    pub ram: Vec<MemTest>,
}

/// A single test case: load `initial`, execute one instruction, and compare
/// against `expected` (the unused status bit is forced to 1 on both sides).
#[derive(Clone, Debug)]
pub struct InstructionTestCase {
    pub name: String,
    pub initial: CpuTestState,
    pub expected: CpuTestState,
    pub cycles: Vec<DatabusLog>,
}

/// All test cases of one opcode.
pub struct TestCaseSet {
    pub opcode: u8,
    pub test_cases: Vec<InstructionTestCase>,
}

} // verus!
