//! Column schema of the execution-trace tables.
//!
//! Every constant is derived arithmetically from the one before it, so that
//! inserting or resizing a field re-flows all subsequent offsets. The
//! register-indexed selector blocks are half-open ranges of width
//! `REGISTER_NUM`, given here by a `_START`/`_END` pair of constants.

use vstd::prelude::*;

verus! {

/// Number of general-purpose registers of the virtual machine. Must match
/// the register file size used by the machine definition itself.
pub const REGISTER_NUM: usize = 9;

// CPU (main) trace.
//
// Context related columns:
// ┌───────┬───────┬──────┬───────┬───────┬───────┬───────┬───────┬───────┬───────┬───────┬───────┬
// │  clk  │   pc  │ flag │ reg_0 │ reg_1 │ reg_2 | reg_3 | reg_4 │ reg_5 | reg_6 | reg_7 │ reg_8 │
// ├───────┼───────┼──────┼───────┼───────┼───────┼───────┼───────┼───────┼───────|───────┼───────┼
// │   1   │   0   │  0   │   0   │   0   │   0   │   0   │   0   │   0   │   0   |   0   │   0   │
// └───────┴───────┴──────┴───────┴───────┴───────┴───────┴───────┴───────┴───────┴───────┴───────┴
pub const COL_CLK: usize = 0;
pub const COL_PC: usize = COL_CLK + 1;
pub const COL_FLAG: usize = COL_PC + 1;
pub const COL_START_REG: usize = COL_FLAG + 1;
pub const COL_REGS_END: usize = COL_START_REG + REGISTER_NUM;

// Instruction related columns:
// ┬────────┬─────────┬────────┬─────────┬
// │  inst  │ op1_imm │ opcode │ imm_val │
// ┴────────┴─────────┴────────┴─────────┴
pub const COL_INST: usize = COL_REGS_END;
pub const COL_OP1_IMM: usize = COL_INST + 1;
pub const COL_OPCODE: usize = COL_OP1_IMM + 1;
pub const COL_IMM_VAL: usize = COL_OPCODE + 1;

// Operand roles and register selector columns:
// ┬───────┬───────┬───────┬───────┬──────────┬─────┬──────────┬──────────┬─────┬──────────┬──────────┬─────┬──────────┬
// │  op0  │  op1  │  dst  │  aux0 │ s_op0_r0 │ ... │ s_op0_r8 │ s_op1_r0 │ ... │ s_op1_r8 │ s_dst_r0 │ ... │ s_dst_r8 │
// ┴───────┴───────┴───────┴───────┴──────────┴─────┴──────────┴──────────┴─────┴──────────┴──────────┴─────┴──────────┴
pub const COL_OP0: usize = COL_IMM_VAL + 1;
pub const COL_OP1: usize = COL_OP0 + 1;
pub const COL_DST: usize = COL_OP1 + 1;
pub const COL_AUX0: usize = COL_DST + 1;
pub const COL_S_OP0_START: usize = COL_AUX0 + 1;
pub const COL_S_OP0_END: usize = COL_S_OP0_START + REGISTER_NUM;
pub const COL_S_OP1_START: usize = COL_S_OP0_END;
pub const COL_S_OP1_END: usize = COL_S_OP1_START + REGISTER_NUM;
pub const COL_S_DST_START: usize = COL_S_OP1_END;
pub const COL_S_DST_END: usize = COL_S_DST_START + REGISTER_NUM;

// Opcode selector columns, one-hot per active row:
// ┬───────┬───────┬───────┬──────────┬───────┬───────┬────────┬────────┬───────┬─────────┬──────────┬───────┬
// │ s_add │ s_mul │  s_eq │ s_assert │ s_mov | s_jmp | s_cjmp │ s_call | s_ret | s_mload │ s_mstore │ s_end |
// ┴───────┴───────┴───────┴──────────┴───────┴───────┴────────┴────────┴───────┴─────────┴──────────┴───────┴
pub const COL_S_ADD: usize = COL_S_DST_END;
pub const COL_S_MUL: usize = COL_S_ADD + 1;
pub const COL_S_EQ: usize = COL_S_MUL + 1;
pub const COL_S_ASSERT: usize = COL_S_EQ + 1;
pub const COL_S_MOV: usize = COL_S_ASSERT + 1;
pub const COL_S_JMP: usize = COL_S_MOV + 1;
pub const COL_S_CJMP: usize = COL_S_JMP + 1;
pub const COL_S_CALL: usize = COL_S_CJMP + 1;
pub const COL_S_RET: usize = COL_S_CALL + 1;
pub const COL_S_MLOAD: usize = COL_S_RET + 1;
pub const COL_S_MSTORE: usize = COL_S_MLOAD + 1;
pub const COL_S_END: usize = COL_S_MSTORE + 1;

// Builtin (coprocessor) selector columns, at most one set per row:
// ┬───────┬───────┬───────┬───────┬───────┬───────┬───────┬────────────┬─────────┐
// │  s_rc │ s_and │ s_or  │ s_xor │ s_not │ s_neq │ s_gte │ s_poseidon │ s_ecdsa |
// ┴───────┴───────┴───────┴───────┴───────┴───────┴───────┴────────────┴─────────┘
pub const COL_S_RC: usize = COL_S_END + 1;
pub const COL_S_AND: usize = COL_S_RC + 1;
pub const COL_S_OR: usize = COL_S_AND + 1;
pub const COL_S_XOR: usize = COL_S_OR + 1;
pub const COL_S_NOT: usize = COL_S_XOR + 1;
pub const COL_S_NEQ: usize = COL_S_NOT + 1;
pub const COL_S_GTE: usize = COL_S_NEQ + 1;
pub const COL_S_PSDN: usize = COL_S_GTE + 1;
pub const COL_S_ECDSA: usize = COL_S_PSDN + 1;

/// Total width of one CPU trace row.
pub const NUM_CPU_COLS: usize = COL_S_ECDSA + 1;

// Memory (RAM) trace.
// ┌─────────────┬───────────────┬──────┬───────┬───────┬──────────┬───────┬───────────┬──────────┬─────────────┬──────┬───────┬
// │ end_rw_diff │ is_write_once │ addr │  clk  │   op  │ is_write | value | diff_addr │ diff_clk | diff_addr_p | f_rc │ f_main│
// └─────────────┴───────────────┴──────┴───────┴───────┴──────────┴───────┴───────────┴──────────┴─────────────┴──────┴───────┴
pub const COL_END_RW_DIFF: usize = 0;
pub const COL_IS_WRITE_ONCE: usize = COL_END_RW_DIFF + 1;
pub const COL_ADDR: usize = COL_IS_WRITE_ONCE + 1;
pub const COL_RAM_CLK: usize = COL_ADDR + 1;
pub const COL_RAM_OP: usize = COL_RAM_CLK + 1;
pub const COL_IS_WRITE: usize = COL_RAM_OP + 1;
pub const COL_VALUE: usize = COL_IS_WRITE + 1;
pub const COL_DIFF_ADDR: usize = COL_VALUE + 1;
pub const COL_DIFF_CLK: usize = COL_DIFF_ADDR + 1;
pub const COL_DIFF_ADDR_P: usize = COL_DIFF_CLK + 1;
pub const COL_F_RC: usize = COL_DIFF_ADDR_P + 1;
pub const COL_F_MAIN: usize = COL_F_RC + 1;

/// Total width of one memory trace row.
pub const NUM_RAM_COLS: usize = COL_F_MAIN + 1;

/// The four register-indexed selector ranges of the CPU row each have width
/// exactly `REGISTER_NUM`, they are pairwise non-overlapping (each range ends
/// no later than the next begins), and the row width `NUM_CPU_COLS` is one
/// plus the index of the final selector column.
pub proof fn lemma_cpu_selector_ranges_well_formed()
    ensures
        COL_REGS_END - COL_START_REG == REGISTER_NUM,
        COL_S_OP0_END - COL_S_OP0_START == REGISTER_NUM,
        COL_S_OP1_END - COL_S_OP1_START == REGISTER_NUM,
        COL_S_DST_END - COL_S_DST_START == REGISTER_NUM,
        COL_REGS_END <= COL_S_OP0_START,
        COL_REGS_END <= COL_S_OP1_START,
        COL_REGS_END <= COL_S_DST_START,
        COL_S_OP0_END <= COL_S_OP1_START,
        COL_S_OP0_END <= COL_S_DST_START,
        COL_S_OP1_END <= COL_S_DST_START,
        COL_S_DST_END <= NUM_CPU_COLS,
        NUM_CPU_COLS == COL_S_ECDSA + 1,
{
}

/// Every scalar CPU column constant is strictly greater than the one
/// logically preceding it, so no two of them alias the same column.
pub proof fn lemma_cpu_columns_strictly_increasing()
    ensures
        COL_CLK < COL_PC,
        COL_PC < COL_FLAG,
        COL_FLAG < COL_START_REG,
        COL_START_REG < COL_INST,
        COL_INST < COL_OP1_IMM,
        COL_OP1_IMM < COL_OPCODE,
        COL_OPCODE < COL_IMM_VAL,
        COL_IMM_VAL < COL_OP0,
        COL_OP0 < COL_OP1,
        COL_OP1 < COL_DST,
        COL_DST < COL_AUX0,
        COL_AUX0 < COL_S_OP0_START,
        COL_S_OP0_START < COL_S_OP1_START,
        COL_S_OP1_START < COL_S_DST_START,
        COL_S_DST_START < COL_S_ADD,
        COL_S_ADD < COL_S_MUL,
        COL_S_MUL < COL_S_EQ,
        COL_S_EQ < COL_S_ASSERT,
        COL_S_ASSERT < COL_S_MOV,
        COL_S_MOV < COL_S_JMP,
        COL_S_JMP < COL_S_CJMP,
        COL_S_CJMP < COL_S_CALL,
        COL_S_CALL < COL_S_RET,
        COL_S_RET < COL_S_MLOAD,
        COL_S_MLOAD < COL_S_MSTORE,
        COL_S_MSTORE < COL_S_END,
        COL_S_END < COL_S_RC,
        COL_S_RC < COL_S_AND,
        COL_S_AND < COL_S_OR,
        COL_S_OR < COL_S_XOR,
        COL_S_XOR < COL_S_NOT,
        COL_S_NOT < COL_S_NEQ,
        COL_S_NEQ < COL_S_GTE,
        COL_S_GTE < COL_S_PSDN,
        COL_S_PSDN < COL_S_ECDSA,
        COL_S_ECDSA < NUM_CPU_COLS,
{
}

/// Every memory-trace column constant is strictly greater than the one
/// logically preceding it, so no two of them alias the same column.
pub proof fn lemma_ram_columns_strictly_increasing()
    ensures
        COL_END_RW_DIFF < COL_IS_WRITE_ONCE,
        COL_IS_WRITE_ONCE < COL_ADDR,
        COL_ADDR < COL_RAM_CLK,
        COL_RAM_CLK < COL_RAM_OP,
        COL_RAM_OP < COL_IS_WRITE,
        COL_IS_WRITE < COL_VALUE,
        COL_VALUE < COL_DIFF_ADDR,
        COL_DIFF_ADDR < COL_DIFF_CLK,
        COL_DIFF_CLK < COL_DIFF_ADDR_P,
        COL_DIFF_ADDR_P < COL_F_RC,
        COL_F_RC < COL_F_MAIN,
        COL_F_MAIN < NUM_RAM_COLS,
{
}

} // verus!
