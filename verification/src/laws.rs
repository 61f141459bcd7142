//! The library's stated laws: properties that hold of every input, proved
//! once and for all over the specification functions the executable code
//! is verified against.

use vstd::prelude::*;
use crate::HLT_ADDR;
use crate::inst::InstCode;
use crate::inst::Stage;
use crate::program::MachineView;
use crate::program::VmaView;
use crate::program::spec_find_vma;
use crate::program::spec_find_vma_from;
use crate::program::spec_lib_lookup;
use crate::program::spec_mem_load;
use crate::program::spec_mem_store;
use crate::program::spec_write_range;
use crate::program::vma_contains;
use crate::register::Register;
use crate::register::regs_clear_forward;
use crate::register::regs_unlock;
use crate::sequential::spec_run_seq;
use crate::step::Inst;
use crate::step::dest_of;
use crate::step::spec_advance;
use crate::pipeline::Pipeline;
use crate::pipeline::spec_run_pipeline;

verus! {

/// Discarding the forwarding slots at the head of a cycle leaves no
/// forwarded value behind: every register's slot is absent afterwards.
pub proof fn lemma_clear_forwarding_absent(regs: Seq<Register>, i: int)
    requires
        0 <= i < regs.len(),
    ensures
        regs_clear_forward(regs)[i].forward_values is None,
{
}

/// An instruction's fetch address is recorded exactly once: Fetch sets it
/// to the program counter, and no later stage that keeps the instruction
/// in flight changes it (nor its operation).
pub proof fn lemma_pc_set_once(inst: Inst, m: MachineView)
    ensures
        inst.stage == Stage::Fetch ==> (match spec_advance(inst, m).0 {
            Ok(i2) => i2.pc == m.program_counter,
            Err(_) => true,
        }),
        inst.stage != Stage::Fetch ==> (match spec_advance(inst, m).0 {
            Ok(i2) => i2.pc == inst.pc && i2.code == inst.code,
            Err(_) => true,
        }),
{
}

/// Storing bytes and loading them back at the same address yields exactly
/// those bytes, whenever the whole range lies inside one readable and
/// writable VMA.
pub proof fn lemma_store_load_roundtrip(vmas: Seq<VmaView>, addr: u64, data: Seq<u8>, i: int)
    requires
        forall|j: int| 0 <= j < vmas.len() ==> (#[trigger] vmas[j]).wf(),
        spec_find_vma(vmas, addr as int) == Some(i),
        vmas[i].readable,
        vmas[i].writable,
        addr + data.len() <= vmas[i].lower_bound + vmas[i].size,
        data.len() <= usize::MAX,
    ensures
        spec_mem_store(vmas, addr, data, 0).0,
        spec_mem_load(spec_mem_store(vmas, addr, data, 0).1, addr, data.len() as usize, false)
            == Some((data, 0usize)),
{
    let v = vmas[i];
    lemma_find_contains(vmas, addr as int, 0);
    assert(vma_contains(v, addr as int));
    if data.len() == 0 {
        assert(spec_mem_load(vmas, addr, 0usize, false) == Some((data, 0usize))) by {
            assert(v.memory.subrange(addr - v.lower_bound, addr - v.lower_bound) =~= data);
        }
    } else {
        let start = addr - v.lower_bound;
        let end = addr + data.len() - v.lower_bound;
        let written = VmaView {
            memory: spec_write_range(v.memory, start, data.subrange(0, data.len() as int)),
            ..v
        };
        let vmas2 = vmas.update(i, written);
        assert(data.subrange(0, data.len() as int) =~= data);
        assert(spec_mem_store(vmas2, addr, data, data.len() as int) == (true, vmas2));
        assert(spec_mem_store(vmas, addr, data, 0) == (true, vmas2));
        lemma_find_same_bounds(vmas, vmas2, addr as int, 0);
        assert(spec_find_vma(vmas2, addr as int) == Some(i));
        assert(written.memory.len() == v.memory.len()) by {
            assert(spec_write_range(v.memory, start, data).len() == v.memory.len());
        }
        let loaded = spec_mem_load(vmas2, addr, data.len() as usize, false);
        assert(written.memory.subrange(start, start + data.len()) =~= data);
        assert(loaded == Some((data, 0usize)));
    }
}

/// A successful VMA search yields an index whose area contains the
/// address.
pub proof fn lemma_find_contains(vmas: Seq<VmaView>, a: int, k: int)
    ensures
        match spec_find_vma_from(vmas, a, k) {
            Some(i) => k <= i < vmas.len() && vma_contains(vmas[i], a),
            None => true,
        },
    decreases vmas.len() - k,
{
    if 0 <= k < vmas.len() && !vma_contains(vmas[k], a) {
        lemma_find_contains(vmas, a, k + 1);
    }
}

/// The VMA search depends only on the interval bounds, not the contents.
proof fn lemma_find_same_bounds(v1: Seq<VmaView>, v2: Seq<VmaView>, a: int, k: int)
    requires
        v1.len() == v2.len(),
        forall|j: int|
            0 <= j < v1.len() ==> (#[trigger] v2[j]).lower_bound == v1[j].lower_bound && v2[j].size
                == v1[j].size,
    ensures
        spec_find_vma_from(v2, a, k) == spec_find_vma_from(v1, a, k),
    decreases v1.len() - k,
{
    if 0 <= k < v1.len() {
        assert(vma_contains(v2[k], a) == vma_contains(v1[k], a));
        lemma_find_same_bounds(v1, v2, a, k + 1);
    }
}

/// Re-executing the sequential driver from the same initial machine, start
/// PC and fuel reproduces everything: the final machine (registers and
/// memory), the outputs, and the instruction and cycle totals. Together
/// with `run_seq`'s postcondition — its results equal this function of the
/// initial state — two executions agree completely.
pub proof fn lemma_seq_idempotent(
    m1: MachineView,
    m2: MachineView,
    next_pc: u64,
    start_pc: u64,
    fuel: nat,
)
    requires
        m1 == m2,
    ensures
        spec_run_seq(m1, next_pc, start_pc, false, fuel) == spec_run_seq(
            m2,
            next_pc,
            start_pc,
            false,
            fuel,
        ),
{
}

/// With the forwarding configuration fixed (it is part of the register
/// state), the pipelined driver is deterministic: equal initial machines
/// give the same retired-instruction count, the same cycle and hazard
/// counters (hence the same CPI), the same outputs, and the same final
/// machine. Together with `run_pipeline`'s postcondition, two executions
/// of the same executable agree completely.
pub proof fn lemma_pipeline_deterministic(
    p1: Pipeline,
    p2: Pipeline,
    m1: MachineView,
    m2: MachineView,
    start_pc: u64,
    fuel: nat,
)
    requires
        p1 == p2,
        m1 == m2,
    ensures
        spec_run_pipeline(p1, m1, start_pc, fuel) == spec_run_pipeline(p2, m2, start_pc, fuel),
{
}

/// Fetching at the halt sentinel halts at once and changes nothing.
pub proof fn lemma_fetch_at_halt(inst: Inst, m: MachineView)
    requires
        inst.stage == Stage::Fetch,
        m.program_counter == HLT_ADDR,
    ensures
        spec_advance(inst, m).0 == Err::<Inst, u64>(HLT_ADDR),
        spec_advance(inst, m).1 == m,
{
}

/// A sequential run whose pending program counter is already the halt
/// sentinel reports zero further retirements and zero further cycles.
pub proof fn lemma_run_at_halt_retires_nothing(m: MachineView, start_pc: u64, fuel: nat)
    requires
        spec_lib_lookup(m.lib_funcs, HLT_ADDR, 0) is None,
    ensures
        spec_run_seq(m, HLT_ADDR, start_pc, false, fuel).instructions == 0,
        spec_run_seq(m, HLT_ADDR, start_pc, false, fuel).cycles == 0,
        spec_run_seq(m, HLT_ADDR, start_pc, false, fuel).halted,
{
}

/// A load whose address is mapped and readable but whose length crosses
/// the containing VMA's upper bound reports the bytes beyond the bound as
/// a nonzero remainder — the boundary-crossing fault.
pub proof fn lemma_load_crossing_bound(
    vmas: Seq<VmaView>,
    addr: u64,
    sz: usize,
    execute: bool,
    i: int,
)
    requires
        spec_find_vma(vmas, addr as int) == Some(i),
        0 <= i < vmas.len(),
        vmas[i].readable,
        addr + sz > vmas[i].lower_bound + vmas[i].size,
    ensures
        match spec_mem_load(vmas, addr, sz, execute) {
            Some(p) => p.1 > 0,
            None => false,
        },
{
    lemma_find_contains(vmas, addr as int, 0);
}

/// A division or remainder whose divisor is zero halts at once and
/// releases the claim on the destination register: its write-pending
/// count is restored, and the register value is untouched.
pub proof fn lemma_div_zero_unlocks(inst: Inst, m: MachineView)
    requires
        inst.stage == Stage::Execute,
        inst.code matches InstCode::Div(_, _, _) || inst.code matches InstCode::Divw(_, _, _)
            || inst.code matches InstCode::Rem(_, _, _) || inst.code matches InstCode::Remw(
            _,
            _,
            _,
        ),
        inst.val2 == 0,
        m.registers.len() == 32,
        m.registers[dest_of(inst.code).unwrap().spec_encode() as int].write_cnt > 0,
    ensures
        spec_advance(inst, m).0 == Err::<Inst, u64>(HLT_ADDR),
        spec_advance(inst, m).1.registers == regs_unlock(
            m.registers,
            dest_of(inst.code).unwrap(),
        ),
        ({
            let rd = dest_of(inst.code).unwrap();
            let idx = rd.spec_encode() as int;
            &&& spec_advance(inst, m).1.registers[idx].write_cnt == m.registers[idx].write_cnt
                - 1
            &&& spec_advance(inst, m).1.registers[idx].value == m.registers[idx].value
        }),
{
    broadcast use crate::regid::lemma_spec_encode_bound;

}

/// The sign extension the Memory stage applies to a loaded byte: 0xFF read
/// by a signed byte load becomes all-ones; read by an unsigned byte load
/// it stays 0xFF.
pub proof fn lemma_byte_sign_extension()
    ensures
        (0xFFu8 as i8 as i64 as u64) == 0xFFFF_FFFF_FFFF_FFFFu64,
        (0xFFu8 as u64) == 0xFFu64,
{
    assert((0xFFu8 as i8 as i64 as u64) == 0xFFFF_FFFF_FFFF_FFFFu64) by (bit_vector);
}

} // verus!
