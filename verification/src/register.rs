//! Registers with write-pending tracking and per-cycle operand forwarding.

use vstd::prelude::*;
use crate::regid::RegID;

verus! {

/// One general register. `write_cnt` counts the in-flight instructions that
/// have claimed this register as a destination and not yet written it back;
/// `forward_values` is a transient hint valid only within the cycle that set
/// it, used (when forwarding is enabled) to satisfy reads while a write is
/// still pending.
#[derive(Debug, Clone, Copy)]
pub struct Register {
    pub id: RegID,
    pub value: u64,
    pub write_cnt: usize,
    pub forward_values: Option<u64>,
    pub enable_forwarding: bool,
}

impl Register {
    /// What a read of this register yields: x0 is always 0; with no write
    /// pending the stored value is authoritative; otherwise a forwarded
    /// value (when enabled) or "not ready" (`None`).
    pub open spec fn spec_read(self) -> Option<u64> {
        if self.id == RegID::X0 {
            Some(0u64)
        } else if self.write_cnt == 0 {
            Some(self.value)
        } else if self.enable_forwarding {
            self.forward_values
        } else {
            None
        }
    }

    /// The register after a write: unchanged for x0, stored otherwise.
    pub open spec fn spec_write(self, value: u64) -> Register {
        if self.id == RegID::X0 {
            self
        } else {
            Register { value, ..self }
        }
    }

    /// The register after a destination claim.
    pub open spec fn spec_lock(self) -> Register {
        Register { write_cnt: (self.write_cnt + 1) as usize, ..self }
    }

    /// The register after a claim is released.
    pub open spec fn spec_unlock(self) -> Register {
        Register { write_cnt: (self.write_cnt - 1) as usize, ..self }
    }

    /// The register after a value is forwarded to it (a no-op unless
    /// forwarding is enabled).
    pub open spec fn spec_forward(self, value: u64) -> Register {
        if self.enable_forwarding {
            Register { forward_values: Some(value), ..self }
        } else {
            self
        }
    }

    /// The register at the head of a new cycle: the forwarding slot is
    /// discarded.
    pub open spec fn spec_clear_forward(self) -> Register {
        Register { forward_values: None, ..self }
    }

    pub fn new(id: RegID, enable_forwarding: bool) -> (r: Register)
        ensures
            r == (Register { id, value: 0u64, write_cnt: 0usize, forward_values: None::<u64>, enable_forwarding }),
    {
        Register { id, value: 0, write_cnt: 0, forward_values: None, enable_forwarding }
    }

    /// Write `value` to the register. Writes to x0 are discarded.
    pub fn write(&mut self, value: u64)
        ensures
            *final(self) == old(self).spec_write(value),
            old(self).id == RegID::X0 ==> *final(self) == *old(self),
    {
        if !matches!(self.id, RegID::X0) {
            self.value = value;
        }
    }

    /// Read the register; `None` means "not ready" and signals a stall.
    /// x0 always reads 0.
    pub fn read(&self) -> (r: Option<u64>)
        ensures
            r == self.spec_read(),
            self.id == RegID::X0 ==> r == Some(0u64),
    {
        if matches!(self.id, RegID::X0) {
            return Some(0u64);
        }
        if self.write_cnt == 0 {
            Some(self.value)
        } else {
            if self.enable_forwarding {
                self.forward_values
            } else {
                None
            }
        }
    }

    /// Claim the register as a destination of an in-flight instruction.
    pub fn lock(&mut self)
        requires
            old(self).write_cnt < usize::MAX,
        ensures
            *final(self) == old(self).spec_lock(),
    {
        self.write_cnt = self.write_cnt + 1;
    }

    /// Release one destination claim. A release without a matching claim is
    /// an invariant violation and is excluded by the precondition.
    pub fn unlock(&mut self)
        requires
            old(self).write_cnt > 0,
        ensures
            *final(self) == old(self).spec_unlock(),
    {
        self.write_cnt = self.write_cnt - 1;
    }

    /// Insert a forwarded value for readers later in the same cycle.
    pub fn forward(&mut self, value: u64, _stage: crate::inst::Stage)
        ensures
            *final(self) == old(self).spec_forward(value),
    {
        if self.enable_forwarding {
            self.forward_values = Some(value);
        }
    }

    /// Discard the forwarding slot at the head of a cycle.
    pub fn update_forward(&mut self)
        ensures
            *final(self) == old(self).spec_clear_forward(),
            final(self).forward_values is None,
    {
        self.forward_values = None;
    }
}

/// What a read of `id` against the register sequence yields.
pub open spec fn regs_read(regs: Seq<Register>, id: RegID) -> Option<u64> {
    regs[id.spec_encode() as int].spec_read()
}

/// The register sequence after `val` is written to `id`.
pub open spec fn regs_write(regs: Seq<Register>, id: RegID, val: u64) -> Seq<Register> {
    regs.update(id.spec_encode() as int, regs[id.spec_encode() as int].spec_write(val))
}

/// The register sequence after `id` is claimed as a destination.
pub open spec fn regs_lock(regs: Seq<Register>, id: RegID) -> Seq<Register> {
    regs.update(id.spec_encode() as int, regs[id.spec_encode() as int].spec_lock())
}

/// The register sequence after one claim on `id` is released.
pub open spec fn regs_unlock(regs: Seq<Register>, id: RegID) -> Seq<Register> {
    regs.update(id.spec_encode() as int, regs[id.spec_encode() as int].spec_unlock())
}

/// The register sequence after `val` is forwarded to `id`.
pub open spec fn regs_forward(regs: Seq<Register>, id: RegID, val: u64) -> Seq<Register> {
    regs.update(id.spec_encode() as int, regs[id.spec_encode() as int].spec_forward(val))
}

/// The register sequence at the head of a new cycle.
pub open spec fn regs_clear_forward(regs: Seq<Register>) -> Seq<Register> {
    regs.map_values(|r: Register| r.spec_clear_forward())
}

/// Forwarding a value changes no write-pending count.
pub broadcast proof fn lemma_forward_cnt(regs: Seq<Register>, id: RegID, val: u64)
    requires
        regs.len() == 32,
    ensures
        (#[trigger] regs_forward(regs, id, val)).len() == 32,
        forall|i: int|
            0 <= i < 32 ==> #[trigger] regs_forward(regs, id, val)[i].write_cnt
                == regs[i].write_cnt,
{
}

/// Writing a value changes no write-pending count.
pub broadcast proof fn lemma_write_cnt(regs: Seq<Register>, id: RegID, val: u64)
    requires
        regs.len() == 32,
    ensures
        (#[trigger] regs_write(regs, id, val)).len() == 32,
        forall|i: int|
            0 <= i < 32 ==> #[trigger] regs_write(regs, id, val)[i].write_cnt
                == regs[i].write_cnt,
{
}

/// Claiming a destination raises exactly its write-pending count by one.
pub broadcast proof fn lemma_lock_cnt(regs: Seq<Register>, id: RegID)
    requires
        regs.len() == 32,
        regs[id.spec_encode() as int].write_cnt < usize::MAX,
    ensures
        (#[trigger] regs_lock(regs, id)).len() == 32,
        forall|i: int|
            0 <= i < 32 ==> #[trigger] regs_lock(regs, id)[i].write_cnt == regs[i].write_cnt + (
            if id.spec_encode() == i {
                1int
            } else {
                0int
            }),
{
}

/// Releasing a claim lowers exactly its write-pending count by one.
pub broadcast proof fn lemma_unlock_cnt(regs: Seq<Register>, id: RegID)
    requires
        regs.len() == 32,
        regs[id.spec_encode() as int].write_cnt > 0,
    ensures
        (#[trigger] regs_unlock(regs, id)).len() == 32,
        forall|i: int|
            0 <= i < 32 ==> #[trigger] regs_unlock(regs, id)[i].write_cnt == regs[i].write_cnt - (
            if id.spec_encode() == i {
                1int
            } else {
                0int
            }),
{
}

/// The fixed file of 32 registers, indexed by the encoding of their IDs.
#[derive(Debug)]
pub struct RegisterFile {
    pub registers: Vec<Register>,
}

impl RegisterFile {
    /// Well-formed: exactly 32 registers, each carrying the ID matching its
    /// position.
    pub open spec fn wf(self) -> bool {
        &&& self.registers@.len() == 32
        &&& forall|i: int|
            0 <= i < 32 ==> (#[trigger] self.registers@[i]).id == RegID::spec_decode(i as u8)
    }

    /// The value a read of `id` yields, per `Register::spec_read`.
    pub open spec fn spec_read(self, id: RegID) -> Option<u64> {
        self.registers@[id.spec_encode() as int].spec_read()
    }

    /// The register sequence after the register named `id` is replaced by
    /// `r`.
    pub open spec fn spec_update(self, id: RegID, r: Register) -> Seq<Register> {
        self.registers@.update(id.spec_encode() as int, r)
    }

    /// Build a fresh file: all values zero, nothing pending, no forwarded
    /// values.
    pub fn new(enable_forwarding: bool) -> (r: RegisterFile)
        ensures
            r.wf(),
            forall|i: int|
                0 <= i < 32 ==> (#[trigger] r.registers@[i]) == (Register {
                    id: RegID::spec_decode(i as u8),
                    value: 0u64,
                    write_cnt: 0usize,
                    forward_values: None::<u64>,
                    enable_forwarding,
                }),
    {
        let mut registers: Vec<Register> = Vec::new();
        let mut i: u8 = 0;
        while i < 32
            invariant
                i <= 32,
                registers@.len() == i as int,
                forall|j: int|
                    0 <= j < i as int ==> (#[trigger] registers@[j]) == (Register {
                        id: RegID::spec_decode(j as u8),
                        value: 0u64,
                        write_cnt: 0usize,
                        forward_values: None::<u64>,
                        enable_forwarding,
                    }),
            decreases 32 - i as int,
        {
            registers.push(Register::new(RegID::decode(i), enable_forwarding));
            i = i + 1;
        }
        RegisterFile { registers }
    }

    pub fn read(&self, id: RegID) -> (r: Option<u64>)
        requires
            self.wf(),
        ensures
            r == self.spec_read(id),
            id == RegID::X0 ==> r == Some(0u64),
    {
        let idx = id.encode() as usize;
        self.registers[idx].read()
    }

    /// Write `val` to the register named `id`; a write to x0 changes
    /// nothing.
    pub fn write(&mut self, id: RegID, val: u64)
        requires
            old(self).wf(),
        ensures
            final(self).wf(),
            final(self).registers@ == old(self).spec_update(
                id,
                old(self).registers@[id.spec_encode() as int].spec_write(val),
            ),
            id == RegID::X0 ==> final(self).registers@ == old(self).registers@,
    {
        let idx = id.encode() as usize;
        let mut r = self.registers[idx];
        r.write(val);
        self.registers.set(idx, r);
        proof {
            if id == RegID::X0 {
                assert(final(self).registers@ =~= old(self).registers@);
            }
        }
    }

    pub fn lock(&mut self, id: RegID)
        requires
            old(self).wf(),
            old(self).registers@[id.spec_encode() as int].write_cnt < usize::MAX,
        ensures
            final(self).wf(),
            final(self).registers@ == old(self).spec_update(
                id,
                old(self).registers@[id.spec_encode() as int].spec_lock(),
            ),
    {
        let idx = id.encode() as usize;
        let mut r = self.registers[idx];
        r.lock();
        self.registers.set(idx, r);
    }

    pub fn unlock(&mut self, id: RegID)
        requires
            old(self).wf(),
            old(self).registers@[id.spec_encode() as int].write_cnt > 0,
        ensures
            final(self).wf(),
            final(self).registers@ == old(self).spec_update(
                id,
                old(self).registers@[id.spec_encode() as int].spec_unlock(),
            ),
    {
        let idx = id.encode() as usize;
        let mut r = self.registers[idx];
        r.unlock();
        self.registers.set(idx, r);
    }

    pub fn forward(&mut self, id: RegID, val: u64, stage: crate::inst::Stage)
        requires
            old(self).wf(),
        ensures
            final(self).wf(),
            final(self).registers@ == old(self).spec_update(
                id,
                old(self).registers@[id.spec_encode() as int].spec_forward(val),
            ),
    {
        let idx = id.encode() as usize;
        let mut r = self.registers[idx];
        r.forward(val, stage);
        self.registers.set(idx, r);
    }

    /// Discard every forwarding slot; runs at the head of each pipeline
    /// cycle, so stale hints never cross a cycle boundary.
    pub fn update_forward(&mut self)
        requires
            old(self).wf(),
        ensures
            final(self).wf(),
            final(self).registers@.len() == 32,
            forall|i: int|
                0 <= i < 32 ==> (#[trigger] final(self).registers@[i])
                    == old(self).registers@[i].spec_clear_forward(),
            forall|i: int|
                0 <= i < 32 ==> (#[trigger] final(self).registers@[i]).forward_values is None,
    {
        let mut i: usize = 0;
        while i < 32
            invariant
                old(self).wf(),
                i <= 32,
                self.registers@.len() == 32,
                forall|j: int|
                    0 <= j < i as int ==> (#[trigger] self.registers@[j])
                        == old(self).registers@[j].spec_clear_forward(),
                forall|j: int|
                    i as int <= j < 32 ==> (#[trigger] self.registers@[j])
                        == old(self).registers@[j],
            decreases 32 - i as int,
        {
            let mut r = self.registers[i];
            r.update_forward();
            self.registers.set(i, r);
            i = i + 1;
        }
    }
}

} // verus!
