//! The loaded program image: virtual memory areas, registers, and the
//! bounded load/store shim the stage machine uses.

use vstd::prelude::*;
use crate::register::Register;
use crate::register::RegisterFile;

verus! {

/// A virtual memory area: the interval `[lower_bound, lower_bound + size)`
/// with uniform permission bits and a backing byte buffer.
#[derive(Debug)]
pub struct VMA {
    pub lower_bound: u64,
    pub size: u64,
    pub readable: bool,
    pub writable: bool,
    pub executable: bool,
    pub memory: Vec<u8>,
}

/// The mathematical image of one VMA.
pub struct VmaView {
    pub lower_bound: u64,
    pub size: u64,
    pub readable: bool,
    pub writable: bool,
    pub executable: bool,
    pub memory: Seq<u8>,
}

impl View for VMA {
    type V = VmaView;

    open spec fn view(&self) -> VmaView {
        VmaView {
            lower_bound: self.lower_bound,
            size: self.size,
            readable: self.readable,
            writable: self.writable,
            executable: self.executable,
            memory: self.memory@,
        }
    }
}

impl VmaView {
    /// The buffer matches the declared size and the interval does not wrap
    /// past the top of the address space.
    pub open spec fn wf(self) -> bool {
        &&& self.memory.len() == self.size
        &&& self.lower_bound + self.size <= u64::MAX
        &&& self.size <= usize::MAX
    }
}

/// Whether the address lies inside the area.
pub open spec fn vma_contains(v: VmaView, addr: int) -> bool {
    v.lower_bound <= addr && addr < v.lower_bound + v.size
}

/// Index of the first VMA at or after position `i` that contains `addr`.
pub open spec fn spec_find_vma_from(vmas: Seq<VmaView>, addr: int, i: int) -> Option<int>
    decreases vmas.len() - i,
{
    if i < 0 || i >= vmas.len() {
        None
    } else if vma_contains(vmas[i], addr) {
        Some(i)
    } else {
        spec_find_vma_from(vmas, addr, i + 1)
    }
}

/// Index of the first VMA that contains `addr`.
pub open spec fn spec_find_vma(vmas: Seq<VmaView>, addr: int) -> Option<int> {
    spec_find_vma_from(vmas, addr, 0)
}

/// `mem` with `bytes` written at offset `start`.
pub open spec fn spec_write_range(mem: Seq<u8>, start: int, bytes: Seq<u8>) -> Seq<u8> {
    mem.subrange(0, start) + bytes + mem.subrange(start + bytes.len(), mem.len() as int)
}

/// What a bounded load yields: `None` when no VMA contains `addr` or the
/// containing VMA forbids the access; otherwise the readable run up to the
/// VMA's upper bound, paired with the count of requested bytes that lie
/// beyond it (nonzero means the access crosses the boundary and the core
/// treats it as a fault).
pub open spec fn spec_mem_load(vmas: Seq<VmaView>, addr: u64, sz: usize, execute: bool) -> Option<
    (Seq<u8>, usize),
> {
    match spec_find_vma(vmas, addr as int) {
        None => None,
        Some(i) => {
            let v = vmas[i];
            if !v.readable && !(execute && v.executable) {
                None
            } else {
                let start = addr - v.lower_bound;
                let avail = v.lower_bound + v.size - addr;
                if sz <= avail {
                    Some((v.memory.subrange(start, start + sz), 0usize))
                } else {
                    Some((v.memory.subrange(start, v.size as int), (sz - avail) as usize))
                }
            }
        },
    }
}

/// What a store does: walks the VMAs across the byte range from offset
/// `cur` on, writing each contiguous intra-VMA run. Returns whether the
/// whole store succeeded together with the areas as they stand afterwards
/// (a failed store keeps the runs already written).
pub open spec fn spec_mem_store(vmas: Seq<VmaView>, addr: u64, data: Seq<u8>, cur: int) -> (
    bool,
    Seq<VmaView>,
)
    decreases data.len() - cur,
{
    if cur < 0 || cur >= data.len() {
        (true, vmas)
    } else {
        match spec_find_vma(vmas, addr + cur) {
            None => (false, vmas),
            Some(i) => {
                let v = vmas[i];
                if !v.writable {
                    (false, vmas)
                } else {
                    let start = addr + cur - v.lower_bound;
                    let end = if v.lower_bound + v.size <= addr + data.len() {
                        v.size as int
                    } else {
                        addr + data.len() - v.lower_bound
                    };
                    let nxt = cur + (end - start);
                    let written = VmaView {
                        memory: spec_write_range(v.memory, start, data.subrange(cur, nxt)),
                        ..v
                    };
                    if nxt <= cur {
                        // Cannot happen when the VMA contains `addr + cur`;
                        // kept to make the recursion well-founded.
                        (false, vmas)
                    } else {
                        spec_mem_store(vmas.update(i, written), addr, data, nxt)
                    }
                }
            },
        }
    }
}

/// A simulated library function the loader registers by address.
#[derive(Debug, Clone, Copy, PartialEq, Eq, Structural)]
pub enum LibFunc {
    Puts,
    Printf,
}

/// A running program: one program counter, one register file, and one view
/// of memory as an ordered list of VMAs, plus the loader-supplied tables
/// the drivers and the debugger consult.
#[derive(Debug)]
pub struct Program {
    pub entry_point: u64,
    pub program_counter: u64,
    pub registers: RegisterFile,
    pub vmas: Vec<VMA>,
    /// Addresses whose fetch is intercepted and simulated.
    pub simulated_library_funcs: Vec<(u64, LibFunc)>,
    /// Known function records: (start, size, name).
    pub funcs: Vec<(u64, usize, String)>,
    pub pause: usize,
    pub breakpoints: Vec<u64>,
}

/// The mathematical image of a program: every field of the image, with
/// buffers as sequences. The driver contracts pin the whole view, so the
/// fields the core never touches (the function table, the debugger's pause
/// count and breakpoints) are framed as well.
pub struct MachineView {
    pub entry_point: u64,
    pub program_counter: u64,
    pub registers: Seq<Register>,
    pub vmas: Seq<VmaView>,
    pub lib_funcs: Seq<(u64, LibFunc)>,
    pub funcs: Seq<(u64, usize, String)>,
    pub pause: usize,
    pub breakpoints: Seq<u64>,
}

impl View for Program {
    type V = MachineView;

    open spec fn view(&self) -> MachineView {
        MachineView {
            entry_point: self.entry_point,
            program_counter: self.program_counter,
            registers: self.registers.registers@,
            vmas: self.vmas@.map_values(|v: VMA| v@),
            lib_funcs: self.simulated_library_funcs@,
            funcs: self.funcs@,
            pause: self.pause,
            breakpoints: self.breakpoints@,
        }
    }
}

impl Program {
    /// Well-formed: the register file is intact and every VMA's buffer
    /// matches its declared size.
    pub open spec fn wf(self) -> bool {
        &&& self.registers.wf()
        &&& forall|i: int| 0 <= i < self.vmas@.len() ==> (#[trigger] self.vmas@[i]@).wf()
    }

    /// Find the first VMA containing `addr`.
    fn find_vma(&self, addr: u64) -> (r: Option<usize>)
        ensures
            match r {
                Some(i) => spec_find_vma(self@.vmas, addr as int) == Some(i as int) && i
                    < self.vmas.len() && vma_contains(self@.vmas[i as int], addr as int),
                None => spec_find_vma(self@.vmas, addr as int) is None,
            },
    {
        let ghost views = self@.vmas;
        let mut i: usize = 0;
        while i < self.vmas.len()
            invariant
                0 <= i <= self.vmas.len(),
                views == self@.vmas,
                views.len() == self.vmas@.len(),
                spec_find_vma(views, addr as int) == spec_find_vma_from(views, addr as int, i as int),
            decreases self.vmas.len() - i,
        {
            let v = &self.vmas[i];
            if v.lower_bound <= addr && addr - v.lower_bound < v.size {
                assert(vma_contains(views[i as int], addr as int));
                return Some(i);
            }
            assert(!vma_contains(views[i as int], addr as int));
            i = i + 1;
        }
        None
    }

    /// Bounded load of `sz` bytes at `addr`. Returns the bytes read and the
    /// count of requested bytes beyond the containing VMA's upper bound
    /// (`> 0` signals a boundary-crossing access), or `None` when the
    /// address is unmapped or the permissions forbid the access
    /// (`execute` marks an instruction fetch, which may instead rely on
    /// the execute permission).
    pub fn mem_load(&self, addr: u64, sz: usize, execute: bool) -> (r: Option<(Vec<u8>, usize)>)
        requires
            self.wf(),
        ensures
            match r {
                Some(p) => spec_mem_load(self@.vmas, addr, sz, execute) == Some((p.0@, p.1))
                    && p.0@.len() + p.1 == sz,
                None => spec_mem_load(self@.vmas, addr, sz, execute) is None,
            },
    {
        let idx = match self.find_vma(addr) {
            None => {
                return None;
            },
            Some(i) => i,
        };
        let v = &self.vmas[idx];
        assert(v@.wf());
        assert(vma_contains(v@, addr as int));
        if !v.readable && !(execute && v.executable) {
            return None;
        }
        let start = (addr - v.lower_bound) as usize;
        let avail = v.lower_bound + v.size - addr;
        if sz as u64 <= avail {
            let bytes = vec_subrange(&v.memory, start, start + sz);
            Some((bytes, 0))
        } else {
            let bytes = vec_subrange(&v.memory, start, v.size as usize);
            Some((bytes, sz - avail as usize))
        }
    }

    /// Store `data` at `addr`, walking VMAs across the range. Returns
    /// whether the whole store succeeded; on failure the runs already
    /// written remain.
    pub fn mem_store(&mut self, addr: u64, data: &Vec<u8>) -> (r: bool)
        requires
            old(self).wf(),
        ensures
            final(self).wf(),
            (r, final(self)@.vmas) == spec_mem_store(old(self)@.vmas, addr, data@, 0),
            final(self).entry_point == old(self).entry_point,
            final(self).program_counter == old(self).program_counter,
            final(self).registers == old(self).registers,
            final(self).simulated_library_funcs == old(self).simulated_library_funcs,
            final(self).funcs == old(self).funcs,
            final(self).pause == old(self).pause,
            final(self).breakpoints == old(self).breakpoints,
    {
        let sz = data.len();
        let mut cur: usize = 0;

        while cur < sz
            invariant
                self.wf(),
                sz == data@.len(),
                0 <= cur <= sz,
                spec_mem_store(self@.vmas, addr, data@, cur as int) == spec_mem_store(
                    old(self)@.vmas,
                    addr,
                    data@,
                    0,
                ),
                self.entry_point == old(self).entry_point,
                self.program_counter == old(self).program_counter,
                self.registers == old(self).registers,
                self.simulated_library_funcs == old(self).simulated_library_funcs,
                self.funcs == old(self).funcs,
                self.pause == old(self).pause,
                self.breakpoints == old(self).breakpoints,
            decreases sz - cur,
        {
            // Addresses past the top of the address space lie in no VMA.
            let a = match addr.checked_add(cur as u64) {
                Some(a) => a,
                None => {
                    proof {
                        let views = self@.vmas;
                        assert forall|j: int| 0 <= j < views.len() implies !vma_contains(
                            views[j],
                            addr + cur,
                        ) by {
                            assert(views[j].wf());
                        }
                        lemma_find_none(views, addr + cur as int, 0);
                    }
                    return false;
                },
            };
            let idx = match self.find_vma(a) {
                None => {
                    return false;
                },
                Some(i) => i,
            };
            let ghost pre = self@.vmas;
            let v = &self.vmas[idx];
            assert(v@.wf());
            assert(vma_contains(v@, a as int));
            if !v.writable {
                return false;
            }
            let start = (a - v.lower_bound) as usize;
            let avail = v.lower_bound + v.size - a;
            let rem_len = sz - cur;
            let run = if avail <= rem_len as u64 {
                avail as usize
            } else {
                rem_len
            };
            let nxt = cur + run;
            proof {
                let v0 = pre[idx as int];
                let end = if v0.lower_bound + v0.size <= addr + data@.len() {
                    v0.size as int
                } else {
                    addr + data@.len() - v0.lower_bound
                };
                assert(nxt == cur + (end - start));
            }

            let mut vma = self.vmas.remove(idx);
            copy_range(&mut vma.memory, start, data, cur, nxt);
            self.vmas.insert(idx, vma);

            proof {
                let v0 = pre[idx as int];
                let written = VmaView {
                    memory: spec_write_range(v0.memory, start as int, data@.subrange(cur as int, nxt as int)),
                    ..v0
                };
                assert(self@.vmas =~= pre.update(idx as int, written));
            }
            cur = nxt;
        }
        true
    }
}

/// The first registered library function at `pc`, searching from
/// position `i`.
pub open spec fn spec_lib_lookup(funcs: Seq<(u64, LibFunc)>, pc: u64, i: int) -> Option<LibFunc>
    decreases funcs.len() - i,
{
    if i < 0 || i >= funcs.len() {
        None
    } else if funcs[i].0 == pc {
        Some(funcs[i].1)
    } else {
        spec_lib_lookup(funcs, pc, i + 1)
    }
}

/// The simulated C string starting at `addr`: the bytes up to and
/// including the first NUL, or `None` when the walk leaves readable
/// memory.
pub open spec fn spec_cstring(vmas: Seq<VmaView>, addr: u64) -> Option<Seq<u8>>
    decreases u64::MAX - addr,
{
    match spec_mem_load(vmas, addr, 1, false) {
        None => None,
        Some(p) => {
            if p.1 != 0 {
                None
            } else {
                let b = p.0[0];
                if b == 0 {
                    Some(seq![0u8])
                } else if addr < u64::MAX {
                    match spec_cstring(vmas, (addr + 1) as u64) {
                        None => None,
                        Some(rest) => Some(seq![b] + rest),
                    }
                } else {
                    None
                }
            }
        },
    }
}

impl Program {
    /// The simulated library function registered at `pc`, if any.
    pub fn lib_func_at(&self, pc: u64) -> (r: Option<LibFunc>)
        ensures
            r == spec_lib_lookup(self@.lib_funcs, pc, 0),
    {
        let ghost funcs = self@.lib_funcs;
        let mut i: usize = 0;
        while i < self.simulated_library_funcs.len()
            invariant
                0 <= i <= funcs.len(),
                funcs == self@.lib_funcs,
                funcs.len() == self.simulated_library_funcs@.len(),
                spec_lib_lookup(funcs, pc, 0) == spec_lib_lookup(funcs, pc, i as int),
            decreases funcs.len() - i,
        {
            let entry = self.simulated_library_funcs[i];
            if entry.0 == pc {
                return Some(entry.1);
            }
            i = i + 1;
        }
        None
    }

    /// Read the NUL-terminated byte string at `addr`, NUL included.
    pub fn cstring_at(&self, addr: u64) -> (r: Option<Vec<u8>>)
        requires
            self.wf(),
        ensures
            match r {
                Some(bytes) => spec_cstring(self@.vmas, addr) == Some(bytes@),
                None => spec_cstring(self@.vmas, addr) is None,
            },
    {
        let mut bytes: Vec<u8> = Vec::new();
        let mut cur = addr;
        loop
            invariant
                self.wf(),
                match spec_cstring(self@.vmas, cur) {
                    None => spec_cstring(self@.vmas, addr) is None,
                    Some(rest) => spec_cstring(self@.vmas, addr) == Some(bytes@ + rest),
                },
            decreases u64::MAX - cur,
        {
            match self.mem_load(cur, 1, false) {
                None => {
                    return None;
                },
                Some((data, rem)) => {
                    if rem != 0 {
                        return None;
                    }
                    assert(data@.len() == 1);
                    let b = data[0];
                    bytes.push(b);
                    if b == 0 {
                        proof {
                            assert(bytes@ =~= bytes@.subrange(0, bytes@.len() - 1) + seq![0u8]);
                            assert(spec_cstring(self@.vmas, addr) == Some(bytes@));
                        }
                        return Some(bytes);
                    }
                    if cur == u64::MAX {
                        return None;
                    }
                    proof {
                        let rest0 = spec_cstring(self@.vmas, cur).unwrap();
                        let rest1 = spec_cstring(self@.vmas, (cur + 1) as u64).unwrap();
                        if spec_cstring(self@.vmas, (cur + 1) as u64) is Some {
                            assert(bytes@.subrange(0, bytes@.len() - 1) + (seq![b] + rest1)
                                =~= bytes@ + rest1);
                        }
                    }
                    cur = cur + 1;
                },
            }
        }
    }
}

/// If no VMA from position `i` on contains `addr`, the search fails.
proof fn lemma_find_none(vmas: Seq<VmaView>, addr: int, i: int)
    requires
        forall|j: int| 0 <= j < vmas.len() ==> !vma_contains(#[trigger] vmas[j], addr),
    ensures
        spec_find_vma_from(vmas, addr, i) is None,
    decreases vmas.len() - i,
{
    if 0 <= i < vmas.len() {
        lemma_find_none(vmas, addr, i + 1);
    }
}

/// Copy of the byte range `[from, to)` of `v` as a fresh vector.
pub(crate) fn vec_subrange(v: &Vec<u8>, from: usize, to: usize) -> (r: Vec<u8>)
    requires
        from <= to <= v@.len(),
    ensures
        r@ == v@.subrange(from as int, to as int),
{
    let mut r: Vec<u8> = Vec::new();
    let mut i = from;
    while i < to
        invariant
            from <= i <= to <= v@.len(),
            r@ == v@.subrange(from as int, i as int),
        decreases to - i,
    {
        r.push(v[i]);
        proof {
            assert(r@ =~= v@.subrange(from as int, i + 1 as int));
        }
        i = i + 1;
    }
    r
}

/// Overwrite `mem[start .. start + (to - from)]` with `data[from .. to]`.
fn copy_range(mem: &mut Vec<u8>, start: usize, data: &Vec<u8>, from: usize, to: usize)
    requires
        from <= to <= data@.len(),
        start + (to - from) <= old(mem)@.len(),
    ensures
        final(mem)@ == spec_write_range(old(mem)@, start as int, data@.subrange(from as int, to as int)),
{
    let mlen = mem.len();
    let mut k = from;
    while k < to
        invariant
            from <= k <= to <= data@.len(),
            start + (to - from) <= old(mem)@.len(),
            old(mem)@.len() == mlen,
            mem@.len() == old(mem)@.len(),
            forall|j: int|
                0 <= j < mem@.len() && !(start <= j < start + (k - from)) ==> #[trigger] mem@[j]
                    == old(mem)@[j],
            forall|j: int|
                start <= j < start + (k - from) ==> #[trigger] mem@[j] == data@[from + (j - start)],
        decreases to - k,
    {
        mem.set(start + (k - from), data[k]);
        k = k + 1;
    }
    proof {
        assert(mem@ =~= spec_write_range(
            old(mem)@,
            start as int,
            data@.subrange(from as int, to as int),
        ));
    }
}

} // verus!
