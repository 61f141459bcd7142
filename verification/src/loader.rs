//! Assembly of a program image from loaded segments, and the loader-facing
//! types. Reading the executable and discovering its segments and symbols
//! is I/O done by the embedding binary; what it hands over are plain
//! values, and the image built from them is pinned down here: the stack,
//! the stack pointer, and the halt-on-return link register.

use vstd::prelude::*;
use crate::HLT_ADDR;
use crate::program::LibFunc;
use crate::program::Program;
use crate::program::VMA;
use crate::register::RegisterFile;
use crate::regid::RegID;

verus! {

/// Lowest address just above the stack; the stack grows down from here.
pub const STACK_BOTTOM: u64 = 0x4000000u64;

/// Size of the stack VMA in bytes (1 MiB).
pub const STACK_SIZE: u64 = 0x100000u64;

/// The stack alignment the target must declare.
pub const STACK_ALIGNMENT: usize = 16;

/// Arch attribute an executable must carry to be simulated.
#[derive(Debug, Clone, Copy, PartialEq, Eq, Structural)]
pub enum ELFArch {
    Rv64I,
}

impl ELFArch {
    /// The architecture tag string this arch matches in the executable's
    /// attribute section.
    pub fn tag(&self) -> (r: &'static str)
        ensures
            r@ == "\"rv64i2p0_m2p0_a2p0_f2p0_d2p0_c2p0\""@,
    {
        "\"rv64i2p0_m2p0_a2p0_f2p0_d2p0_c2p0\""
    }
}

/// The loading configuration: the expected architecture and the path of
/// the executable image.
#[derive(Debug)]
pub struct Loader {
    pub target_arch: ELFArch,
    pub path: String,
}

impl Loader {
    pub fn new(target_arch: ELFArch, path: &str) -> (r: Loader)
        ensures
            r.target_arch == target_arch,
            r.path@ == path@,
    {
        Loader { target_arch, path: <String as vstd::string::StringExecFns>::from_str(path) }
    }
}

/// The numeric value of one ASCII hex digit.
pub open spec fn spec_hex_digit(b: u8) -> Option<u8> {
    if 0x30 <= b <= 0x39 {
        Some((b - 0x30) as u8)
    } else if 0x61 <= b <= 0x66 {
        Some((b - 0x61 + 10) as u8)
    } else if 0x41 <= b <= 0x46 {
        Some((b - 0x41 + 10) as u8)
    } else {
        None
    }
}

/// The numeric value of an ASCII hex string (most significant digit
/// first); `None` when any byte is not a hex digit.
pub open spec fn spec_hex_value(s: Seq<u8>) -> Option<nat>
    decreases s.len(),
{
    if s.len() == 0 {
        Some(0nat)
    } else {
        match (spec_hex_value(s.drop_last()), spec_hex_digit(s.last())) {
            (Some(p), Some(d)) => Some((p * 16 + d) as nat),
            _ => None,
        }
    }
}

/// The numeric value of one ASCII decimal digit.
pub open spec fn spec_dec_digit(b: u8) -> Option<u8> {
    if 0x30 <= b <= 0x39 {
        Some((b - 0x30) as u8)
    } else {
        None
    }
}

/// The numeric value of an ASCII decimal string; `None` when any byte is
/// not a digit.
pub open spec fn spec_dec_value(s: Seq<u8>) -> Option<nat>
    decreases s.len(),
{
    if s.len() == 0 {
        Some(0nat)
    } else {
        match (spec_dec_value(s.drop_last()), spec_dec_digit(s.last())) {
            (Some(p), Some(d)) => Some((p * 10 + d) as nat),
            _ => None,
        }
    }
}

/// A digit string's value is no smaller than any prefix's value.
proof fn lemma_hex_prefix_le(s: Seq<u8>, i: int)
    requires
        0 <= i <= s.len(),
        spec_hex_value(s) is Some,
    ensures
        spec_hex_value(s.subrange(0, i)) is Some,
        spec_hex_value(s.subrange(0, i)).unwrap() <= spec_hex_value(s).unwrap(),
    decreases s.len() - i,
{
    if i == s.len() {
        assert(s.subrange(0, i) =~= s);
    } else {
        lemma_hex_prefix_le(s, i + 1);
        let t = s.subrange(0, i + 1);
        assert(t.drop_last() =~= s.subrange(0, i));
    }
}

/// As `lemma_hex_prefix_le`, for decimal strings.
proof fn lemma_dec_prefix_le(s: Seq<u8>, i: int)
    requires
        0 <= i <= s.len(),
        spec_dec_value(s) is Some,
    ensures
        spec_dec_value(s.subrange(0, i)) is Some,
        spec_dec_value(s.subrange(0, i)).unwrap() <= spec_dec_value(s).unwrap(),
    decreases s.len() - i,
{
    if i == s.len() {
        assert(s.subrange(0, i) =~= s);
    } else {
        lemma_dec_prefix_le(s, i + 1);
        let t = s.subrange(0, i + 1);
        assert(t.drop_last() =~= s.subrange(0, i));
    }
}

/// Parse a nonempty ASCII hex string into a `u64`: exactly its numeric
/// value, or `None` when the string is empty, holds a non-digit, or does
/// not fit.
pub fn parse_hex_u64(s: &[u8]) -> (r: Option<u64>)
    ensures
        match r {
            Some(v) => s@.len() > 0 && spec_hex_value(s@) == Some(v as nat),
            None => s@.len() == 0 || spec_hex_value(s@) is None || spec_hex_value(s@).unwrap()
                > u64::MAX,
        },
{
    if s.len() == 0 {
        return None;
    }
    let mut acc: u64 = 0;
    let mut i: usize = 0;
    while i < s.len()
        invariant
            0 <= i <= s@.len(),
            spec_hex_value(s@.subrange(0, i as int)) == Some(acc as nat),
        decreases s@.len() - i,
    {
        let b = s[i];
        let d: u8 = if 0x30 <= b && b <= 0x39 {
            b - 0x30
        } else if 0x61 <= b && b <= 0x66 {
            b - 0x61 + 10
        } else if 0x41 <= b && b <= 0x46 {
            b - 0x41 + 10
        } else {
            proof {
                assert(s@.subrange(0, i + 1 as int).drop_last() =~= s@.subrange(0, i as int));
                assert(spec_hex_value(s@.subrange(0, i + 1 as int)) is None);
                if spec_hex_value(s@) is Some {
                    lemma_hex_prefix_le(s@, i + 1 as int);
                }
            }
            return None;
        };
        let wide: u128 = (acc as u128) * 16 + (d as u128);
        if wide > u64::MAX as u128 {
            proof {
                assert(s@.subrange(0, i + 1 as int).drop_last() =~= s@.subrange(0, i as int));
                if spec_hex_value(s@) is Some {
                    lemma_hex_prefix_le(s@, i + 1 as int);
                }
            }
            return None;
        }
        acc = wide as u64;
        proof {
            assert(s@.subrange(0, i + 1 as int).drop_last() =~= s@.subrange(0, i as int));
        }
        i = i + 1;
    }
    proof {
        assert(s@.subrange(0, s@.len() as int) =~= s@);
    }
    Some(acc)
}

/// Parse a nonempty ASCII decimal string into a `usize`, as
/// `parse_hex_u64` does for hex.
pub fn parse_dec_usize(s: &[u8]) -> (r: Option<usize>)
    ensures
        match r {
            Some(v) => s@.len() > 0 && spec_dec_value(s@) == Some(v as nat),
            None => s@.len() == 0 || spec_dec_value(s@) is None || spec_dec_value(s@).unwrap()
                > usize::MAX,
        },
{
    if s.len() == 0 {
        return None;
    }
    let mut acc: usize = 0;
    let mut i: usize = 0;
    while i < s.len()
        invariant
            0 <= i <= s@.len(),
            spec_dec_value(s@.subrange(0, i as int)) == Some(acc as nat),
        decreases s@.len() - i,
    {
        let b = s[i];
        let d: u8 = if 0x30 <= b && b <= 0x39 {
            b - 0x30
        } else {
            proof {
                assert(s@.subrange(0, i + 1 as int).drop_last() =~= s@.subrange(0, i as int));
                assert(spec_dec_value(s@.subrange(0, i + 1 as int)) is None);
                if spec_dec_value(s@) is Some {
                    lemma_dec_prefix_le(s@, i + 1 as int);
                }
            }
            return None;
        };
        let wide: u128 = (acc as u128) * 10 + (d as u128);
        if wide > usize::MAX as u128 {
            proof {
                assert(s@.subrange(0, i + 1 as int).drop_last() =~= s@.subrange(0, i as int));
                if spec_dec_value(s@) is Some {
                    lemma_dec_prefix_le(s@, i + 1 as int);
                }
            }
            return None;
        }
        acc = wide as usize;
        proof {
            assert(s@.subrange(0, i + 1 as int).drop_last() =~= s@.subrange(0, i as int));
        }
        i = i + 1;
    }
    proof {
        assert(s@.subrange(0, s@.len() as int) =~= s@);
    }
    Some(acc)
}

/// A zeroed byte buffer of length `n`.
fn zeroed(n: usize) -> (r: Vec<u8>)
    ensures
        r@.len() == n,
        forall|i: int| 0 <= i < n ==> r@[i] == 0u8,
{
    let mut r: Vec<u8> = Vec::new();
    let mut i: usize = 0;
    while i < n
        invariant
            i <= n,
            r@.len() == i,
            forall|j: int| 0 <= j < i ==> r@[j] == 0u8,
        decreases n - i,
    {
        r.push(0u8);
        i = i + 1;
    }
    r
}

impl Program {
    /// Build the image the loader promises: the given loadable segments
    /// plus a zeroed 1 MiB stack ending at `STACK_BOTTOM`, the stack
    /// pointer at that top, the return-address register preset to the halt
    /// sentinel so returning from the entry halts, and both the entry
    /// point and the program counter at `entry`.
    pub fn assemble(
        entry: u64,
        vmas: Vec<VMA>,
        simulated_library_funcs: Vec<(u64, LibFunc)>,
        funcs: Vec<(u64, usize, String)>,
        enable_forwarding: bool,
    ) -> (r: Program)
        requires
            forall|i: int| 0 <= i < vmas@.len() ==> (#[trigger] vmas@[i]@).wf(),
        ensures
            r.wf(),
            r.entry_point == entry,
            r.program_counter == entry,
            r@.vmas.len() == vmas@.len() + 1,
            forall|i: int| 0 <= i < vmas@.len() ==> r@.vmas[i] == #[trigger] vmas@[i]@,
            r@.vmas.last().lower_bound == STACK_BOTTOM - STACK_SIZE,
            r@.vmas.last().size == STACK_SIZE,
            r@.vmas.last().readable && r@.vmas.last().writable && !r@.vmas.last().executable,
            r@.registers[RegID::X2.spec_encode() as int].value == STACK_BOTTOM,
            r@.registers[RegID::X1.spec_encode() as int].value == HLT_ADDR,
            forall|i: int|
                0 <= i < 32 ==> (#[trigger] r@.registers[i]).write_cnt == 0
                    && r@.registers[i].forward_values is None && r@.registers[i].enable_forwarding
                    == enable_forwarding,
            forall|i: int|
                0 <= i < 32 && i != 1 && i != 2 ==> (#[trigger] r@.registers[i]).value == 0,
            forall|i: int| 0 <= i < STACK_SIZE ==> r@.vmas.last().memory[i] == 0u8,
            r@.lib_funcs == simulated_library_funcs@,
    {
        let mut vmas = vmas;
        let stack = VMA {
            lower_bound: STACK_BOTTOM - STACK_SIZE,
            size: STACK_SIZE,
            readable: true,
            writable: true,
            executable: false,
            memory: zeroed(STACK_SIZE as usize),
        };
        proof {
            assert(stack@.wf());
        }
        vmas.push(stack);

        let mut registers = RegisterFile::new(enable_forwarding);
        registers.write(RegID::X2, STACK_BOTTOM);
        // Returning from the entry function lands on the halt sentinel.
        registers.write(RegID::X1, HLT_ADDR);

        Program {
            entry_point: entry,
            program_counter: entry,
            registers,
            vmas,
            simulated_library_funcs,
            funcs,
            pause: 0,
            breakpoints: Vec::new(),
        }
    }
}

} // verus!
