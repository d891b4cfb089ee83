//! The library's quantified laws, each proved once and for all: memory
//! round trips, the stack round trip, the exchange involutions, what a
//! completed LDIR copies, where CPIR halts, and that the screen address
//! arithmetic is a bijection onto the bitmap.

use vstd::prelude::*;

use crate::cpu::{
    add16w, flag_z, lemma_pair_split, pair, spec_ex_af, spec_ex_de_hl, spec_exx, spec_pop,
    spec_push, sub16w, Cpu,
};
use crate::exec_ed::{cp_block, ld_block};
use crate::memory::{mem_read_word, mem_write, mem_write_word};
use crate::video::bitmap_offset;

verus! {

/// Writing a byte and reading it back: RAM returns the byte, ROM returns
/// what was there before.
pub proof fn lemma_write_then_read(m: Seq<u8>, addr: u16, b: u8)
    requires
        m.len() == 0x10000,
    ensures
        addr >= 0x4000 ==> mem_write(m, addr, b)[addr as int] == b,
        addr < 0x4000 ==> mem_write(m, addr, b)[addr as int] == m[addr as int],
{
}

/// Writing a 16-bit word to RAM at an address other than 0xFFFF and
/// reading it back, little-endian, returns the word.
pub proof fn lemma_word_round_trip(m: Seq<u8>, addr: u16, v: u16)
    requires
        m.len() == 0x10000,
        addr >= 0x4000,
        addr != 0xFFFF,
    ensures
        mem_read_word(mem_write_word(m, addr, v), addr) == v,
{
}

/// PUSH then POP returns the pushed word and restores SP, whenever the
/// stack top lies in RAM and does not straddle the address-space end.
pub proof fn lemma_push_pop(cpu: Cpu, m: Seq<u8>, v: u16)
    requires
        m.len() == 0x10000,
        sub16w(cpu.sp, 2) >= 0x4000,
        sub16w(cpu.sp, 2) != 0xFFFF,
    ensures
        ({
            let (c1, m1) = spec_push(cpu, m, v);
            let (c2, val) = spec_pop(c1, m1);
            val == v && c2.sp == cpu.sp && c2 == (Cpu { sp: cpu.sp, ..c1 })
        }),
{
    let (c1, m1) = spec_push(cpu, m, v);
    lemma_word_round_trip(m, c1.sp, v);
}

/// EX AF,AF' undoes itself.
pub proof fn lemma_ex_af_involution(cpu: Cpu)
    ensures
        spec_ex_af(spec_ex_af(cpu)) == cpu,
{
}

/// EXX undoes itself.
pub proof fn lemma_exx_involution(cpu: Cpu)
    ensures
        spec_exx(spec_exx(cpu)) == cpu,
{
}

/// EX DE,HL undoes itself.
pub proof fn lemma_ex_de_hl_involution(cpu: Cpu)
    ensures
        spec_ex_de_hl(spec_ex_de_hl(cpu)) == cpu,
{
}

/// `n` repetitions of the LDI transfer core, as a completed LDIR
/// performs them.
pub open spec fn run_ld_block(cpu: Cpu, mem: Seq<u8>, n: nat) -> (Cpu, Seq<u8>)
    decreases n,
{
    if n == 0 {
        (cpu, mem)
    } else {
        let (c2, m2) = ld_block(cpu, mem, true);
        run_ld_block(c2, m2, (n - 1) as nat)
    }
}

/// A completed LDIR with BC = n copies exactly the n bytes at HL onward
/// to DE onward, touches nothing else, and leaves BC = 0, HL = HL0 + n
/// and DE = DE0 + n — provided the two ranges stay below the end of the
/// address space, do not overlap, and the destination lies in RAM.
#[verifier::rlimit(100)]
pub proof fn lemma_ldir_copies(cpu: Cpu, mem: Seq<u8>, n: nat)
    requires
        mem.len() == 0x10000,
        pair(cpu.b, cpu.c) == n,
        pair(cpu.h, cpu.l) + n <= 0xFFFF,
        pair(cpu.d, cpu.e) + n <= 0xFFFF,
        pair(cpu.d, cpu.e) >= 0x4000,
        pair(cpu.h, cpu.l) + n <= pair(cpu.d, cpu.e) || pair(cpu.d, cpu.e) + n <= pair(
            cpu.h,
            cpu.l,
        ),
    ensures
        ({
            let (c2, m2) = run_ld_block(cpu, mem, n);
            let hl0 = pair(cpu.h, cpu.l) as int;
            let de0 = pair(cpu.d, cpu.e) as int;
            &&& pair(c2.b, c2.c) == 0
            &&& pair(c2.h, c2.l) == hl0 + n
            &&& pair(c2.d, c2.e) == de0 + n
            &&& m2.len() == mem.len()
            &&& forall|k: int| 0 <= k < n ==> #[trigger] m2[de0 + k] == mem[hl0 + k]
            &&& forall|a: int|
                0 <= a < 0x10000 && !(de0 <= a < de0 + n) ==> #[trigger] m2[a] == mem[a]
        }),
    decreases n,
{
    if n == 0 {
    } else {
        let (c1, m1) = ld_block(cpu, mem, true);
        let hl0 = pair(cpu.h, cpu.l) as int;
        let de0 = pair(cpu.d, cpu.e) as int;
        lemma_pair_split(add16w(pair(cpu.h, cpu.l), 1));
        lemma_pair_split(add16w(pair(cpu.d, cpu.e), 1));
        lemma_pair_split(sub16w(pair(cpu.b, cpu.c), 1));
        assert(pair(c1.h, c1.l) == hl0 + 1);
        assert(pair(c1.d, c1.e) == de0 + 1);
        assert(pair(c1.b, c1.c) == n - 1);
        assert(m1 == mem.update(de0, mem[hl0]));
        lemma_ldir_copies(c1, m1, (n - 1) as nat);
        let (c2, m2) = run_ld_block(c1, m1, (n - 1) as nat);
        assert(m2[de0] == m1[de0]);
        assert(m1[de0] == mem[hl0]);
        assert forall|k: int| 0 <= k < n implies #[trigger] m2[de0 + k] == mem[hl0 + k] by {
            if k == 0 {
                assert(m2[de0] == mem[hl0]);
            } else {
                let j = k - 1;
                assert(m2[de0 + 1 + j] == m1[hl0 + 1 + j]);
                assert(m1[hl0 + 1 + j] == mem[hl0 + 1 + j]);
            }
        }
    }
}

/// The number of compare steps a CPIR performs: it stops after the first
/// match, or after `n` steps when no byte in range matches.
pub open spec fn match_len(mem: Seq<u8>, a: u8, hl: int, n: nat) -> nat
    decreases n,
{
    if n == 0 {
        0
    } else if mem[hl] == a {
        1
    } else {
        1 + match_len(mem, a, hl + 1, (n - 1) as nat)
    }
}

/// `n` repetitions of the CPI compare core, stopping early on a match,
/// exactly as a completed CPIR performs them.
pub open spec fn run_cp_block(cpu: Cpu, mem: Seq<u8>, n: nat) -> Cpu
    decreases n,
{
    if n == 0 {
        cpu
    } else {
        let c2 = cp_block(cpu, mem, true);
        if cpu.a == mem[pair(cpu.h, cpu.l) as int] {
            c2
        } else {
            run_cp_block(c2, mem, (n - 1) as nat)
        }
    }
}

/// A completed CPIR with BC = n halts on the first match or after n
/// steps, whichever comes first; HL has moved one past the last byte
/// compared, BC holds what was not searched, and Z records whether the
/// last byte compared matched A.
#[verifier::rlimit(100)]
#[verifier::spinoff_prover]
pub proof fn lemma_cpir_halts(cpu: Cpu, mem: Seq<u8>, n: nat)
    requires
        mem.len() == 0x10000,
        pair(cpu.b, cpu.c) == n,
        n >= 1,
        pair(cpu.h, cpu.l) + n <= 0xFFFF,
    ensures
        ({
            let c2 = run_cp_block(cpu, mem, n);
            let hl0 = pair(cpu.h, cpu.l) as int;
            let it = match_len(mem, cpu.a, hl0, n);
            &&& 1 <= it <= n
            &&& pair(c2.h, c2.l) == hl0 + it
            &&& pair(c2.b, c2.c) == n - it
            &&& flag_z(c2.f) == (mem[hl0 + it - 1] == cpu.a)
            &&& (mem[hl0 + it - 1] == cpu.a || it == n)
            &&& forall|k: int| 0 <= k < it - 1 ==> #[trigger] mem[hl0 + k] != cpu.a
        }),
    decreases n,
{
    let hl0 = pair(cpu.h, cpu.l) as int;
    let c1 = cp_block(cpu, mem, true);
    lemma_pair_split(add16w(pair(cpu.h, cpu.l), 1));
    lemma_pair_split(sub16w(pair(cpu.b, cpu.c), 1));
    assert(pair(c1.h, c1.l) == hl0 + 1);
    assert(pair(c1.b, c1.c) == n - 1);
    assert(flag_z(c1.f) == (mem[hl0] == cpu.a)) by {
        crate::cpu::lemma_flags_decode();
    }
    if cpu.a == mem[hl0] {
        assert(match_len(mem, cpu.a, hl0, n) == 1);
    } else {
        if n == 1 {
            assert(match_len(mem, cpu.a, hl0 + 1, 0) == 0);
            assert(match_len(mem, cpu.a, hl0, n) == 1);
        } else {
            lemma_cpir_halts(c1, mem, (n - 1) as nat);
            let it2 = match_len(mem, cpu.a, hl0 + 1, (n - 1) as nat);
            assert(match_len(mem, cpu.a, hl0, n) == 1 + it2);
            let c2 = run_cp_block(c1, mem, (n - 1) as nat);
            assert(run_cp_block(cpu, mem, n) == c2);
            assert(pair(c2.h, c2.l) == hl0 + 1 + it2);
            assert(pair(c2.b, c2.c) == (n - 1) - it2);
            assert(flag_z(c2.f) == (mem[hl0 + 1 + it2 - 1] == cpu.a));
            assert(mem[hl0 + 1 + it2 - 1] == cpu.a || it2 == n - 1);
            assert forall|k: int| 0 <= k < (1 + it2) - 1 implies #[trigger] mem[hl0 + k]
                != cpu.a by {
                if k == 0 {
                    assert(mem[hl0] != cpu.a);
                } else {
                    assert(mem[hl0 + 1 + (k - 1)] != cpu.a);
                }
            }
        }
    }
}

/// Every screen pixel's byte address lies inside the 6144-byte bitmap.
pub proof fn lemma_bitmap_offset_range(x: int, y: int)
    requires
        0 <= x < 256,
        0 <= y < 192,
    ensures
        0 <= bitmap_offset(x, y) < 6144,
{
}

/// Distinct (byte-column, line) pairs of the 32x192 grid land on
/// distinct bitmap offsets — together with the range above and the count
/// 32 * 192 == 6144, the screen address arithmetic is a bijection onto
/// the bitmap.
pub proof fn lemma_bitmap_offset_injective(x1: int, y1: int, x2: int, y2: int)
    requires
        0 <= x1 < 256,
        0 <= y1 < 192,
        0 <= x2 < 256,
        0 <= y2 < 192,
        bitmap_offset(x1, y1) == bitmap_offset(x2, y2),
    ensures
        x1 / 8 == x2 / 8,
        y1 == y2,
{
    let off = bitmap_offset(x1, y1);
    lemma_offset_decode(x1, y1);
    lemma_offset_decode(x2, y2);
}

/// The screen offset decomposes back into its column, third, scan and
/// row fields: the mixed-radix digits are recoverable, so the encoding
/// loses nothing.
proof fn lemma_offset_decode(x: int, y: int)
    requires
        0 <= x < 256,
        0 <= y < 192,
    ensures
        bitmap_offset(x, y) % 32 == x / 8,
        (bitmap_offset(x, y) / 32) % 8 == (y % 64) / 8,
        (bitmap_offset(x, y) / 256) % 8 == y % 8,
        bitmap_offset(x, y) / 2048 == y / 64,
{
    let col = x / 8;
    let third = y / 64;
    let line = y % 64;
    let scan = line / 8;
    let pr = line % 8;
    assert(0 <= col < 32);
    assert(0 <= third < 3);
    assert(0 <= scan < 8);
    assert(0 <= pr < 8);
    assert(pr == y % 8) by (nonlinear_arith)
        requires
            0 <= y < 192,
            line == y % 64,
            pr == line % 8,
    ;
    let off = third * 2048 + pr * 256 + scan * 32 + col;
    assert(off % 32 == col && (off / 32) % 8 == scan && (off / 256) % 8 == pr && off / 2048
        == third) by (nonlinear_arith)
        requires
            0 <= col < 32,
            0 <= third < 3,
            0 <= scan < 8,
            0 <= pr < 8,
            off == third * 2048 + pr * 256 + scan * 32 + col,
    ;
}

} // verus!
