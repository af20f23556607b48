//! CPU architecture and vector instruction set detection.
use vstd::prelude::*;

verus! {

/// CPU architecture families that the engine distinguishes.
#[derive(Debug, Clone, Copy, PartialEq, Eq, Structural)]
pub enum CpuArchitecture {
    X86_64,
    AArch64,
    Mips,
    PowerPC,
    RiscV,
    Unknown,
}

/// Target architecture names, as the compiler spells them (ASCII codes).
pub open spec fn name_x86_64() -> Seq<u8> {
    seq![120u8, 56u8, 54u8, 95u8, 54u8, 52u8]
}

pub open spec fn name_aarch64() -> Seq<u8> {
    seq![97u8, 97u8, 114u8, 99u8, 104u8, 54u8, 52u8]
}

pub open spec fn name_mips() -> Seq<u8> {
    seq![109u8, 105u8, 112u8, 115u8]
}

pub open spec fn name_mips64() -> Seq<u8> {
    seq![109u8, 105u8, 112u8, 115u8, 54u8, 52u8]
}

pub open spec fn name_powerpc() -> Seq<u8> {
    seq![112u8, 111u8, 119u8, 101u8, 114u8, 112u8, 99u8]
}

pub open spec fn name_powerpc64() -> Seq<u8> {
    seq![112u8, 111u8, 119u8, 101u8, 114u8, 112u8, 99u8, 54u8, 52u8]
}

pub open spec fn name_riscv32() -> Seq<u8> {
    seq![114u8, 105u8, 115u8, 99u8, 118u8, 51u8, 50u8]
}

pub open spec fn name_riscv64() -> Seq<u8> {
    seq![114u8, 105u8, 115u8, 99u8, 118u8, 54u8, 52u8]
}

/// The architecture family that a target architecture name belongs to.
pub open spec fn architecture_of(name: Seq<u8>) -> CpuArchitecture {
    if name == name_x86_64() {
        CpuArchitecture::X86_64
    } else if name == name_aarch64() {
        CpuArchitecture::AArch64
    } else if name == name_mips() || name == name_mips64() {
        CpuArchitecture::Mips
    } else if name == name_powerpc() || name == name_powerpc64() {
        CpuArchitecture::PowerPC
    } else if name == name_riscv32() || name == name_riscv64() {
        CpuArchitecture::RiscV
    } else {
        CpuArchitecture::Unknown
    }
}

fn bytes_equal(a: &[u8], b: &[u8]) -> (r: bool)
    ensures
        r == (a@ == b@),
{
    if a.len() != b.len() {
        return false;
    }
    let mut i: usize = 0;
    while i < a.len()
        invariant
            a@.len() == b@.len(),
            i <= a@.len(),
            forall|k: int| 0 <= k < i ==> a@[k] == b@[k],
        decreases a@.len() - i,
    {
        if a[i] != b[i] {
            return false;
        }
        i = i + 1;
    }
    assert(a@ =~= b@);
    true
}

/// Maps the name of the target architecture (`"x86_64"`, `"aarch64"`, ...)
/// to its family; a name outside the known families is `Unknown`.
pub fn detect_cpu_architecture(target_arch: &[u8]) -> (r: CpuArchitecture)
    ensures
        r == architecture_of(target_arch@),
{
    // The same names as the `name_*` functions, in ASCII.
    let x86_64: [u8; 6] = [120u8, 56u8, 54u8, 95u8, 54u8, 52u8];
    let aarch64: [u8; 7] = [97u8, 97u8, 114u8, 99u8, 104u8, 54u8, 52u8];
    let mips: [u8; 4] = [109u8, 105u8, 112u8, 115u8];
    let mips64: [u8; 6] = [109u8, 105u8, 112u8, 115u8, 54u8, 52u8];
    let powerpc: [u8; 7] = [112u8, 111u8, 119u8, 101u8, 114u8, 112u8, 99u8];
    let powerpc64: [u8; 9] = [112u8, 111u8, 119u8, 101u8, 114u8, 112u8, 99u8, 54u8, 52u8];
    let riscv32: [u8; 7] = [114u8, 105u8, 115u8, 99u8, 118u8, 51u8, 50u8];
    let riscv64: [u8; 7] = [114u8, 105u8, 115u8, 99u8, 118u8, 54u8, 52u8];
    assert(x86_64@ =~= name_x86_64());
    assert(aarch64@ =~= name_aarch64());
    assert(mips@ =~= name_mips());
    assert(mips64@ =~= name_mips64());
    assert(powerpc@ =~= name_powerpc());
    assert(powerpc64@ =~= name_powerpc64());
    assert(riscv32@ =~= name_riscv32());
    assert(riscv64@ =~= name_riscv64());
    if bytes_equal(target_arch, x86_64.as_slice()) {
        CpuArchitecture::X86_64
    } else if bytes_equal(target_arch, aarch64.as_slice()) {
        CpuArchitecture::AArch64
    } else if bytes_equal(target_arch, mips.as_slice()) || bytes_equal(target_arch, mips64.as_slice()) {
        CpuArchitecture::Mips
    } else if bytes_equal(target_arch, powerpc.as_slice()) || bytes_equal(
        target_arch,
        powerpc64.as_slice(),
    ) {
        CpuArchitecture::PowerPC
    } else if bytes_equal(target_arch, riscv32.as_slice()) || bytes_equal(target_arch, riscv64.as_slice()) {
        CpuArchitecture::RiscV
    } else {
        CpuArchitecture::Unknown
    }
}

/// Vector instruction sets, strongest first within each architecture.
#[derive(Debug, Clone, Copy, PartialEq, Eq, Structural)]
pub enum SimdInstructionSet {
    AVX512,
    AVX2,
    AVX,
    SSE4_2,
    SSE4_1,
    SSE2,
    Neon,
    MSA,
    Altivec,
    RVV,
    NoSimd,
}

/// The CPU features that the running processor reports.
#[derive(Debug, Clone, Copy, PartialEq, Eq, Structural)]
pub struct CpuFeatures {
    pub avx512f: bool,
    pub avx2: bool,
    pub avx: bool,
    pub sse4_2: bool,
    pub sse4_1: bool,
    pub sse2: bool,
    pub neon: bool,
    pub msa: bool,
    pub altivec: bool,
    pub rvv: bool,
}

/// The strongest instruction set of `arch` among the reported features;
/// `NoSimd` where the architecture has none of them or is unknown.
pub open spec fn strongest_instruction_set(arch: CpuArchitecture, f: CpuFeatures) -> SimdInstructionSet {
    match arch {
        CpuArchitecture::X86_64 => {
            if f.avx512f {
                SimdInstructionSet::AVX512
            } else if f.avx2 {
                SimdInstructionSet::AVX2
            } else if f.avx {
                SimdInstructionSet::AVX
            } else if f.sse4_2 {
                SimdInstructionSet::SSE4_2
            } else if f.sse4_1 {
                SimdInstructionSet::SSE4_1
            } else if f.sse2 {
                SimdInstructionSet::SSE2
            } else {
                SimdInstructionSet::NoSimd
            }
        },
        CpuArchitecture::AArch64 => if f.neon {
            SimdInstructionSet::Neon
        } else {
            SimdInstructionSet::NoSimd
        },
        CpuArchitecture::Mips => if f.msa {
            SimdInstructionSet::MSA
        } else {
            SimdInstructionSet::NoSimd
        },
        CpuArchitecture::PowerPC => if f.altivec {
            SimdInstructionSet::Altivec
        } else {
            SimdInstructionSet::NoSimd
        },
        CpuArchitecture::RiscV => if f.rvv {
            SimdInstructionSet::RVV
        } else {
            SimdInstructionSet::NoSimd
        },
        CpuArchitecture::Unknown => SimdInstructionSet::NoSimd,
    }
}

/// The architecture that an instruction set belongs to (`Unknown` for `NoSimd`).
pub open spec fn family_of(s: SimdInstructionSet) -> CpuArchitecture {
    match s {
        SimdInstructionSet::AVX512 | SimdInstructionSet::AVX2 | SimdInstructionSet::AVX
        | SimdInstructionSet::SSE4_2 | SimdInstructionSet::SSE4_1
        | SimdInstructionSet::SSE2 => CpuArchitecture::X86_64,
        SimdInstructionSet::Neon => CpuArchitecture::AArch64,
        SimdInstructionSet::MSA => CpuArchitecture::Mips,
        SimdInstructionSet::Altivec => CpuArchitecture::PowerPC,
        SimdInstructionSet::RVV => CpuArchitecture::RiscV,
        SimdInstructionSet::NoSimd => CpuArchitecture::Unknown,
    }
}

/// Picks the strongest vector instruction set that `arch` offers among the
/// reported features; never fails, and falls back to `NoSimd`.
pub fn detect_simd_instruction_set(arch: CpuArchitecture, features: &CpuFeatures) -> (r:
    SimdInstructionSet)
    ensures
        r == strongest_instruction_set(arch, *features),
        r == SimdInstructionSet::NoSimd || family_of(r) == arch,
{
    match arch {
        CpuArchitecture::X86_64 => {
            if features.avx512f {
                SimdInstructionSet::AVX512
            } else if features.avx2 {
                SimdInstructionSet::AVX2
            } else if features.avx {
                SimdInstructionSet::AVX
            } else if features.sse4_2 {
                SimdInstructionSet::SSE4_2
            } else if features.sse4_1 {
                SimdInstructionSet::SSE4_1
            } else if features.sse2 {
                SimdInstructionSet::SSE2
            } else {
                SimdInstructionSet::NoSimd
            }
        },
        CpuArchitecture::AArch64 => if features.neon {
            SimdInstructionSet::Neon
        } else {
            SimdInstructionSet::NoSimd
        },
        CpuArchitecture::Mips => if features.msa {
            SimdInstructionSet::MSA
        } else {
            SimdInstructionSet::NoSimd
        },
        CpuArchitecture::PowerPC => if features.altivec {
            SimdInstructionSet::Altivec
        } else {
            SimdInstructionSet::NoSimd
        },
        CpuArchitecture::RiscV => if features.rvv {
            SimdInstructionSet::RVV
        } else {
            SimdInstructionSet::NoSimd
        },
        CpuArchitecture::Unknown => SimdInstructionSet::NoSimd,
    }
}

} // verus!
