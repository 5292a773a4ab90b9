use vstd::prelude::*;
use crate::bounded::BoundedArray;
use crate::consts::{
    cs_arch, CS_ARCH_ARM, CS_ARCH_ARM64, CS_ARCH_MIPS, CS_ARCH_PPC, CS_ARCH_SPARC, CS_ARCH_SYSZ,
    CS_ARCH_X86, CS_ARCH_XCORE,
};
use crate::pointer_iter::PointerIter;

verus! {

/// One decoded operand: a register, an immediate, a memory reference, or
/// another architecture-specific kind (a floating-point immediate, a system
/// register, ...) given by the engine's operand type tag alone.
#[derive(Clone, Copy, Debug, PartialEq, Eq, Structural)]
pub enum Operand {
    Invalid,
    Reg(u32),
    Imm(i64),
    Mem { base: u32, index: u32, scale: i32, disp: i64 },
    Other(u32),
}
pub const ARM_MAX_OPERANDS: usize = 36;
pub const ARM64_MAX_OPERANDS: usize = 8;
pub const MIPS_MAX_OPERANDS: usize = 8;
pub const PPC_MAX_OPERANDS: usize = 8;
pub const SPARC_MAX_OPERANDS: usize = 4;
pub const SYSZ_MAX_OPERANDS: usize = 6;
pub const X86_MAX_OPERANDS: usize = 8;
pub const XCORE_MAX_OPERANDS: usize = 8;

/// The ARM operand detail: at most 36 operands, of which `op_count`
/// are in use.
#[derive(Debug)]
pub struct cs_arm {
    operands: BoundedArray<Operand, ARM_MAX_OPERANDS>,
}

impl cs_arm {
    /// The operands in use.
    pub closed spec fn operand_list(self) -> Seq<Operand> {
        self.operands.elements()
    }

    /// The first `op_count` of `operands` are the instruction's operands.
    pub fn new(operands: [Operand; ARM_MAX_OPERANDS], op_count: usize) -> (r: Self)
        requires
            op_count <= ARM_MAX_OPERANDS,
        ensures
            r.operand_list() == operands@.subrange(0, op_count as int),
    {
        cs_arm { operands: BoundedArray::new(operands, op_count) }
    }

    /// The number of operands in use, within the capacity.
    pub fn op_count(&self) -> (r: usize)
        ensures
            r == self.operand_list().len(),
            r <= ARM_MAX_OPERANDS,
    {
        self.operands.count()
    }

    /// A view over exactly the operands in use.
    pub fn operand_iter(&self) -> (r: PointerIter<'_, Operand>)
        ensures
            r.elements() == self.operand_list(),
            r.position() == 0,
    {
        self.operands.iter()
    }
}

/// The ARM64 operand detail: at most 8 operands, of which `op_count`
/// are in use.
#[derive(Debug)]
pub struct cs_arm64 {
    operands: BoundedArray<Operand, ARM64_MAX_OPERANDS>,
}

impl cs_arm64 {
    /// The operands in use.
    pub closed spec fn operand_list(self) -> Seq<Operand> {
        self.operands.elements()
    }

    /// The first `op_count` of `operands` are the instruction's operands.
    pub fn new(operands: [Operand; ARM64_MAX_OPERANDS], op_count: usize) -> (r: Self)
        requires
            op_count <= ARM64_MAX_OPERANDS,
        ensures
            r.operand_list() == operands@.subrange(0, op_count as int),
    {
        cs_arm64 { operands: BoundedArray::new(operands, op_count) }
    }

    /// The number of operands in use, within the capacity.
    pub fn op_count(&self) -> (r: usize)
        ensures
            r == self.operand_list().len(),
            r <= ARM64_MAX_OPERANDS,
    {
        self.operands.count()
    }

    /// A view over exactly the operands in use.
    pub fn operand_iter(&self) -> (r: PointerIter<'_, Operand>)
        ensures
            r.elements() == self.operand_list(),
            r.position() == 0,
    {
        self.operands.iter()
    }
}

/// The MIPS operand detail: at most 8 operands, of which `op_count`
/// are in use.
#[derive(Debug)]
pub struct cs_mips {
    operands: BoundedArray<Operand, MIPS_MAX_OPERANDS>,
}

impl cs_mips {
    /// The operands in use.
    pub closed spec fn operand_list(self) -> Seq<Operand> {
        self.operands.elements()
    }

    /// The first `op_count` of `operands` are the instruction's operands.
    pub fn new(operands: [Operand; MIPS_MAX_OPERANDS], op_count: usize) -> (r: Self)
        requires
            op_count <= MIPS_MAX_OPERANDS,
        ensures
            r.operand_list() == operands@.subrange(0, op_count as int),
    {
        cs_mips { operands: BoundedArray::new(operands, op_count) }
    }

    /// The number of operands in use, within the capacity.
    pub fn op_count(&self) -> (r: usize)
        ensures
            r == self.operand_list().len(),
            r <= MIPS_MAX_OPERANDS,
    {
        self.operands.count()
    }

    /// A view over exactly the operands in use.
    pub fn operand_iter(&self) -> (r: PointerIter<'_, Operand>)
        ensures
            r.elements() == self.operand_list(),
            r.position() == 0,
    {
        self.operands.iter()
    }
}

/// The PowerPC operand detail: at most 8 operands, of which `op_count`
/// are in use.
#[derive(Debug)]
pub struct cs_ppc {
    operands: BoundedArray<Operand, PPC_MAX_OPERANDS>,
}

impl cs_ppc {
    /// The operands in use.
    pub closed spec fn operand_list(self) -> Seq<Operand> {
        self.operands.elements()
    }

    /// The first `op_count` of `operands` are the instruction's operands.
    pub fn new(operands: [Operand; PPC_MAX_OPERANDS], op_count: usize) -> (r: Self)
        requires
            op_count <= PPC_MAX_OPERANDS,
        ensures
            r.operand_list() == operands@.subrange(0, op_count as int),
    {
        cs_ppc { operands: BoundedArray::new(operands, op_count) }
    }

    /// The number of operands in use, within the capacity.
    pub fn op_count(&self) -> (r: usize)
        ensures
            r == self.operand_list().len(),
            r <= PPC_MAX_OPERANDS,
    {
        self.operands.count()
    }

    /// A view over exactly the operands in use.
    pub fn operand_iter(&self) -> (r: PointerIter<'_, Operand>)
        ensures
            r.elements() == self.operand_list(),
            r.position() == 0,
    {
        self.operands.iter()
    }
}

/// The SPARC operand detail: at most 4 operands, of which `op_count`
/// are in use.
#[derive(Debug)]
pub struct cs_sparc {
    operands: BoundedArray<Operand, SPARC_MAX_OPERANDS>,
}

impl cs_sparc {
    /// The operands in use.
    pub closed spec fn operand_list(self) -> Seq<Operand> {
        self.operands.elements()
    }

    /// The first `op_count` of `operands` are the instruction's operands.
    pub fn new(operands: [Operand; SPARC_MAX_OPERANDS], op_count: usize) -> (r: Self)
        requires
            op_count <= SPARC_MAX_OPERANDS,
        ensures
            r.operand_list() == operands@.subrange(0, op_count as int),
    {
        cs_sparc { operands: BoundedArray::new(operands, op_count) }
    }

    /// The number of operands in use, within the capacity.
    pub fn op_count(&self) -> (r: usize)
        ensures
            r == self.operand_list().len(),
            r <= SPARC_MAX_OPERANDS,
    {
        self.operands.count()
    }

    /// A view over exactly the operands in use.
    pub fn operand_iter(&self) -> (r: PointerIter<'_, Operand>)
        ensures
            r.elements() == self.operand_list(),
            r.position() == 0,
    {
        self.operands.iter()
    }
}

/// The SystemZ operand detail: at most 6 operands, of which `op_count`
/// are in use.
#[derive(Debug)]
pub struct cs_sysz {
    operands: BoundedArray<Operand, SYSZ_MAX_OPERANDS>,
}

impl cs_sysz {
    /// The operands in use.
    pub closed spec fn operand_list(self) -> Seq<Operand> {
        self.operands.elements()
    }

    /// The first `op_count` of `operands` are the instruction's operands.
    pub fn new(operands: [Operand; SYSZ_MAX_OPERANDS], op_count: usize) -> (r: Self)
        requires
            op_count <= SYSZ_MAX_OPERANDS,
        ensures
            r.operand_list() == operands@.subrange(0, op_count as int),
    {
        cs_sysz { operands: BoundedArray::new(operands, op_count) }
    }

    /// The number of operands in use, within the capacity.
    pub fn op_count(&self) -> (r: usize)
        ensures
            r == self.operand_list().len(),
            r <= SYSZ_MAX_OPERANDS,
    {
        self.operands.count()
    }

    /// A view over exactly the operands in use.
    pub fn operand_iter(&self) -> (r: PointerIter<'_, Operand>)
        ensures
            r.elements() == self.operand_list(),
            r.position() == 0,
    {
        self.operands.iter()
    }
}

/// The x86 operand detail: at most 8 operands, of which `op_count`
/// are in use.
#[derive(Debug)]
pub struct cs_x86 {
    operands: BoundedArray<Operand, X86_MAX_OPERANDS>,
}

impl cs_x86 {
    /// The operands in use.
    pub closed spec fn operand_list(self) -> Seq<Operand> {
        self.operands.elements()
    }

    /// The first `op_count` of `operands` are the instruction's operands.
    pub fn new(operands: [Operand; X86_MAX_OPERANDS], op_count: usize) -> (r: Self)
        requires
            op_count <= X86_MAX_OPERANDS,
        ensures
            r.operand_list() == operands@.subrange(0, op_count as int),
    {
        cs_x86 { operands: BoundedArray::new(operands, op_count) }
    }

    /// The number of operands in use, within the capacity.
    pub fn op_count(&self) -> (r: usize)
        ensures
            r == self.operand_list().len(),
            r <= X86_MAX_OPERANDS,
    {
        self.operands.count()
    }

    /// A view over exactly the operands in use.
    pub fn operand_iter(&self) -> (r: PointerIter<'_, Operand>)
        ensures
            r.elements() == self.operand_list(),
            r.position() == 0,
    {
        self.operands.iter()
    }
}

/// The XCore operand detail: at most 8 operands, of which `op_count`
/// are in use.
#[derive(Debug)]
pub struct cs_xcore {
    operands: BoundedArray<Operand, XCORE_MAX_OPERANDS>,
}

impl cs_xcore {
    /// The operands in use.
    pub closed spec fn operand_list(self) -> Seq<Operand> {
        self.operands.elements()
    }

    /// The first `op_count` of `operands` are the instruction's operands.
    pub fn new(operands: [Operand; XCORE_MAX_OPERANDS], op_count: usize) -> (r: Self)
        requires
            op_count <= XCORE_MAX_OPERANDS,
        ensures
            r.operand_list() == operands@.subrange(0, op_count as int),
    {
        cs_xcore { operands: BoundedArray::new(operands, op_count) }
    }

    /// The number of operands in use, within the capacity.
    pub fn op_count(&self) -> (r: usize)
        ensures
            r == self.operand_list().len(),
            r <= XCORE_MAX_OPERANDS,
    {
        self.operands.count()
    }

    /// A view over exactly the operands in use.
    pub fn operand_iter(&self) -> (r: PointerIter<'_, Operand>)
        ensures
            r.elements() == self.operand_list(),
            r.position() == 0,
    {
        self.operands.iter()
    }
}

/// The architecture-specific part of an instruction's detail. Exactly one
/// variant is present, and which one is fixed by the architecture the
/// instruction was decoded under.
#[derive(Debug)]
pub enum ArchDetail {
    Arm(cs_arm),
    Arm64(cs_arm64),
    Mips(cs_mips),
    Ppc(cs_ppc),
    Sparc(cs_sparc),
    Sysz(cs_sysz),
    X86(cs_x86),
    Xcore(cs_xcore),
}

impl ArchDetail {
    /// The architecture this variant belongs to.
    pub open spec fn arch_spec(self) -> cs_arch {
        match self {
            ArchDetail::Arm(_) => CS_ARCH_ARM,
            ArchDetail::Arm64(_) => CS_ARCH_ARM64,
            ArchDetail::Mips(_) => CS_ARCH_MIPS,
            ArchDetail::Ppc(_) => CS_ARCH_PPC,
            ArchDetail::Sparc(_) => CS_ARCH_SPARC,
            ArchDetail::Sysz(_) => CS_ARCH_SYSZ,
            ArchDetail::X86(_) => CS_ARCH_X86,
            ArchDetail::Xcore(_) => CS_ARCH_XCORE,
        }
    }

    /// The operands in use, whatever the architecture.
    pub open spec fn operand_list(self) -> Seq<Operand> {
        match self {
            ArchDetail::Arm(d) => d.operand_list(),
            ArchDetail::Arm64(d) => d.operand_list(),
            ArchDetail::Mips(d) => d.operand_list(),
            ArchDetail::Ppc(d) => d.operand_list(),
            ArchDetail::Sparc(d) => d.operand_list(),
            ArchDetail::Sysz(d) => d.operand_list(),
            ArchDetail::X86(d) => d.operand_list(),
            ArchDetail::Xcore(d) => d.operand_list(),
        }
    }

    /// The operand capacity of the architecture.
    pub open spec fn capacity(self) -> nat {
        match self {
            ArchDetail::Arm(_) => ARM_MAX_OPERANDS as nat,
            ArchDetail::Arm64(_) => ARM64_MAX_OPERANDS as nat,
            ArchDetail::Mips(_) => MIPS_MAX_OPERANDS as nat,
            ArchDetail::Ppc(_) => PPC_MAX_OPERANDS as nat,
            ArchDetail::Sparc(_) => SPARC_MAX_OPERANDS as nat,
            ArchDetail::Sysz(_) => SYSZ_MAX_OPERANDS as nat,
            ArchDetail::X86(_) => X86_MAX_OPERANDS as nat,
            ArchDetail::Xcore(_) => XCORE_MAX_OPERANDS as nat,
        }
    }

    /// The architecture this variant belongs to.
    pub fn arch(&self) -> (r: cs_arch)
        ensures
            r == self.arch_spec(),
    {
        match self {
            ArchDetail::Arm(_) => CS_ARCH_ARM,
            ArchDetail::Arm64(_) => CS_ARCH_ARM64,
            ArchDetail::Mips(_) => CS_ARCH_MIPS,
            ArchDetail::Ppc(_) => CS_ARCH_PPC,
            ArchDetail::Sparc(_) => CS_ARCH_SPARC,
            ArchDetail::Sysz(_) => CS_ARCH_SYSZ,
            ArchDetail::X86(_) => CS_ARCH_X86,
            ArchDetail::Xcore(_) => CS_ARCH_XCORE,
        }
    }

    /// The number of operands in use, within the architecture's capacity.
    pub fn op_count(&self) -> (r: usize)
        ensures
            r == self.operand_list().len(),
            r <= self.capacity(),
    {
        match self {
            ArchDetail::Arm(d) => d.op_count(),
            ArchDetail::Arm64(d) => d.op_count(),
            ArchDetail::Mips(d) => d.op_count(),
            ArchDetail::Ppc(d) => d.op_count(),
            ArchDetail::Sparc(d) => d.op_count(),
            ArchDetail::Sysz(d) => d.op_count(),
            ArchDetail::X86(d) => d.op_count(),
            ArchDetail::Xcore(d) => d.op_count(),
        }
    }

    /// A view over exactly the operands in use.
    pub fn operand_iter(&self) -> (r: PointerIter<'_, Operand>)
        ensures
            r.elements() == self.operand_list(),
            r.position() == 0,
    {
        match self {
            ArchDetail::Arm(d) => d.operand_iter(),
            ArchDetail::Arm64(d) => d.operand_iter(),
            ArchDetail::Mips(d) => d.operand_iter(),
            ArchDetail::Ppc(d) => d.operand_iter(),
            ArchDetail::Sparc(d) => d.operand_iter(),
            ArchDetail::Sysz(d) => d.operand_iter(),
            ArchDetail::X86(d) => d.operand_iter(),
            ArchDetail::Xcore(d) => d.operand_iter(),
        }
    }
}

} // verus!
