use vstd::prelude::*;
use crate::arch::{
    cs_arm, cs_arm64, cs_mips, cs_ppc, cs_sparc, cs_sysz, cs_x86, cs_xcore, ArchDetail,
};
use crate::bounded::BoundedArray;
use crate::pointer_iter::PointerIter;
use crate::text::{c_str, c_string, utf8_lossy};

verus! {

pub const MAX_REGS_READ: usize = 12;
pub const MAX_REGS_WRITE: usize = 20;
pub const MAX_GROUPS: usize = 8;
pub const MAX_INSN_BYTES: usize = 16;
pub const MNEMONIC_CAPACITY: usize = 32;
pub const OP_STR_CAPACITY: usize = 160;

/// The detail of one decoded instruction: the registers it reads and
/// writes, the groups it belongs to, and the operand detail of the
/// architecture it was decoded under.
#[derive(Debug)]
pub struct cs_detail {
    pub regs_read: BoundedArray<u8, MAX_REGS_READ>,
    pub regs_write: BoundedArray<u8, MAX_REGS_WRITE>,
    pub groups: BoundedArray<u8, MAX_GROUPS>,
    pub arch: ArchDetail,
}

impl cs_detail {
    /// The ARM operand detail. Only the variant of the architecture the
    /// instruction was decoded under is present; asking for another one is
    /// ruled out by the precondition.
    pub fn get_arm(&self) -> (r: &cs_arm)
        requires
            self.arch is Arm,
        ensures
            self.arch == ArchDetail::Arm(*r),
    {
        match &self.arch {
            ArchDetail::Arm(d) => d,
            _ => vstd::pervasive::unreached(),
        }
    }

    /// The ARM64 operand detail. Only the variant of the architecture the
    /// instruction was decoded under is present; asking for another one is
    /// ruled out by the precondition.
    pub fn get_arm64(&self) -> (r: &cs_arm64)
        requires
            self.arch is Arm64,
        ensures
            self.arch == ArchDetail::Arm64(*r),
    {
        match &self.arch {
            ArchDetail::Arm64(d) => d,
            _ => vstd::pervasive::unreached(),
        }
    }

    /// The MIPS operand detail. Only the variant of the architecture the
    /// instruction was decoded under is present; asking for another one is
    /// ruled out by the precondition.
    pub fn get_mips(&self) -> (r: &cs_mips)
        requires
            self.arch is Mips,
        ensures
            self.arch == ArchDetail::Mips(*r),
    {
        match &self.arch {
            ArchDetail::Mips(d) => d,
            _ => vstd::pervasive::unreached(),
        }
    }

    /// The PowerPC operand detail. Only the variant of the architecture the
    /// instruction was decoded under is present; asking for another one is
    /// ruled out by the precondition.
    pub fn get_ppc(&self) -> (r: &cs_ppc)
        requires
            self.arch is Ppc,
        ensures
            self.arch == ArchDetail::Ppc(*r),
    {
        match &self.arch {
            ArchDetail::Ppc(d) => d,
            _ => vstd::pervasive::unreached(),
        }
    }

    /// The SPARC operand detail. Only the variant of the architecture the
    /// instruction was decoded under is present; asking for another one is
    /// ruled out by the precondition.
    pub fn get_sparc(&self) -> (r: &cs_sparc)
        requires
            self.arch is Sparc,
        ensures
            self.arch == ArchDetail::Sparc(*r),
    {
        match &self.arch {
            ArchDetail::Sparc(d) => d,
            _ => vstd::pervasive::unreached(),
        }
    }

    /// The SystemZ operand detail. Only the variant of the architecture the
    /// instruction was decoded under is present; asking for another one is
    /// ruled out by the precondition.
    pub fn get_sysz(&self) -> (r: &cs_sysz)
        requires
            self.arch is Sysz,
        ensures
            self.arch == ArchDetail::Sysz(*r),
    {
        match &self.arch {
            ArchDetail::Sysz(d) => d,
            _ => vstd::pervasive::unreached(),
        }
    }

    /// The x86 operand detail. Only the variant of the architecture the
    /// instruction was decoded under is present; asking for another one is
    /// ruled out by the precondition.
    pub fn get_x86(&self) -> (r: &cs_x86)
        requires
            self.arch is X86,
        ensures
            self.arch == ArchDetail::X86(*r),
    {
        match &self.arch {
            ArchDetail::X86(d) => d,
            _ => vstd::pervasive::unreached(),
        }
    }

    /// The XCore operand detail. Only the variant of the architecture the
    /// instruction was decoded under is present; asking for another one is
    /// ruled out by the precondition.
    pub fn get_xcore(&self) -> (r: &cs_xcore)
        requires
            self.arch is Xcore,
        ensures
            self.arch == ArchDetail::Xcore(*r),
    {
        match &self.arch {
            ArchDetail::Xcore(d) => d,
            _ => vstd::pervasive::unreached(),
        }
    }

    /// A view over the registers this instruction reads.
    pub fn regs_read_iter(&self) -> (r: PointerIter<'_, u8>)
        ensures
            r.elements() == self.regs_read.elements(),
            r.position() == 0,
    {
        self.regs_read.iter()
    }

    /// A view over the registers this instruction writes.
    pub fn regs_write_iter(&self) -> (r: PointerIter<'_, u8>)
        ensures
            r.elements() == self.regs_write.elements(),
            r.position() == 0,
    {
        self.regs_write.iter()
    }

    /// A view over the groups this instruction belongs to.
    pub fn groups_iter(&self) -> (r: PointerIter<'_, u8>)
        ensures
            r.elements() == self.groups.elements(),
            r.position() == 0,
    {
        self.groups.iter()
    }
}

/// One decoded machine instruction.
#[derive(Debug)]
pub struct cs_insn {
    /// The instruction identifier, specific to the architecture.
    pub id: u32,
    /// The address of the instruction's first byte.
    pub address: u64,
    /// The instruction's raw bytes; their count is its size.
    pub bytes: BoundedArray<u8, MAX_INSN_BYTES>,
    /// The mnemonic, NUL-terminated.
    pub mnemonic: [u8; MNEMONIC_CAPACITY],
    /// The operand text, NUL-terminated.
    pub op_str: [u8; OP_STR_CAPACITY],
    /// The detail, present only when detail mode was on.
    pub detail: Option<cs_detail>,
}

impl cs_insn {
    /// The instruction's size in bytes.
    pub fn size(&self) -> (r: usize)
        ensures
            r == self.bytes.elements().len(),
            r <= MAX_INSN_BYTES,
    {
        self.bytes.count()
    }

    /// The mnemonic as text.
    pub fn get_mnemonic(&self) -> (r: Option<String>)
        ensures
            r matches Some(s) && s@ == utf8_lossy(c_str(self.mnemonic@)),
    {
        Some(c_string(self.mnemonic.as_slice()))
    }

    /// The operand text.
    pub fn get_op_str(&self) -> (r: Option<String>)
        ensures
            r matches Some(s) && s@ == utf8_lossy(c_str(self.op_str@)),
    {
        Some(c_string(self.op_str.as_slice()))
    }
}

} // verus!
