use vstd::prelude::*;
use crate::consts::{cs_arch, cs_err, cs_mode, cs_opt_type, csh, CsResult, CS_ERR_OK, CS_OPT_DETAIL, CS_OPT_MODE, CS_OPT_OFF};
use crate::insn::cs_insn;
use crate::pointer_iter::PointerIter;

verus! {

/// Whether every instruction of `insns` carries detail exactly when
/// `detail` is on, and every detail present is of architecture `arch`.
pub open spec fn decoded_under(insns: Seq<cs_insn>, arch: cs_arch, detail: bool) -> bool {
    forall|i: int|
        0 <= i < insns.len() ==> {
            &&& (#[trigger] insns[i]).detail.is_some() == detail
            &&& insns[i].detail matches Some(d) ==> d.arch.arch_spec() == arch
        }
}

/// Whether `insn` carries detail whose group list holds `id`.
pub open spec fn listed_in_groups(insn: cs_insn, id: u32) -> bool {
    insn.detail matches Some(d) && id <= u8::MAX && d.groups.elements().contains(id as u8)
}

/// Whether `insn` carries detail whose read-register list holds `id`.
pub open spec fn listed_in_regs_read(insn: cs_insn, id: u32) -> bool {
    insn.detail matches Some(d) && id <= u8::MAX && d.regs_read.elements().contains(id as u8)
}

/// Whether `insn` carries detail whose written-register list holds `id`.
pub open spec fn listed_in_regs_write(insn: cs_insn, id: u32) -> bool {
    insn.detail matches Some(d) && id <= u8::MAX && d.regs_write.elements().contains(id as u8)
}

/// An open engine context: the token that identifies it, the architecture
/// and mode it was opened with, and whether detail mode is on.
///
/// A handle is closed by `close`, which consumes it, so it cannot be used
/// or closed again afterwards.
pub struct Capstone {
    handle: csh,
    arch: cs_arch,
    mode: cs_mode,
    detail: bool,
}

impl Capstone {
    pub closed spec fn handle_spec(self) -> csh {
        self.handle
    }

    pub closed spec fn arch_spec(self) -> cs_arch {
        self.arch
    }

    pub closed spec fn mode_spec(self) -> cs_mode {
        self.mode
    }

    pub closed spec fn detail_on(self) -> bool {
        self.detail
    }

    /// Adopts the outcome of opening a native context for `arch` and `mode`:
    /// the error code `err` and, on success, the context's token `handle`.
    /// Any nonzero code is a configuration or allocation failure and gives
    /// no handle.
    pub fn new(arch: cs_arch, mode: cs_mode, err: cs_err, handle: csh) -> (r: CsResult<Capstone>)
        ensures
            r is Ok <==> err == CS_ERR_OK,
            r matches Err(e) ==> e == err,
            r matches Ok(c) ==> c.handle_spec() == handle && c.arch_spec() == arch && c.mode_spec()
                == mode && !c.detail_on(),
    {
        if err != CS_ERR_OK {
            Err(err)
        } else {
            Ok(Capstone { handle, arch, mode, detail: false })
        }
    }

    /// The token of the native context.
    pub fn handle(&self) -> (r: csh)
        ensures
            r == self.handle_spec(),
    {
        self.handle
    }

    /// The architecture the handle was opened with.
    pub fn arch(&self) -> (r: cs_arch)
        ensures
            r == self.arch_spec(),
    {
        self.arch
    }

    /// The current mode.
    pub fn mode(&self) -> (r: cs_mode)
        ensures
            r == self.mode_spec(),
    {
        self.mode
    }

    /// Whether detail mode is on.
    pub fn detail(&self) -> (r: bool)
        ensures
            r == self.detail_on(),
    {
        self.detail
    }

    /// Records the engine's answer `err` to setting option `type_` to
    /// `value`. On success, a detail option turns detail mode on for any
    /// value but off, and a mode option changes the mode.
    pub fn option(&mut self, type_: cs_opt_type, value: usize, err: cs_err) -> (r: CsResult<()>)
        ensures
            r is Ok <==> err == CS_ERR_OK,
            r matches Err(e) ==> e == err,
            final(self).handle_spec() == old(self).handle_spec(),
            final(self).arch_spec() == old(self).arch_spec(),
            final(self).detail_on() == if err == CS_ERR_OK && type_ == CS_OPT_DETAIL {
                value != CS_OPT_OFF as usize
            } else {
                old(self).detail_on()
            },
            final(self).mode_spec() == if err == CS_ERR_OK && type_ == CS_OPT_MODE && value
                <= u32::MAX {
                value as cs_mode
            } else {
                old(self).mode_spec()
            },
    {
        if err != CS_ERR_OK {
            return Err(err);
        }
        if type_ == CS_OPT_DETAIL {
            self.detail = value != CS_OPT_OFF as usize;
        } else if type_ == CS_OPT_MODE && value <= u32::MAX as usize {
            self.mode = value as cs_mode;
        }
        Ok(())
    }

    /// Takes the instructions that one disassembly call decoded under an
    /// instruction budget `count` (zero: no budget), and the engine's last
    /// error code `errno`. No instruction at all is an error carrying
    /// `errno`; otherwise the result set owns exactly the decoded
    /// instructions.
    pub fn disasm(&self, count: usize, insns: Vec<cs_insn>, errno: cs_err) -> (r: CsResult<Instructions>)
        requires
            count == 0 || insns@.len() <= count,
            decoded_under(insns@, self.arch_spec(), self.detail_on()),
        ensures
            r is Err <==> insns@.len() == 0,
            r matches Err(e) ==> e == errno,
            r matches Ok(s) ==> {
                &&& s@ == insns@
                &&& s.arch_spec() == self.arch_spec()
                &&& s.detail_on() == self.detail_on()
                &&& count > 0 ==> s@.len() <= count
            },
    {
        if insns.len() == 0 {
            Err(errno)
        } else {
            Ok(Instructions::from_raw(insns, self.arch, self.detail))
        }
    }

    /// `disasm` with no instruction budget.
    pub fn disasm_all(&self, insns: Vec<cs_insn>, errno: cs_err) -> (r: CsResult<Instructions>)
        requires
            decoded_under(insns@, self.arch_spec(), self.detail_on()),
        ensures
            r is Err <==> insns@.len() == 0,
            r matches Err(e) ==> e == errno,
            r matches Ok(s) ==> s@ == insns@ && s.arch_spec() == self.arch_spec() && s.detail_on()
                == self.detail_on(),
    {
        self.disasm(0, insns, errno)
    }

    /// Whether `insn` belongs to group `group_id`. Without detail mode, for
    /// data that was skipped (identifier zero) and for an instruction
    /// without detail, the answer is `false`.
    pub fn insn_group(&self, insn: &cs_insn, group_id: u32) -> (r: bool)
        ensures
            r == (self.detail_on() && insn.id != 0 && listed_in_groups(*insn, group_id)),
    {
        if !self.detail || insn.id == 0 {
            return false;
        }
        match &insn.detail {
            Some(d) => d.groups.contains(group_id),
            None => false,
        }
    }

    /// Whether `insn` reads register `reg_id`, under the same conditions as
    /// `insn_group`.
    pub fn reg_read(&self, insn: &cs_insn, reg_id: u32) -> (r: bool)
        ensures
            r == (self.detail_on() && insn.id != 0 && listed_in_regs_read(*insn, reg_id)),
    {
        if !self.detail || insn.id == 0 {
            return false;
        }
        match &insn.detail {
            Some(d) => d.regs_read.contains(reg_id),
            None => false,
        }
    }

    /// Whether `insn` writes register `reg_id`, under the same conditions as
    /// `insn_group`.
    pub fn reg_write(&self, insn: &cs_insn, reg_id: u32) -> (r: bool)
        ensures
            r == (self.detail_on() && insn.id != 0 && listed_in_regs_write(*insn, reg_id)),
    {
        if !self.detail || insn.id == 0 {
            return false;
        }
        match &insn.detail {
            Some(d) => d.regs_write.contains(reg_id),
            None => false,
        }
    }

    /// Gives up the handle; the returned token is what the native context
    /// must be released with, once.
    pub fn close(self) -> (r: csh)
        ensures
            r == self.handle_spec(),
    {
        self.handle
    }
}

/// The instructions decoded by one disassembly call. The set owns them,
/// their number is fixed when it is made, and it cannot be copied, so it is
/// released exactly once, when it is dropped.
pub struct Instructions {
    instructions: Vec<cs_insn>,
    arch: cs_arch,
    detail: bool,
}

impl View for Instructions {
    type V = Seq<cs_insn>;

    closed spec fn view(&self) -> Seq<cs_insn> {
        self.instructions@
    }
}

impl Instructions {
    #[verifier::type_invariant]
    spec fn consistent(self) -> bool {
        decoded_under(self.instructions@, self.arch, self.detail)
    }

    /// The architecture the instructions were decoded under.
    pub closed spec fn arch_spec(self) -> cs_arch {
        self.arch
    }

    /// Whether detail mode was on when they were decoded.
    pub closed spec fn detail_on(self) -> bool {
        self.detail
    }

    fn from_raw(p: Vec<cs_insn>, arch: cs_arch, detail: bool) -> (r: Instructions)
        requires
            decoded_under(p@, arch, detail),
        ensures
            r@ == p@,
            r.arch_spec() == arch,
            r.detail_on() == detail,
    {
        Instructions { instructions: p, arch, detail }
    }

    /// Every instruction carries detail exactly when detail mode was on, and
    /// that detail is of the architecture the instructions were decoded
    /// under.
    pub fn consistency(&self)
        ensures
            decoded_under(self@, self.arch_spec(), self.detail_on()),
    {
        proof {
            use_type_invariant(self);
        }
    }

    /// Whether the set holds no instruction.
    pub fn is_empty(&self) -> (r: bool)
        ensures
            r == (self@.len() == 0),
    {
        self.instructions.len() == 0
    }

    /// A view over all the instructions, from the first.
    pub fn iter(&self) -> (r: PointerIter<'_, cs_insn>)
        ensures
            r.elements() == self@,
            r.position() == 0,
    {
        let items: &[cs_insn] = self.instructions.as_slice();
        PointerIter::new(items, self.instructions.len())
    }

    /// The number of instructions.
    pub fn len(&self) -> (r: usize)
        ensures
            r == self@.len(),
    {
        self.instructions.len()
    }
}

/// Iterating a result set yields exactly its instructions, `len()` of them,
/// and iteration can start over: any two views that `iter` hands out for the
/// same set yield the same sequence.
pub proof fn lemma_iteration_restartable<'a, 'b>(
    s: Instructions,
    first: PointerIter<'a, cs_insn>,
    second: PointerIter<'b, cs_insn>,
)
    requires
        first.elements() == s@,
        first.position() == 0,
        second.elements() == s@,
        second.position() == 0,
    ensures
        first.remaining() == s@,
        first.remaining().len() == s@.len(),
        first.remaining() == second.remaining(),
{
    assert(first.remaining() =~= s@);
    assert(second.remaining() =~= s@);
}

} // verus!
