use libcapstone_sys::arch::X86_MAX_OPERANDS;
use libcapstone_sys::builder::DEFAULT_SKIPDATA_MNEMONIC;
use libcapstone_sys::consts::{
    CS_ARCH_ARM, CS_ARCH_X86, CS_ERR_ARCH, CS_ERR_MODE, CS_ERR_OK, CS_ERR_OPTION, CS_MODE_64,
    CS_OPT_DETAIL, CS_OPT_MODE, CS_OPT_OFF, CS_OPT_ON, CS_OPT_SKIPDATA, CS_OPT_SKIPDATA_SETUP,
    CS_OPT_SYNTAX, CS_OPT_SYNTAX_INTEL, CS_MODE_32,
};
use libcapstone_sys::text::c_string;
use libcapstone_sys::{
    cs_arm, cs_arm64, cs_detail, cs_insn, cs_mips, cs_ppc, cs_sparc, cs_sysz, cs_x86, cs_xcore, ArchDetail, BoundedArray, BuildSession, BuildStep,
    Builder, Capstone, EngineOption, Operand, PointerIter,
};

fn text<const N: usize>(s: &str) -> [u8; N] {
    let mut buf = [0u8; N];
    buf[..s.len()].copy_from_slice(s.as_bytes());
    buf
}

fn raw_bytes(b: &[u8]) -> BoundedArray<u8, 16> {
    let mut buf = [0u8; 16];
    buf[..b.len()].copy_from_slice(b);
    BoundedArray::new(buf, b.len())
}

fn x86_detail(ops: &[Operand], reads: &[u8], writes: &[u8], groups: &[u8]) -> cs_detail {
    let mut operands = [Operand::Invalid; 8];
    operands[..ops.len()].copy_from_slice(ops);
    let mut r = [0u8; 12];
    r[..reads.len()].copy_from_slice(reads);
    let mut w = [0u8; 20];
    w[..writes.len()].copy_from_slice(writes);
    let mut g = [0u8; 8];
    g[..groups.len()].copy_from_slice(groups);
    cs_detail {
        regs_read: BoundedArray::new(r, reads.len()),
        regs_write: BoundedArray::new(w, writes.len()),
        groups: BoundedArray::new(g, groups.len()),
        arch: ArchDetail::X86(cs_x86::new(operands, ops.len())),
    }
}

fn insn(id: u32, address: u64, bytes: &[u8], mnemonic: &str, op_str: &str, detail: Option<cs_detail>) -> cs_insn {
    cs_insn {
        id,
        address,
        bytes: raw_bytes(bytes),
        mnemonic: text::<32>(mnemonic),
        op_str: text::<160>(op_str),
        detail,
    }
}

/// The engine's output for `31 ED 49 89 D1` at 0x4a7aa0 in 64-bit x86,
/// Intel syntax, without detail.
fn reference_output() -> Vec<cs_insn> {
    vec![
        insn(332, 0x4a7aa0, &[0x31, 0xed], "xor", "ebp, ebp", None),
        insn(442, 0x4a7aa2, &[0x49, 0x89, 0xd1], "mov", "r9, rdx", None),
    ]
}

fn open_x86() -> Capstone {
    match Capstone::new(CS_ARCH_X86, CS_MODE_64, CS_ERR_OK, 7) {
        Ok(c) => c,
        Err(e) => panic!("open failed: {}", e),
    }
}

fn drive(session: BuildSession<u32>, answers: &[u32]) -> Result<Capstone, (usize, u32)> {
    let mut session = session;
    let mut i = 0;
    loop {
        if session.pending().is_none() {
            return Ok(session.finish());
        }
        match session.record(answers[i]) {
            BuildStep::Continue(s) => session = s,
            BuildStep::Failed(release, e) => return Err((release, e)),
        }
        i += 1;
    }
}

fn pending_kinds(session: BuildSession<u32>) -> (Vec<(u32, usize)>, Capstone) {
    let mut session = session;
    let mut seen = Vec::new();
    loop {
        match session.pending() {
            None => return (seen, session.finish()),
            Some(opt) => seen.push((opt.kind(), opt.value())),
        }
        match session.record(CS_ERR_OK) {
            BuildStep::Continue(s) => session = s,
            BuildStep::Failed(_, e) => panic!("unexpected failure {}", e),
        }
    }
}

#[test]
fn pointer_iter_stops_at_count() {
    let items = [10u32, 20, 30, 40];
    let mut it = PointerIter::new(&items, 2);
    assert_eq!(it.len(), 2);
    assert_eq!(it.next(), Some(&10));
    assert_eq!(it.next(), Some(&20));
    assert_eq!(it.next(), None);
    assert_eq!(it.next(), None);
    assert_eq!(PointerIter::new(&items, 3).count(), 3);
    assert_eq!(PointerIter::new(&items, 0).count(), 0);
}

#[test]
fn bounded_array_membership() {
    let a: BoundedArray<u8, 4> = BoundedArray::new([1, 2, 3, 4], 2);
    assert_eq!(a.count(), 2);
    assert!(a.contains(1));
    assert!(a.contains(2));
    assert!(!a.contains(3));
    assert!(!a.contains(258));
    assert_eq!(a.iter().count(), 2);
}

#[test]
fn c_string_reads_up_to_nul() {
    assert_eq!(c_string(b"xor\0junk"), "xor");
    assert_eq!(c_string(b"abc"), "abc");
    assert_eq!(c_string(b"\0abc"), "");
    assert_eq!(c_string(b""), "");
    assert_eq!(c_string(&[0x66, 0xff, 0x67, 0]), "f\u{fffd}g");
}

#[test]
fn mnemonic_and_operand_text() {
    let i = insn(1, 0x1000, &[0x90], "nop", "", None);
    assert_eq!(i.get_mnemonic(), Some("nop".to_string()));
    assert_eq!(i.get_op_str(), Some(String::new()));
    assert_eq!(i.size(), 1);
}

#[test]
fn open_succeeds_and_closes_once() {
    for (arch, mode) in [(CS_ARCH_X86, CS_MODE_64), (CS_ARCH_X86, CS_MODE_32), (CS_ARCH_ARM, 0)] {
        let engine = Capstone::new(arch, mode, CS_ERR_OK, 42).expect("open");
        assert_eq!(engine.arch(), arch);
        assert_eq!(engine.mode(), mode);
        assert!(!engine.detail());
        assert_eq!(engine.close(), 42);
    }
}

#[test]
fn open_failure_gives_no_handle() {
    assert!(matches!(Capstone::new(99, CS_MODE_64, CS_ERR_ARCH, 0), Err(e) if e == CS_ERR_ARCH));
    assert!(matches!(Capstone::new(CS_ARCH_X86, 1, CS_ERR_MODE, 0), Err(e) if e == CS_ERR_MODE));
}

#[test]
fn reference_sequence_is_kept_in_order() {
    let engine = open_x86();
    let mut expected = reference_output();
    expected.push(insn(442, 0x4a7aa5, &[0x4c, 0x89, 0xc7], "mov", "rdi, r8", None));
    let set = engine.disasm_all(expected, 0).expect("decoded");
    assert_eq!(set.len(), 3);
    assert!(!set.is_empty());
    let mut it = set.iter();
    let mut addresses = Vec::new();
    let mut mnemonics = Vec::new();
    let mut operands = Vec::new();
    while let Some(i) = it.next() {
        addresses.push(i.address);
        mnemonics.push(i.get_mnemonic().unwrap());
        operands.push(i.get_op_str().unwrap());
    }
    assert_eq!(addresses, vec![0x4a7aa0, 0x4a7aa2, 0x4a7aa5]);
    assert_eq!(mnemonics, vec!["xor", "mov", "mov"]);
    assert_eq!(operands, vec!["ebp, ebp", "r9, rdx", "rdi, r8"]);
}

#[test]
fn budget_caps_result() {
    let engine = open_x86();
    let one = vec![insn(332, 0x4a7aa0, &[0x31, 0xed], "xor", "ebp, ebp", None)];
    let set = engine.disasm(1, one, 0).expect("decoded");
    assert_eq!(set.len(), 1);
    let set = engine.disasm(5, reference_output(), 0).expect("decoded");
    assert_eq!(set.len(), 2);
}

#[test]
fn empty_decode_is_an_error() {
    let engine = open_x86();
    assert!(matches!(engine.disasm_all(Vec::new(), CS_ERR_OK), Err(e) if e == CS_ERR_OK));
    assert!(matches!(engine.disasm(3, Vec::new(), CS_ERR_ARCH), Err(e) if e == CS_ERR_ARCH));
}

#[test]
fn iteration_yields_len_and_restarts() {
    let engine = open_x86();
    let set = engine.disasm_all(reference_output(), 0).expect("decoded");
    assert_eq!(set.iter().count(), set.len());
    let mut first = Vec::new();
    let mut it = set.iter();
    while let Some(i) = it.next() {
        first.push(i.address);
    }
    let mut second = Vec::new();
    let mut it = set.iter();
    while let Some(i) = it.next() {
        second.push(i.address);
    }
    assert_eq!(first, second);
    assert_eq!(first.len(), 2);
}

#[test]
fn detail_mode_controls_detail_presence() {
    let builder: Builder<u32> = Builder::new(CS_ARCH_X86, CS_MODE_64).detail(CS_OPT_ON);
    let session = builder.build(CS_ERR_OK, 5).expect("opened");
    let engine = drive(session, &[CS_ERR_OK]).ok().expect("built");
    assert!(engine.detail());
    let decoded = vec![
        insn(332, 0x10, &[0x31, 0xed], "xor", "ebp, ebp", Some(x86_detail(&[Operand::Reg(36), Operand::Reg(36)], &[], &[36, 25], &[]))),
    ];
    let set = engine.disasm_all(decoded, 0).expect("decoded");
    set.consistency();
    let mut it = set.iter();
    while let Some(i) = it.next() {
        assert!(i.detail.is_some());
    }

    let builder: Builder<u32> = Builder::new(CS_ARCH_X86, CS_MODE_64).detail(CS_OPT_OFF);
    let engine = drive(builder.build(CS_ERR_OK, 5).unwrap_or_else(|_| panic!()), &[CS_ERR_OK]).ok().expect("built");
    assert!(!engine.detail());
    let set = engine.disasm_all(reference_output(), 0).expect("decoded");
    let mut it = set.iter();
    while let Some(i) = it.next() {
        assert!(i.detail.is_none());
    }
}

#[test]
fn operand_count_matches_traversal() {
    let d = x86_detail(&[Operand::Reg(1), Operand::Imm(-4), Operand::Mem { base: 2, index: 0, scale: 1, disp: 8 }], &[], &[], &[]);
    let x86 = d.get_x86();
    assert_eq!(x86.op_count(), 3);
    assert!(x86.op_count() <= X86_MAX_OPERANDS);
    assert_eq!(x86.operand_iter().count(), 3);
    let mut it = x86.operand_iter();
    assert_eq!(it.next(), Some(&Operand::Reg(1)));
    assert_eq!(it.next(), Some(&Operand::Imm(-4)));
    assert_eq!(it.next(), Some(&Operand::Mem { base: 2, index: 0, scale: 1, disp: 8 }));
    assert_eq!(it.next(), None);
    assert_eq!(d.arch.arch(), CS_ARCH_X86);
    assert_eq!(d.arch.op_count(), 3);

    let full = cs_arm::new([Operand::Imm(1); 36], 36);
    assert_eq!(full.op_count(), 36);
    assert_eq!(full.operand_iter().count(), 36);
    let arm = ArchDetail::Arm(cs_arm::new([Operand::Invalid; 36], 0));
    assert_eq!(arm.arch(), CS_ARCH_ARM);
    assert_eq!(arm.operand_iter().count(), 0);
}

#[test]
fn detail_lists_are_bounded_views() {
    let d = x86_detail(&[], &[7, 8], &[9], &[2, 3, 4]);
    assert_eq!(d.regs_read_iter().count(), 2);
    assert_eq!(d.regs_write_iter().count(), 1);
    assert_eq!(d.groups_iter().count(), 3);
    let mut g = d.groups_iter();
    assert_eq!(g.next(), Some(&2));
}

#[test]
fn register_and_group_queries() {
    let mut engine = open_x86();
    let with_detail = insn(8, 0, &[0x90], "nop", "", Some(x86_detail(&[], &[30], &[31, 32], &[2])));
    assert!(!engine.reg_read(&with_detail, 30));
    assert!(!engine.insn_group(&with_detail, 2));
    engine.option(CS_OPT_DETAIL, CS_OPT_ON as usize, CS_ERR_OK).expect("detail on");
    assert!(engine.reg_read(&with_detail, 30));
    assert!(!engine.reg_read(&with_detail, 31));
    assert!(engine.reg_write(&with_detail, 32));
    assert!(!engine.reg_write(&with_detail, 30));
    assert!(engine.insn_group(&with_detail, 2));
    assert!(!engine.insn_group(&with_detail, 3));
    assert!(!engine.insn_group(&with_detail, 258));
    let skipped = insn(0, 0, &[0x90], ".byte", "0x90", Some(x86_detail(&[], &[30], &[], &[2])));
    assert!(!engine.insn_group(&skipped, 2));
    let without = insn(8, 0, &[0x90], "nop", "", None);
    assert!(!engine.reg_read(&without, 30));
}

#[test]
fn option_outcomes_update_the_handle() {
    let mut engine = open_x86();
    assert!(matches!(engine.option(CS_OPT_DETAIL, CS_OPT_ON as usize, CS_ERR_OPTION), Err(e) if e == CS_ERR_OPTION));
    assert!(!engine.detail());
    assert!(engine.option(CS_OPT_DETAIL, CS_OPT_ON as usize, CS_ERR_OK).is_ok());
    assert!(engine.detail());
    assert!(engine.option(CS_OPT_SYNTAX, CS_OPT_SYNTAX_INTEL as usize, CS_ERR_OK).is_ok());
    assert!(engine.detail());
    assert!(engine.option(CS_OPT_MODE, CS_MODE_32 as usize, CS_ERR_OK).is_ok());
    assert_eq!(engine.mode(), CS_MODE_32);
    assert!(engine.option(CS_OPT_DETAIL, CS_OPT_OFF as usize, CS_ERR_OK).is_ok());
    assert!(!engine.detail());
    assert_eq!(engine.handle(), 7);
}

#[test]
fn builder_applies_options_in_order() {
    let builder: Builder<u32> = Builder::new(CS_ARCH_X86, CS_MODE_64)
        .syntax(CS_OPT_SYNTAX_INTEL)
        .detail(CS_OPT_ON)
        .skipdata(CS_OPT_OFF);
    assert_eq!(builder.arch(), CS_ARCH_X86);
    assert_eq!(builder.mode(), CS_MODE_64);
    let (seen, engine) = pending_kinds(builder.build(CS_ERR_OK, 3).expect("opened"));
    assert_eq!(seen, vec![(CS_OPT_SYNTAX, 1), (CS_OPT_DETAIL, 3), (CS_OPT_SKIPDATA, 0)]);
    assert!(engine.detail());
    assert_eq!(engine.handle(), 3);
}

#[test]
fn builder_without_options_applies_none() {
    let builder: Builder<u32> = Builder::new(CS_ARCH_X86, CS_MODE_64);
    let (seen, engine) = pending_kinds(builder.build(CS_ERR_OK, 3).expect("opened"));
    assert!(seen.is_empty());
    assert!(!engine.detail());
}

#[test]
fn skipdata_config_forces_skipdata_on() {
    let builder: Builder<u32> = Builder::new(CS_ARCH_X86, CS_MODE_64).skipdata_config(None, 17);
    let session = builder.build(CS_ERR_OK, 3).expect("opened");
    let (seen, _) = pending_kinds(session);
    assert_eq!(seen, vec![(CS_OPT_SKIPDATA, 3), (CS_OPT_SKIPDATA_SETUP, 0)]);

    let builder: Builder<u32> = Builder::new(CS_ARCH_X86, CS_MODE_64)
        .skipdata(CS_OPT_OFF)
        .skipdata_config(Some("db"), 17);
    let (seen, _) = pending_kinds(builder.build(CS_ERR_OK, 3).expect("opened"));
    assert_eq!(seen, vec![(CS_OPT_SKIPDATA, 0), (CS_OPT_SKIPDATA, 3), (CS_OPT_SKIPDATA_SETUP, 0)]);

    let builder: Builder<u32> = Builder::new(CS_ARCH_X86, CS_MODE_64)
        .skipdata(CS_OPT_ON)
        .skipdata_config(Some("db"), 17);
    let (seen, _) = pending_kinds(builder.build(CS_ERR_OK, 3).expect("opened"));
    assert_eq!(seen, vec![(CS_OPT_SKIPDATA, 3), (CS_OPT_SKIPDATA_SETUP, 0)]);
}

#[test]
fn skipdata_setup_carries_mnemonic_and_callback() {
    let builder: Builder<u32> = Builder::new(CS_ARCH_X86, CS_MODE_64).skipdata_config(None, 17);
    let session = builder.build(CS_ERR_OK, 3).expect("opened");
    let session = match session.record(CS_ERR_OK) {
        BuildStep::Continue(s) => s,
        BuildStep::Failed(..) => panic!("refused"),
    };
    match session.pending() {
        Some(EngineOption::SkipdataSetup(c)) => {
            assert_eq!(c.mnemonic, ".byte");
            assert_eq!(c.mnemonic, DEFAULT_SKIPDATA_MNEMONIC);
            assert_eq!(c.callback, 17);
        }
        _ => panic!("setup expected"),
    }

    let builder: Builder<u32> = Builder::new(CS_ARCH_X86, CS_MODE_64).skipdata(CS_OPT_ON).skipdata_config(Some("db"), 9);
    let session = builder.build(CS_ERR_OK, 3).expect("opened");
    let session = match session.record(CS_ERR_OK) {
        BuildStep::Continue(s) => s,
        BuildStep::Failed(..) => panic!("refused"),
    };
    match session.pending() {
        Some(EngineOption::SkipdataSetup(c)) => assert_eq!(c.mnemonic, "db"),
        _ => panic!("setup expected"),
    }
}

#[test]
fn build_fails_when_open_fails() {
    let builder: Builder<u32> = Builder::new(99, CS_MODE_64).detail(CS_OPT_ON);
    assert!(matches!(builder.build(CS_ERR_ARCH, 0), Err(e) if e == CS_ERR_ARCH));
}

#[test]
fn build_stops_at_first_refused_option() {
    let builder: Builder<u32> = Builder::new(CS_ARCH_X86, CS_MODE_64)
        .syntax(CS_OPT_SYNTAX_INTEL)
        .detail(CS_OPT_ON)
        .skipdata(CS_OPT_ON);
    let session = builder.build(CS_ERR_OK, 11).expect("opened");
    match drive(session, &[CS_ERR_OK, CS_ERR_OPTION, CS_ERR_OK]) {
        Err((release, e)) => {
            assert_eq!(e, CS_ERR_OPTION);
            assert_eq!(release, 11);
        }
        Ok(_) => panic!("should have failed"),
    }
}

fn with_arch(arch: ArchDetail) -> cs_detail {
    cs_detail {
        regs_read: BoundedArray::new([0; 12], 0),
        regs_write: BoundedArray::new([0; 20], 0),
        groups: BoundedArray::new([0; 8], 0),
        arch,
    }
}

#[test]
fn each_architecture_reads_its_own_variant() {
    let reg = Operand::Reg(5);
    let d = with_arch(ArchDetail::Arm64(cs_arm64::new([reg; 8], 2)));
    assert_eq!(d.get_arm64().op_count(), 2);
    let d = with_arch(ArchDetail::Arm(cs_arm::new([reg; 36], 1)));
    assert_eq!(d.get_arm().operand_iter().count(), 1);
    let d = with_arch(ArchDetail::Mips(cs_mips::new([reg; 8], 3)));
    assert_eq!(d.get_mips().op_count(), 3);
    let d = with_arch(ArchDetail::Ppc(cs_ppc::new([reg; 8], 8)));
    assert_eq!(d.get_ppc().operand_iter().count(), 8);
    let d = with_arch(ArchDetail::Sparc(cs_sparc::new([Operand::Other(64); 4], 4)));
    assert_eq!(d.get_sparc().operand_iter().next(), Some(&Operand::Other(64)));
    let d = with_arch(ArchDetail::Sysz(cs_sysz::new([reg; 6], 0)));
    assert_eq!(d.get_sysz().op_count(), 0);
    let d = with_arch(ArchDetail::Xcore(cs_xcore::new([reg; 8], 1)));
    assert_eq!(d.get_xcore().op_count(), 1);
    assert_eq!(d.arch.arch(), libcapstone_sys::consts::CS_ARCH_XCORE);
}
