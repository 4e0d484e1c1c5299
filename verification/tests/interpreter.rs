//! End-to-end tests: whole instructions stepped through the simulator.

use rv64sim::csr::CsrAddress;
use rv64sim::sim::{default_cpu_state, default_sim, load_image, step, Simulator};

fn enc_r(f7: u32, rs2: u32, rs1: u32, f3: u32, rd: u32) -> u32 {
    (f7 << 25) | (rs2 << 20) | (rs1 << 15) | (f3 << 12) | (rd << 7) | 0x33
}

fn enc_i(op: u32, rd: u32, f3: u32, rs1: u32, imm12: u32) -> u32 {
    ((imm12 & 0xfff) << 20) | (rs1 << 15) | (f3 << 12) | (rd << 7) | op
}

fn enc_s(f3: u32, rs1: u32, rs2: u32, imm12: u32) -> u32 {
    (((imm12 >> 5) & 0x7f) << 25) | (rs2 << 20) | (rs1 << 15) | (f3 << 12) | ((imm12 & 0x1f) << 7)
        | 0x23
}

fn enc_b(f3: u32, rs1: u32, rs2: u32, off: i32) -> u32 {
    let imm = off as u32;
    (((imm >> 12) & 1) << 31) | (((imm >> 5) & 0x3f) << 25) | (rs2 << 20) | (rs1 << 15) | (f3
        << 12) | (((imm >> 1) & 0xf) << 8) | (((imm >> 11) & 1) << 7) | 0x63
}

fn enc_u(op: u32, rd: u32, imm: u32) -> u32 {
    (imm & 0xffff_f000) | (rd << 7) | op
}

fn enc_j(rd: u32, off: i32) -> u32 {
    let imm = off as u32;
    (((imm >> 20) & 1) << 31) | (((imm >> 1) & 0x3ff) << 21) | (((imm >> 11) & 1) << 20) | (((imm
        >> 12) & 0xff) << 12) | (rd << 7) | 0x6f
}

fn write_word(sim: &mut Simulator, addr: usize, w: u32) {
    sim.mem[addr] = w as u8;
    sim.mem[addr + 1] = (w >> 8) as u8;
    sim.mem[addr + 2] = (w >> 16) as u8;
    sim.mem[addr + 3] = (w >> 24) as u8;
}

#[test]
fn lui_loads_upper_immediate() {
    let mut sim = default_sim();
    write_word(&mut sim, 0, enc_u(0x37, 5, 0x12345000));
    assert!(step(&mut sim));
    assert_eq!(sim.states[0].regs[5], 0x0000_0000_1234_5000);
    assert_eq!(sim.states[0].pc, 4);
    assert_eq!(sim.states[0].last_pc, 0);
    assert_eq!(sim.states[0].last_instruction, "123452B7");
    assert_eq!(sim.log, "OK");
}

#[test]
fn auipc_adds_pc() {
    let mut sim = default_sim();
    sim.states[0].pc = 0x100;
    write_word(&mut sim, 0x100, enc_u(0x17, 6, 0x1000));
    assert!(step(&mut sim));
    assert_eq!(sim.states[0].regs[6], 0x1100);
    assert_eq!(sim.states[0].pc, 0x104);
}

#[test]
fn addi_sign_extends_negative_immediates() {
    let mut sim = default_sim();
    write_word(&mut sim, 0, enc_i(0x13, 1, 0b000, 0, 5));
    write_word(&mut sim, 4, enc_i(0x13, 2, 0b000, 1, 0xffd)); // ADDI x2, x1, -3
    assert!(step(&mut sim));
    assert!(step(&mut sim));
    assert_eq!(sim.states[0].regs[1], 5);
    assert_eq!(sim.states[0].regs[2], 2);
    assert_eq!(sim.states[0].pc, 8);
}

#[test]
fn jal_links_and_jumps() {
    let mut sim = default_sim();
    sim.states[0].pc = 0x40;
    write_word(&mut sim, 0x40, enc_j(1, 8));
    assert!(step(&mut sim));
    assert_eq!(sim.states[0].regs[1], 0x44);
    assert_eq!(sim.states[0].pc, 0x48);
}

#[test]
fn jalr_clears_bit_zero() {
    let mut sim = default_sim();
    sim.states[0].regs[2] = 0x81;
    write_word(&mut sim, 0, enc_i(0x67, 1, 0b000, 2, 2));
    assert!(step(&mut sim));
    assert_eq!(sim.states[0].regs[1], 4);
    assert_eq!(sim.states[0].pc, 0x82); // (0x81 + 2) & !1
}

#[test]
fn sw_lw_round_trip_sign_extends() {
    let mut sim = default_sim();
    // x2 = 0xDEADBEEF: LUI with the upper bits rounded up, then ADDI -0x111.
    write_word(&mut sim, 0, enc_u(0x37, 2, 0xdeadc000));
    write_word(&mut sim, 4, enc_i(0x13, 2, 0b000, 2, 0xeef));
    write_word(&mut sim, 8, enc_s(0b010, 0, 2, 0x10)); // SW x2, 0x10(x0)
    write_word(&mut sim, 12, enc_i(0x03, 3, 0b010, 0, 0x10)); // LW x3, 0x10(x0)
    for _ in 0..4 {
        assert!(step(&mut sim));
    }
    assert_eq!(sim.states[0].regs[2], 0xdead_beef);
    assert_eq!(&sim.mem[0x10..0x14], &[0xef, 0xbe, 0xad, 0xde]);
    assert_eq!(sim.states[0].regs[3], 0xffff_ffff_dead_beef);
}

#[test]
fn uart_write_appends_byte_only() {
    let mut sim = default_sim();
    sim.states[0].regs[1] = 0x1000_0000;
    sim.states[0].regs[2] = 0x41;
    write_word(&mut sim, 0, enc_s(0b000, 1, 2, 0)); // SB x2, 0(x1)
    let mem_before = sim.mem.clone();
    assert!(step(&mut sim));
    assert_eq!(sim.uart_out, vec![0x41]);
    assert_eq!(sim.mem, mem_before);
}

#[test]
fn uart_status_registers_are_noops() {
    let mut sim = default_sim();
    sim.states[0].regs[1] = 0x1000_0001;
    sim.states[0].regs[2] = 0x99;
    write_word(&mut sim, 0, enc_s(0b000, 1, 2, 0));
    write_word(&mut sim, 4, enc_i(0x03, 3, 0b000, 1, 2)); // LB x3, 2(x1)
    sim.states[0].regs[3] = 7;
    assert!(step(&mut sim));
    assert!(step(&mut sim));
    assert!(sim.uart_out.is_empty());
    assert_eq!(sim.states[0].regs[3], 0);
}

#[test]
fn csrrw_csrrs_round_trip() {
    let v: u64 = 0xcafe_babe_1234_5678;
    let mut sim = default_sim();
    sim.states[0].regs[1] = v;
    let a = CsrAddress::Mscratch.value() as u32;
    write_word(&mut sim, 0, enc_i(0x73, 0, 0b001, 1, a)); // CSRRW x0, mscratch, x1
    write_word(&mut sim, 4, enc_i(0x73, 2, 0b010, 0, a)); // CSRRS x2, mscratch, x0
    assert!(step(&mut sim));
    assert_eq!(sim.csr[0x340], v);
    assert!(step(&mut sim));
    assert_eq!(sim.states[0].regs[2], v);
    assert_eq!(sim.csr[0x340], v); // the zero source index means read-only
}

#[test]
fn csrrc_clears_bits() {
    let mut sim = default_sim();
    sim.csr[0x340] = 0xff;
    sim.states[0].regs[1] = 0x0f;
    write_word(&mut sim, 0, enc_i(0x73, 2, 0b011, 1, 0x340)); // CSRRC x2, mscratch, x1
    assert!(step(&mut sim));
    assert_eq!(sim.states[0].regs[2], 0xff);
    assert_eq!(sim.csr[0x340], 0xf0);
}

#[test]
fn csrrwi_writes_uimm() {
    let mut sim = default_sim();
    sim.states[0].regs[13] = 0x9999; // ignored: the immediate form uses the index
    write_word(&mut sim, 0, enc_i(0x73, 2, 0b101, 13, 0x340)); // CSRRWI x2, mscratch, 13
    assert!(step(&mut sim));
    assert_eq!(sim.csr[0x340], 13);
}

#[test]
fn csrrsi_sets_bits_from_uimm() {
    let mut sim = default_sim();
    sim.csr[0x340] = 0b10000;
    write_word(&mut sim, 0, enc_i(0x73, 2, 0b110, 3, 0x340)); // CSRRSI x2, mscratch, 3
    assert!(step(&mut sim));
    assert_eq!(sim.states[0].regs[2], 0b10000);
    assert_eq!(sim.csr[0x340], 0b10011);
}

#[test]
fn unknown_system_immediate_is_unsupported() {
    let mut sim = default_sim();
    write_word(&mut sim, 0, 0x1050_0073); // SYSTEM with the WFI encoding
    assert!(!step(&mut sim));
    assert_eq!(sim.log, "unsupported operation");
}

#[test]
fn jal_takes_negative_offsets() {
    let mut sim = default_sim();
    sim.states[0].pc = 0x40;
    write_word(&mut sim, 0x40, enc_j(1, -0x20));
    assert!(step(&mut sim));
    assert_eq!(sim.states[0].regs[1], 0x44);
    assert_eq!(sim.states[0].pc, 0x20);
}

#[test]
fn sh_lh_round_trip() {
    let mut sim = default_sim();
    sim.states[0].regs[2] = 0x8001;
    write_word(&mut sim, 0, enc_s(0b001, 0, 2, 0x20)); // SH
    write_word(&mut sim, 4, enc_i(0x03, 3, 0b001, 0, 0x20)); // LH sign-extends
    assert!(step(&mut sim));
    assert!(step(&mut sim));
    assert_eq!(sim.states[0].regs[3], 0xffff_ffff_ffff_8001);
}

#[test]
fn illegal_csr_address_faults() {
    let mut sim = default_sim();
    write_word(&mut sim, 0, enc_i(0x73, 1, 0b001, 1, 0x343)); // 0x343 is not in the table
    assert!(!step(&mut sim));
    assert_eq!(sim.log, "illegal CSR access");
    assert_eq!(sim.states[0].pc, 0);
    assert_eq!(sim.csr[0x343], 0);
}

#[test]
fn pmp_registers_are_read_only() {
    let mut sim = default_sim();
    sim.states[0].regs[1] = 0xffff;
    write_word(&mut sim, 0, enc_i(0x73, 2, 0b001, 1, 0x3a0)); // CSRRW x2, pmpcfg0, x1
    assert!(step(&mut sim));
    assert_eq!(sim.csr[0x3a0], 0); // the zero mask drops the write
}

#[test]
fn slli_shift_amount_64_aborts_without_writeback() {
    let mut sim = default_sim();
    sim.states[0].regs[2] = 0x123;
    sim.states[0].regs[1] = 0x5555;
    write_word(&mut sim, 0, enc_i(0x13, 1, 0b001, 2, 64)); // SLLI x1, x2, 64
    assert!(!step(&mut sim));
    assert_eq!(sim.log, "shift amount exceeds 63");
    assert_eq!(sim.states[0].regs[1], 0x5555);
    assert_eq!(sim.states[0].pc, 0);
}

#[test]
fn sll_by_register_amount_64_aborts() {
    let mut sim = default_sim();
    sim.states[0].regs[3] = 64;
    write_word(&mut sim, 0, enc_r(0, 3, 2, 0b001, 1)); // SLL x1, x2, x3
    assert!(!step(&mut sim));
    assert_eq!(sim.log, "shift amount exceeds 63");
}

#[test]
fn image_too_large_is_rejected() {
    let mut sim = default_sim();
    sim.mem[100] = 0xaa;
    let image = vec![1u8; 8193];
    let r = load_image(&mut sim, &image);
    assert!(r.is_err());
    assert_eq!(sim.mem[100], 0xaa); // nothing changed
}

#[test]
fn image_load_zero_fills_remainder() {
    let mut sim = default_sim();
    sim.mem[100] = 0xaa;
    let image = vec![1u8, 2, 3];
    assert!(load_image(&mut sim, &image).is_ok());
    assert_eq!(&sim.mem[0..3], &[1, 2, 3]);
    assert_eq!(sim.mem.len(), 8192);
    assert!(sim.mem[3..].iter().all(|&b| b == 0));
}

#[test]
fn illegal_words_leave_state_unmodified() {
    for w in [0x0000_0000u32, 0x0000_0002, 0x0000_001f, 0xffff_ffff] {
        let mut sim = default_sim();
        sim.states[0].regs[7] = 0x77;
        write_word(&mut sim, 0, w);
        assert!(!step(&mut sim));
        assert_eq!(sim.log, "illegal instruction");
        assert_eq!(sim.states[0].pc, 0);
        assert_eq!(sim.states[0].regs[7], 0x77);
        assert!(sim.uart_out.is_empty());
    }
}

#[test]
fn branches_follow_signed_and_unsigned_orders() {
    // BLT: -1 < 1 signed, taken; BLTU: 0xffff.. > 1 unsigned, not taken.
    let mut sim = default_sim();
    sim.states[0].regs[1] = u64::MAX; // -1 as i64
    sim.states[0].regs[2] = 1;
    write_word(&mut sim, 0, enc_b(0b100, 1, 2, 0x10)); // BLT x1, x2, +0x10
    assert!(step(&mut sim));
    assert_eq!(sim.states[0].pc, 0x10);
    write_word(&mut sim, 0x10, enc_b(0b110, 1, 2, 0x10)); // BLTU x1, x2, +0x10
    assert!(step(&mut sim));
    assert_eq!(sim.states[0].pc, 0x14);
}

#[test]
fn beq_and_bne_branch_on_equality() {
    let mut sim = default_sim();
    sim.states[0].regs[1] = 9;
    sim.states[0].regs[2] = 9;
    write_word(&mut sim, 0, enc_b(0b000, 1, 2, 8)); // BEQ taken
    write_word(&mut sim, 8, enc_b(0b001, 1, 2, 8)); // BNE not taken
    assert!(step(&mut sim));
    assert_eq!(sim.states[0].pc, 8);
    assert!(step(&mut sim));
    assert_eq!(sim.states[0].pc, 12);
}

#[test]
fn bge_takes_negative_backward_offsets() {
    let mut sim = default_sim();
    sim.states[0].pc = 0x20;
    sim.states[0].regs[1] = 5;
    sim.states[0].regs[2] = 5;
    write_word(&mut sim, 0x20, enc_b(0b101, 1, 2, -0x10)); // BGE x1, x2, -0x10
    assert!(step(&mut sim));
    assert_eq!(sim.states[0].pc, 0x10);
}

#[test]
fn branch_func3_gap_is_unsupported() {
    let mut sim = default_sim();
    write_word(&mut sim, 0, enc_b(0b010, 1, 2, 8));
    assert!(!step(&mut sim));
    assert_eq!(sim.log, "unsupported operation");
}

#[test]
fn alu_register_operations() {
    let mut sim = default_sim();
    sim.states[0].regs[1] = 7;
    sim.states[0].regs[2] = 12;
    write_word(&mut sim, 0, enc_r(0, 2, 1, 0b000, 3)); // ADD x3 = 19
    write_word(&mut sim, 4, enc_r(0x20, 1, 2, 0b000, 4)); // SUB x4 = 12 - 7 = 5
    write_word(&mut sim, 8, enc_r(0, 2, 1, 0b100, 5)); // XOR x5 = 11
    write_word(&mut sim, 12, enc_r(0, 2, 1, 0b110, 6)); // OR x6 = 15
    write_word(&mut sim, 16, enc_r(0, 2, 1, 0b111, 7)); // AND x7 = 4
    write_word(&mut sim, 20, enc_r(0, 2, 1, 0b010, 8)); // SLT x8 = 1
    write_word(&mut sim, 24, enc_r(0, 2, 1, 0b011, 9)); // SLTU x9 = 1
    for _ in 0..7 {
        assert!(step(&mut sim));
    }
    assert_eq!(sim.states[0].regs[3], 19);
    assert_eq!(sim.states[0].regs[4], 5);
    assert_eq!(sim.states[0].regs[5], 11);
    assert_eq!(sim.states[0].regs[6], 15);
    assert_eq!(sim.states[0].regs[7], 4);
    assert_eq!(sim.states[0].regs[8], 1);
    assert_eq!(sim.states[0].regs[9], 1);
}

#[test]
fn shifts_distinguish_logical_and_arithmetic() {
    let mut sim = default_sim();
    sim.states[0].regs[1] = 0x8000_0000_0000_0000;
    sim.states[0].regs[2] = 4;
    write_word(&mut sim, 0, enc_r(0, 2, 1, 0b101, 3)); // SRL x3
    write_word(&mut sim, 4, enc_r(0x20, 2, 1, 0b101, 4)); // SRA x4
    write_word(&mut sim, 8, enc_i(0x13, 5, 0b001, 2, 8)); // SLLI x5 = 4 << 8
    assert!(step(&mut sim));
    assert!(step(&mut sim));
    assert!(step(&mut sim));
    assert_eq!(sim.states[0].regs[3], 0x0800_0000_0000_0000);
    assert_eq!(sim.states[0].regs[4], 0xf800_0000_0000_0000);
    assert_eq!(sim.states[0].regs[5], 0x400);
}

#[test]
fn addiw_truncates_and_sign_extends() {
    let mut sim = default_sim();
    sim.states[0].regs[1] = 0x7fff_ffff;
    write_word(&mut sim, 0, enc_i(0x1b, 2, 0b000, 1, 1)); // ADDIW x2, x1, 1
    assert!(step(&mut sim));
    assert_eq!(sim.states[0].regs[2], 0xffff_ffff_8000_0000);
}

#[test]
fn slliw_fails_loudly() {
    let mut sim = default_sim();
    write_word(&mut sim, 0, enc_i(0x1b, 2, 0b001, 1, 1)); // SLLIW: unimplemented
    assert!(!step(&mut sim));
    assert_eq!(sim.log, "unsupported operation");
}

#[test]
fn fence_is_a_noop() {
    let mut sim = default_sim();
    write_word(&mut sim, 0, 0x0000_000f);
    assert!(step(&mut sim));
    assert_eq!(sim.states[0].pc, 4);
    assert!(sim.states[0].regs.iter().all(|&r| r == 0));
}

#[test]
fn ecall_diverts_to_mtvec_and_records_cause() {
    let mut sim = default_sim();
    sim.csr[0x305] = 0x100; // MTVEC, direct mode
    sim.states[0].pc = 0x20;
    write_word(&mut sim, 0x20, 0x0000_0073); // ECALL
    assert!(step(&mut sim));
    assert_eq!(sim.states[0].pc, 0x100);
    assert_eq!(sim.csr[0x341], 0x20); // MEPC
    assert_eq!(sim.csr[0x342], 11); // MCAUSE: machine-mode environment call
}

#[test]
fn ecall_cause_follows_privilege_mode() {
    let mut sim = default_sim();
    sim.states[0].current_mode = 0b00; // user
    sim.csr[0x305] = 0x200;
    write_word(&mut sim, 0, 0x0000_0073);
    assert!(step(&mut sim));
    assert_eq!(sim.csr[0x342], 8);
    assert_eq!(sim.states[0].current_mode, 0b00); // no privilege-stack effects
}

#[test]
fn ebreak_records_breakpoint_cause() {
    let mut sim = default_sim();
    sim.csr[0x305] = 0x80;
    write_word(&mut sim, 0, 0x0010_0073); // EBREAK
    assert!(step(&mut sim));
    assert_eq!(sim.csr[0x342], 3);
    assert_eq!(sim.states[0].pc, 0x80);
}

#[test]
fn vectored_mtvec_stays_at_base_for_synchronous_traps() {
    let mut sim = default_sim();
    sim.csr[0x305] = 0x101; // base 0x100, vectored
    write_word(&mut sim, 0, 0x0000_0073);
    assert!(step(&mut sim));
    assert_eq!(sim.states[0].pc, 0x100);
}

#[test]
fn mret_and_sret_restore_saved_pcs() {
    let mut sim = default_sim();
    sim.csr[0x341] = 0x50; // MEPC
    write_word(&mut sim, 0, 0x3020_0073); // MRET
    assert!(step(&mut sim));
    assert_eq!(sim.states[0].pc, 0x50);

    let mut sim2 = default_sim();
    sim2.csr[0x141] = 0x60; // SEPC
    write_word(&mut sim2, 0, 0x1020_0073); // SRET
    assert!(step(&mut sim2));
    assert_eq!(sim2.states[0].pc, 0x60);
}

#[test]
fn loads_extend_per_width() {
    let mut sim = default_sim();
    sim.mem[0x20] = 0x80;
    sim.mem[0x21] = 0xff;
    write_word(&mut sim, 0, enc_i(0x03, 1, 0b000, 0, 0x20)); // LB
    write_word(&mut sim, 4, enc_i(0x03, 2, 0b100, 0, 0x20)); // LBU
    write_word(&mut sim, 8, enc_i(0x03, 3, 0b001, 0, 0x20)); // LH
    write_word(&mut sim, 12, enc_i(0x03, 4, 0b101, 0, 0x20)); // LHU
    for _ in 0..4 {
        assert!(step(&mut sim));
    }
    assert_eq!(sim.states[0].regs[1], 0xffff_ffff_ffff_ff80);
    assert_eq!(sim.states[0].regs[2], 0x80);
    assert_eq!(sim.states[0].regs[3], 0xffff_ffff_ffff_ff80);
    assert_eq!(sim.states[0].regs[4], 0xff80);
}

#[test]
fn sd_ld_round_trip() {
    let mut sim = default_sim();
    sim.states[0].regs[2] = 0x0123_4567_89ab_cdef;
    write_word(&mut sim, 0, enc_s(0b011, 0, 2, 0x30)); // SD
    write_word(&mut sim, 4, enc_i(0x03, 3, 0b011, 0, 0x30)); // LD
    assert!(step(&mut sim));
    assert!(step(&mut sim));
    assert_eq!(sim.states[0].regs[3], 0x0123_4567_89ab_cdef);
}

#[test]
fn out_of_range_addresses_fault() {
    let mut sim = default_sim();
    sim.states[0].regs[1] = 0x2000;
    write_word(&mut sim, 0, enc_i(0x03, 2, 0b000, 1, 0)); // LB from 0x2000
    assert!(!step(&mut sim));
    assert_eq!(sim.log, "load access fault");

    let mut sim2 = default_sim();
    sim2.states[0].regs[1] = 0x2000;
    write_word(&mut sim2, 0, enc_s(0b000, 1, 0, 0)); // SB to 0x2000
    assert!(!step(&mut sim2));
    assert_eq!(sim2.log, "store access fault");
}

#[test]
fn load_func3_gap_is_unsupported() {
    let mut sim = default_sim();
    write_word(&mut sim, 0, enc_i(0x03, 2, 0b110, 0, 0));
    assert!(!step(&mut sim));
    assert_eq!(sim.log, "unsupported operation");
}

#[test]
fn fetch_past_memory_end_faults() {
    let mut sim = default_sim();
    sim.states[0].pc = 8190;
    assert!(!step(&mut sim));
    assert_eq!(sim.log, "instruction fetch access fault");
    assert_eq!(sim.states[0].pc, 8190);
    assert_eq!(sim.states[0].last_pc, 8190);
}

#[test]
fn writes_to_x0_are_discarded() {
    let mut sim = default_sim();
    write_word(&mut sim, 0, enc_i(0x13, 0, 0b000, 0, 5)); // ADDI x0, x0, 5
    assert!(step(&mut sim));
    assert_eq!(sim.states[0].regs[0], 0);
    assert_eq!(sim.states[0].pc, 4);
}

#[test]
fn harts_step_in_index_order_and_share_memory() {
    let mut sim = default_sim();
    sim.states.push(default_cpu_state());
    sim.states[1].pc = 4;
    sim.states[0].regs[2] = 0x2a;
    write_word(&mut sim, 0, enc_s(0b000, 0, 2, 0x40)); // hart 0: SB x2, 0x40(x0)
    write_word(&mut sim, 4, enc_i(0x03, 3, 0b100, 0, 0x40)); // hart 1: LBU x3, 0x40(x0)
    assert!(step(&mut sim));
    assert_eq!(sim.states[1].regs[3], 0x2a); // hart 1 sees hart 0's store
    assert_eq!(sim.states[0].pc, 4);
    assert_eq!(sim.states[1].pc, 8);
}

#[test]
fn fault_in_first_hart_leaves_second_untouched() {
    let mut sim = default_sim();
    sim.states.push(default_cpu_state());
    sim.states[1].pc = 4;
    write_word(&mut sim, 0, 0x0000_0000); // hart 0 faults on an illegal word
    write_word(&mut sim, 4, enc_i(0x13, 1, 0b000, 0, 1));
    assert!(!step(&mut sim));
    assert_eq!(sim.states[1].pc, 4); // hart 1 never stepped
    assert_eq!(sim.states[1].regs[1], 0);
}
