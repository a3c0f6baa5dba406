use i8080::{bit, Cpu, Device, Flag, Linear, Memory, Register};

fn cpu_with(program: &[u8]) -> Cpu<Linear> {
    let mut cpu = Cpu::power_up(Linear::new());
    for (i, b) in program.iter().enumerate() {
        cpu.mem.set(i as u16, *b);
    }
    cpu
}

fn flags_ok(f: u8) -> bool {
    f & 0x02 == 0x02 && f & 0x28 == 0
}

struct Ports {
    last_out: Option<(u8, u8)>,
}

impl Device for Ports {
    fn pmi(&mut self, port: u8, v: u8) {
        self.last_out = Some((port, v));
    }

    fn pmo(&self, port: u8) -> u8 {
        port.wrapping_add(0x10)
    }
}

#[test]
fn bit_get_set_clr() {
    assert!(bit::get(0b1000_0000, 7));
    assert!(!bit::get(0b1000_0000, 6));
    assert_eq!(bit::set(0x00, 3), 0x08);
    assert_eq!(bit::set(0x08, 3), 0x08);
    assert_eq!(bit::clr(0xff, 0), 0xfe);
    assert_eq!(bit::clr(0x00, 5), 0x00);
}

#[test]
fn register_pairs() {
    let mut r = Register::power_up();
    assert_eq!(r.f, 0x02);
    assert_eq!(r.get_af(), 0x0002);
    r.set_bc(0x1234);
    assert_eq!((r.b, r.c), (0x12, 0x34));
    assert_eq!(r.get_bc(), 0x1234);
    r.set_de(0xabcd);
    assert_eq!(r.get_de(), 0xabcd);
    r.set_hl(0x00ff);
    assert_eq!((r.h, r.l), (0x00, 0xff));
    r.set_af(0x12ff);
    assert_eq!(r.a, 0x12);
    assert_eq!(r.f, 0xd7);
    r.set_af(0x3400);
    assert_eq!(r.f, 0x02);
}

#[test]
fn register_flags() {
    let mut r = Register::power_up();
    r.set_flag(Flag::Z, true);
    assert_eq!(r.f, 0x42);
    assert!(r.get_flag(Flag::Z));
    assert!(!r.get_flag(Flag::C));
    r.set_flag(Flag::C, true);
    r.set_flag(Flag::Z, false);
    assert_eq!(r.f, 0x03);
}

#[test]
fn linear_memory_words_wrap() {
    let mut m = Linear::new();
    assert_eq!(m.data.len(), 65536);
    assert!(m.data.iter().all(|b| *b == 0));
    m.set_word(0xffff, 0xbeef);
    assert_eq!(m.get(0xffff), 0xef);
    assert_eq!(m.get(0x0000), 0xbe);
    assert_eq!(m.get_word(0xffff), 0xbeef);
}

#[test]
fn flags_invariant_after_steps() {
    // POP PSW of 0xFF, ADD A, STC, CMC, DAA
    let mut cpu = cpu_with(&[0xf1, 0x87, 0x37, 0x3f, 0x27]);
    cpu.reg.sp = 0x1000;
    cpu.mem.set(0x1000, 0xff);
    cpu.mem.set(0x1001, 0x80);
    for _ in 0..5 {
        cpu.next();
        assert!(flags_ok(cpu.reg.f));
    }
}

#[test]
fn pc_advances_by_length() {
    // NOP; MVI B,1; LXI H,0x1234; ADI 2; STA 0x2000
    let mut cpu = cpu_with(&[0x00, 0x06, 0x01, 0x21, 0x34, 0x12, 0xc6, 0x02, 0x32, 0x00, 0x20]);
    cpu.next();
    assert_eq!(cpu.reg.pc, 1);
    cpu.next();
    assert_eq!(cpu.reg.pc, 3);
    cpu.next();
    assert_eq!(cpu.reg.pc, 6);
    cpu.next();
    assert_eq!(cpu.reg.pc, 8);
    cpu.next();
    assert_eq!(cpu.reg.pc, 11);
}

#[test]
fn pc_wraps_at_top() {
    let mut cpu = Cpu::power_up(Linear::new());
    cpu.reg.pc = 0xffff;
    cpu.next();
    assert_eq!(cpu.reg.pc, 0x0000);
}

#[test]
fn cycle_counts() {
    // NOP, LXI, MOV M,A, HLT
    let mut cpu = cpu_with(&[0x00, 0x01, 0x00, 0x00, 0x77, 0x76]);
    assert_eq!(cpu.next(), 4);
    assert_eq!(cpu.next(), 10);
    assert_eq!(cpu.next(), 7);
    assert_eq!(cpu.next(), 7);
    assert!(cpu.halted);
    let pc = cpu.reg.pc;
    assert_eq!(cpu.next(), 4);
    assert_eq!(cpu.reg.pc, pc);
}

#[test]
fn conditional_call_cycles() {
    // CZ 0x0010 (not taken: Z clear), CNZ 0x0010 (taken)
    let mut cpu = cpu_with(&[0xcc, 0x10, 0x00, 0xc4, 0x10, 0x00]);
    cpu.reg.sp = 0x2000;
    assert_eq!(cpu.next(), 11);
    assert_eq!(cpu.reg.pc, 3);
    assert_eq!(cpu.next(), 17);
    assert_eq!(cpu.reg.pc, 0x0010);
    assert_eq!(cpu.reg.sp, 0x1ffe);
    assert_eq!(cpu.mem.get_word(0x1ffe), 0x0006);
}

#[test]
fn call_and_return() {
    // CALL 0x0100 ... at 0x0100: RET
    let mut cpu = cpu_with(&[0xcd, 0x00, 0x01]);
    cpu.mem.set(0x0100, 0xc9);
    cpu.reg.sp = 0x3000;
    assert_eq!(cpu.next(), 17);
    assert_eq!(cpu.reg.pc, 0x0100);
    assert_eq!(cpu.next(), 10);
    assert_eq!(cpu.reg.pc, 0x0003);
    assert_eq!(cpu.reg.sp, 0x3000);
}

#[test]
fn conditional_jump_and_return() {
    // JZ 0x0040 (not taken), RC (not taken), STC, JC 0x0040
    let mut cpu = cpu_with(&[0xca, 0x40, 0x00, 0xd8, 0x37, 0xda, 0x40, 0x00]);
    assert_eq!(cpu.next(), 10);
    assert_eq!(cpu.reg.pc, 3);
    assert_eq!(cpu.next(), 5);
    assert_eq!(cpu.reg.pc, 4);
    cpu.next();
    cpu.next();
    assert_eq!(cpu.reg.pc, 0x0040);
}

#[test]
fn rst_pushes_and_jumps() {
    let mut cpu = cpu_with(&[0xff]);
    cpu.reg.sp = 0x0001;
    assert_eq!(cpu.next(), 11);
    assert_eq!(cpu.reg.pc, 0x0038);
    assert_eq!(cpu.reg.sp, 0xffff);
    assert_eq!(cpu.mem.get(0xffff), 0x01);
    assert_eq!(cpu.mem.get(0x0000), 0x00);
}

#[test]
fn undocumented_aliases() {
    // 0x08 is NOP, 0xCB is JMP
    let mut cpu = cpu_with(&[0x08, 0xcb, 0x00, 0x02]);
    assert_eq!(cpu.next(), 4);
    assert_eq!(cpu.reg.pc, 1);
    assert_eq!(cpu.next(), 10);
    assert_eq!(cpu.reg.pc, 0x0200);
    // 0xDD is CALL, 0xD9 is RET
    cpu.mem.set(0x0200, 0xdd);
    cpu.mem.set(0x0201, 0x00);
    cpu.mem.set(0x0202, 0x03);
    cpu.mem.set(0x0300, 0xd9);
    cpu.reg.sp = 0x4000;
    assert_eq!(cpu.next(), 17);
    assert_eq!(cpu.reg.pc, 0x0300);
    assert_eq!(cpu.next(), 10);
    assert_eq!(cpu.reg.pc, 0x0203);
}

#[test]
fn pop_push_restores_memory() {
    // POP B; PUSH B
    let mut cpu = cpu_with(&[0xc1, 0xc5]);
    cpu.reg.sp = 0x2000;
    cpu.mem.set(0x2000, 0x12);
    cpu.mem.set(0x2001, 0x34);
    cpu.next();
    assert_eq!(cpu.reg.get_bc(), 0x3412);
    cpu.next();
    assert_eq!(cpu.reg.sp, 0x2000);
    assert_eq!(cpu.mem.get(0x2000), 0x12);
    assert_eq!(cpu.mem.get(0x2001), 0x34);
}

#[test]
fn pop_push_psw_masks_flags() {
    // POP PSW; PUSH PSW
    let mut cpu = cpu_with(&[0xf1, 0xf5]);
    cpu.reg.sp = 0x2000;
    cpu.mem.set(0x2000, 0xff);
    cpu.mem.set(0x2001, 0x55);
    cpu.next();
    cpu.next();
    assert_eq!(cpu.reg.sp, 0x2000);
    assert_eq!(cpu.mem.get(0x2000), 0xd7);
    assert_eq!(cpu.mem.get(0x2001), 0x55);
}

#[test]
fn xchg_twice_keeps_registers() {
    let mut cpu = cpu_with(&[0xeb, 0xeb]);
    cpu.reg.set_de(0x1234);
    cpu.reg.set_hl(0xabcd);
    cpu.next();
    assert_eq!(cpu.reg.get_de(), 0xabcd);
    cpu.next();
    assert_eq!(cpu.reg.get_de(), 0x1234);
    assert_eq!(cpu.reg.get_hl(), 0xabcd);
    assert_eq!(cpu.reg.pc, 2);
}

#[test]
fn cmp_flags_match_sub() {
    for &(a, n) in &[(0x0a_u8, 0x05_u8), (0x02, 0x05), (0x10, 0x01), (0x80, 0x80)] {
        let mut cmp = cpu_with(&[0xb8]);
        cmp.reg.a = a;
        cmp.reg.b = n;
        cmp.next();
        let mut sub = cpu_with(&[0x90]);
        sub.reg.a = a;
        sub.reg.b = n;
        sub.next();
        assert_eq!(cmp.reg.a, a);
        assert_eq!(cmp.reg.b, n);
        assert_eq!(cmp.reg.f, sub.reg.f);
    }
}

#[test]
fn rlc_eight_times() {
    let mut cpu = cpu_with(&[0x07; 8]);
    cpu.reg.a = 0b1011_0001;
    for _ in 0..8 {
        cpu.next();
    }
    assert_eq!(cpu.reg.a, 0b1011_0001);
    assert!(cpu.reg.get_flag(Flag::C));
}

#[test]
fn rrc_eight_times() {
    let mut cpu = cpu_with(&[0x0f; 8]);
    cpu.reg.a = 0b0011_0001;
    for _ in 0..8 {
        cpu.next();
    }
    assert_eq!(cpu.reg.a, 0b0011_0001);
    assert!(!cpu.reg.get_flag(Flag::C));
}

#[test]
fn xra_a_sets_parity() {
    for x in [0x00_u8, 0x01, 0x7f, 0xff] {
        let mut cpu = cpu_with(&[0xaf]);
        cpu.reg.a = x;
        cpu.next();
        assert_eq!(cpu.reg.a, 0);
        assert!(cpu.reg.get_flag(Flag::P));
        assert!(cpu.reg.get_flag(Flag::Z));
    }
}

#[test]
fn ana_aux_carry_from_bit_three() {
    let mut cpu = cpu_with(&[0xa0]);
    cpu.reg.a = 0x08;
    cpu.reg.b = 0x00;
    cpu.next();
    assert_eq!(cpu.reg.a, 0x00);
    assert_eq!(cpu.reg.f, 0x56);
}

#[test]
fn sbb_exact_flags() {
    // 0x00 - 0xFF - 1 = 0x00 with borrow
    let mut cpu = cpu_with(&[0x98]);
    cpu.reg.a = 0x00;
    cpu.reg.b = 0xff;
    cpu.reg.set_flag(Flag::C, true);
    cpu.next();
    assert_eq!(cpu.reg.a, 0x00);
    assert_eq!(cpu.reg.f, 0x47);
}

#[test]
fn adc_carry_out_of_top() {
    // 0xFF + 0xFF + 1 = 0x1FF
    let mut cpu = cpu_with(&[0x88]);
    cpu.reg.a = 0xff;
    cpu.reg.b = 0xff;
    cpu.reg.set_flag(Flag::C, true);
    cpu.next();
    assert_eq!(cpu.reg.a, 0xff);
    assert_eq!(cpu.reg.f, 0x97);
}

#[test]
fn dad_carry_out() {
    let mut cpu = cpu_with(&[0x39]);
    cpu.reg.set_hl(0xffff);
    cpu.reg.sp = 0x0001;
    cpu.next();
    assert_eq!(cpu.reg.get_hl(), 0x0000);
    assert!(cpu.reg.get_flag(Flag::C));
}

#[test]
fn daa_low_digit_only() {
    let mut cpu = cpu_with(&[0x27]);
    cpu.reg.a = 0x0a;
    cpu.next();
    assert_eq!(cpu.reg.a, 0x10);
    assert!(cpu.reg.get_flag(Flag::A));
    assert!(!cpu.reg.get_flag(Flag::C));
}

#[test]
fn inr_dcr_keep_carry() {
    // STC; INR A; DCR A
    let mut cpu = cpu_with(&[0x37, 0x3c, 0x3d]);
    cpu.reg.a = 0xff;
    cpu.next();
    cpu.next();
    assert_eq!(cpu.reg.a, 0x00);
    assert_eq!(cpu.reg.f, 0x57);
    cpu.next();
    assert_eq!(cpu.reg.a, 0xff);
    assert_eq!(cpu.reg.f, 0x87);
}

#[test]
fn interrupts_follow_latch() {
    // HLT, then an interrupt while disabled is refused
    let mut cpu = cpu_with(&[0xfb, 0x76]);
    cpu.reg.sp = 0x1000;
    assert!(!cpu.interrupt(2));
    cpu.next();
    assert!(cpu.ei);
    cpu.next();
    assert!(cpu.halted);
    assert!(cpu.interrupt(2));
    assert!(!cpu.halted);
    assert_eq!(cpu.reg.pc, 0x0010);
    assert_eq!(cpu.mem.get_word(0x0ffe), 0x0002);
}

#[test]
fn di_clears_latch() {
    let mut cpu = cpu_with(&[0xfb, 0xf3]);
    cpu.next();
    assert!(cpu.ei);
    assert_eq!(cpu.next(), 4);
    assert!(!cpu.ei);
}

#[test]
fn in_and_out_reach_the_device() {
    // MVI A,0x42; OUT 0x07; IN 0x20
    let mut cpu = cpu_with(&[0x3e, 0x42, 0xd3, 0x07, 0xdb, 0x20]);
    let mut ports = Ports { last_out: None };
    cpu.next_with(&mut ports);
    assert_eq!(cpu.next_with(&mut ports), 10);
    assert_eq!(ports.last_out, Some((0x07, 0x42)));
    assert_eq!(cpu.next_with(&mut ports), 10);
    assert_eq!(cpu.reg.a, 0x30);
    assert_eq!(cpu.reg.pc, 6);
}

#[test]
fn in_without_device_reads_ff() {
    let mut cpu = cpu_with(&[0xdb, 0x01]);
    cpu.next();
    assert_eq!(cpu.reg.a, 0xff);
    assert_eq!(cpu.reg.pc, 2);
}

#[test]
fn xthl_swaps_with_stack_top() {
    let mut cpu = cpu_with(&[0xe3]);
    cpu.reg.sp = 0x10ad;
    cpu.reg.set_hl(0x0b3c);
    cpu.mem.set(0x10ad, 0xf0);
    cpu.mem.set(0x10ae, 0x0d);
    assert_eq!(cpu.next(), 18);
    assert_eq!(cpu.reg.get_hl(), 0x0df0);
    assert_eq!(cpu.mem.get(0x10ad), 0x3c);
    assert_eq!(cpu.mem.get(0x10ae), 0x0b);
}

#[test]
fn next_io_reports_out_and_takes_in() {
    // MVI A,0x5a; OUT 0x11; IN 0x22
    let mut cpu = cpu_with(&[0x3e, 0x5a, 0xd3, 0x11, 0xdb, 0x22]);
    assert_eq!(cpu.next_io(0x00), (7, None));
    assert_eq!(cpu.next_io(0x00), (10, Some((0x11, 0x5a))));
    assert_eq!(cpu.reg.a, 0x5a);
    assert_eq!(cpu.next_io(0x9c), (10, None));
    assert_eq!(cpu.reg.a, 0x9c);
}
