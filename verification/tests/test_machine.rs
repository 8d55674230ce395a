use space_invaders_8080::{AddressBus, Cpu, GameKey, InvadersAddressBus, InvadersIO,
    InvadersLaunch, MotherBoard, NullIO, Register, TestAddressing, U16Util, CYCLES_PER_HALF_FRAME};

fn cpu_with(program: &[(usize, u8)]) -> Cpu<TestAddressing, NullIO> {
    let mut mem = vec![0u8; 65536];
    for &(addr, byte) in program {
        mem[addr] = byte;
    }
    Cpu::new(TestAddressing::new(mem), 0)
}

fn check_szp(cpu: &Cpu<TestAddressing, NullIO>, result: u8) {
    assert_eq!(cpu.register.flag_z, result == 0);
    assert_eq!(cpu.register.flag_s, result & 0x80 != 0);
    assert_eq!(cpu.register.flag_p, result.count_ones() % 2 == 0);
}

#[test]
fn inr_c_sets_no_zero() {
    // opcode 0x0C with C = 0x99: after one step C = 0x9A and Zero is clear
    let mut cpu = cpu_with(&[(0, 0x0c)]);
    cpu.register.c = 0x99;
    cpu.next();
    assert_eq!(cpu.register.c, 0x9a);
    assert_eq!(cpu.register.flag_z, false);
}

#[test]
fn interrupt_delivers_call_when_enabled() {
    // with interrupts enabled, pc = 0x1234, sp = 0x5000: interrupt(0x08)
    // pushes 0x1234 little-endian, redirects pc and reports true
    let mut cpu = cpu_with(&[(0, 0xfb)]);
    cpu.next();  // EI
    cpu.register.pc = 0x1234;
    cpu.register.sp = 0x5000;
    let delivered = cpu.interrupt(0x08);
    assert!(delivered);
    assert_eq!(cpu.register.pc, 0x08);
    assert_eq!(cpu.register.sp, 0x4ffe);
    assert_eq!(cpu.addring.get_mem(0x4ffe), 0x34);
    assert_eq!(cpu.addring.get_mem(0x4fff), 0x12);
}

#[test]
fn interrupt_refused_when_disabled() {
    let mut cpu = cpu_with(&[]);
    cpu.register.pc = 0x1234;
    cpu.register.sp = 0x5000;
    let delivered = cpu.interrupt(0x08);
    assert!(!delivered);
    assert_eq!(cpu.register.pc, 0x1234);
    assert_eq!(cpu.register.sp, 0x5000);
    assert_eq!(cpu.addring.get_mem(0x4ffe), 0x00);
    assert_eq!(cpu.addring.get_mem(0x4fff), 0x00);
}

#[test]
fn flags_szp_exhaustive_inr() {
    for v in 0..=255u8 {
        let mut cpu = cpu_with(&[(0, 0x3c)]);  // INR A
        cpu.register.a = v;
        cpu.next();
        check_szp(&cpu, v.wrapping_add(1));
    }
}

#[test]
fn flags_szp_exhaustive_dcr() {
    for v in 0..=255u8 {
        let mut cpu = cpu_with(&[(0, 0x3d)]);  // DCR A
        cpu.register.a = v;
        cpu.next();
        check_szp(&cpu, v.wrapping_sub(1));
    }
}

#[test]
fn flags_szp_exhaustive_add() {
    for v in 0..=255u8 {
        let mut cpu = cpu_with(&[(0, 0x80)]);  // ADD B
        cpu.register.b = v;
        cpu.next();
        check_szp(&cpu, v);
    }
}

#[test]
fn flags_szp_exhaustive_adc() {
    for v in 0..=255u8 {
        let mut cpu = cpu_with(&[(0, 0x88)]);  // ADC B with carry set
        cpu.register.b = v;
        cpu.register.flag_cy = true;
        cpu.next();
        check_szp(&cpu, v.wrapping_add(1));
    }
}

#[test]
fn flags_szp_exhaustive_sub() {
    for v in 0..=255u8 {
        let mut cpu = cpu_with(&[(0, 0xd6), (1, 0)]);  // SUI 0
        cpu.register.a = v;
        cpu.next();
        check_szp(&cpu, v);
    }
}

#[test]
fn flags_szp_exhaustive_sbb() {
    for v in 0..=255u8 {
        let mut cpu = cpu_with(&[(0, 0xde), (1, 0)]);  // SBI 0 with carry set
        cpu.register.a = v;
        cpu.register.flag_cy = true;
        cpu.next();
        check_szp(&cpu, v.wrapping_sub(1));
    }
}

#[test]
fn flags_szp_exhaustive_ana() {
    for v in 0..=255u8 {
        let mut cpu = cpu_with(&[(0, 0xe6), (1, v)]);  // ANI v with A = 0xFF
        cpu.register.a = 0xff;
        cpu.next();
        check_szp(&cpu, v);
    }
}

#[test]
fn flags_szp_exhaustive_xra() {
    for v in 0..=255u8 {
        let mut cpu = cpu_with(&[(0, 0xee), (1, v)]);  // XRI v with A = 0
        cpu.next();
        check_szp(&cpu, v);
    }
}

#[test]
fn flags_szp_exhaustive_ora() {
    for v in 0..=255u8 {
        let mut cpu = cpu_with(&[(0, 0xf6), (1, v)]);  // ORI v with A = 0
        cpu.next();
        check_szp(&cpu, v);
    }
}

#[test]
fn flags_szp_exhaustive_cmp() {
    for v in 0..=255u8 {
        let mut cpu = cpu_with(&[(0, 0xfe), (1, 0)]);  // CPI 0
        cpu.register.a = v;
        cpu.next();
        check_szp(&cpu, v);
        assert_eq!(cpu.register.a, v);  // compare stores nothing
    }
}

#[test]
fn flags_szp_exhaustive_daa() {
    for v in 0..=255u8 {
        let mut cpu = cpu_with(&[(0, 0x27)]);  // DAA
        cpu.register.a = v;
        cpu.next();
        let r = cpu.register.a;
        check_szp(&cpu, r);
    }
}

#[test]
fn push_pop_roundtrip_every_pair() {
    // PUSH then POP restores the exact pair value for BC, DE and HL
    for &(push, pop) in &[(0xc5u8, 0xc1u8), (0xd5, 0xd1), (0xe5, 0xe1)] {
        let mut cpu = cpu_with(&[(0, push), (1, pop)]);
        cpu.register.set_bc(0x1234);
        cpu.register.set_de(0x5678);
        cpu.register.set_hl(0x9abc);
        cpu.register.sp = 0x4000;
        cpu.next();
        cpu.next();
        assert_eq!(cpu.register.get_bc(), 0x1234);
        assert_eq!(cpu.register.get_de(), 0x5678);
        assert_eq!(cpu.register.get_hl(), 0x9abc);
        assert_eq!(cpu.register.sp, 0x4000);
        assert_eq!(cpu.register.pc, 2);
    }
}

#[test]
fn push_pop_roundtrip_psw() {
    // PUSH PSW then POP PSW restores the accumulator and every flag bit
    let mut cpu = cpu_with(&[(0, 0xf5), (1, 0xf1)]);
    cpu.register.a = 0x5e;
    cpu.register.sp = 0x4000;
    cpu.register.flag_s = true;
    cpu.register.flag_p = true;
    cpu.register.flag_ac = true;
    cpu.next();
    cpu.next();
    assert_eq!(cpu.register.a, 0x5e);
    assert_eq!(cpu.register.flag_s, true);
    assert_eq!(cpu.register.flag_z, false);
    assert_eq!(cpu.register.flag_ac, true);
    assert_eq!(cpu.register.flag_p, true);
    assert_eq!(cpu.register.flag_cy, false);
    assert_eq!(cpu.register.sp, 0x4000);
}

#[test]
fn call_ret_roundtrip() {
    // CALL at 0x0100 to 0x2000, RET there: pc comes back to 0x0103
    let mut cpu = cpu_with(&[(0x0100, 0xcd), (0x0101, 0x00), (0x0102, 0x20), (0x2000, 0xc9)]);
    cpu.register.pc = 0x0100;
    cpu.register.sp = 0x4000;
    cpu.next();
    assert_eq!(cpu.register.pc, 0x2000);
    assert_eq!(cpu.register.sp, 0x3ffe);
    cpu.next();
    assert_eq!(cpu.register.pc, 0x0103);
    assert_eq!(cpu.register.sp, 0x4000);
}

#[test]
fn conditional_call_consumes_operand_untaken() {
    // CNZ with Zero set: no branch, but pc still advances past the operand
    let mut cpu = cpu_with(&[(0, 0xc4), (1, 0x00), (2, 0x20)]);
    cpu.register.flag_z = true;
    cpu.register.sp = 0x4000;
    let (cycles, op) = cpu.next();
    assert_eq!(op, 0xc4);
    assert_eq!(cycles, 11);
    assert_eq!(cpu.register.pc, 3);
    assert_eq!(cpu.register.sp, 0x4000);
}

#[test]
fn conditional_jump_consumes_operand_untaken() {
    let mut cpu = cpu_with(&[(0, 0xca), (1, 0x00), (2, 0x20)]);  // JZ with Zero clear
    let (cycles, op) = cpu.next();
    assert_eq!(op, 0xca);
    assert_eq!(cycles, 10);
    assert_eq!(cpu.register.pc, 3);
}

#[test]
fn jump_if_plus_follows_sign_clear() {
    // JP branches exactly when the sign flag is clear
    let mut cpu = cpu_with(&[(0, 0xf2), (1, 0x34), (2, 0x12)]);
    cpu.register.flag_s = false;
    cpu.next();
    assert_eq!(cpu.register.pc, 0x1234);

    let mut cpu = cpu_with(&[(0, 0xf2), (1, 0x34), (2, 0x12)]);
    cpu.register.flag_s = true;
    cpu.next();
    assert_eq!(cpu.register.pc, 3);

    // JM is its complement
    let mut cpu = cpu_with(&[(0, 0xfa), (1, 0x34), (2, 0x12)]);
    cpu.register.flag_s = true;
    cpu.next();
    assert_eq!(cpu.register.pc, 0x1234);
}

#[test]
fn reserved_slots_alias_nop_ret_call() {
    // 0x08 behaves as NOP
    let mut cpu = cpu_with(&[(0, 0x08)]);
    cpu.register.a = 0x42;
    let (cycles, _) = cpu.next();
    assert_eq!(cycles, 4);
    assert_eq!(cpu.register.pc, 1);
    assert_eq!(cpu.register.a, 0x42);

    // 0xd9 behaves as RET
    let mut cpu = cpu_with(&[(0, 0xd9), (0x4000, 0x77), (0x4001, 0x20)]);
    cpu.register.sp = 0x4000;
    cpu.next();
    assert_eq!(cpu.register.pc, 0x2077);
    assert_eq!(cpu.register.sp, 0x4002);

    // 0xdd behaves as CALL
    let mut cpu = cpu_with(&[(0, 0xdd), (1, 0x00), (2, 0x30)]);
    cpu.register.sp = 0x4000;
    cpu.next();
    assert_eq!(cpu.register.pc, 0x3000);
    assert_eq!(cpu.addring.get_mem(0x3ffe), 0x03);
    assert_eq!(cpu.addring.get_mem(0x3fff), 0x00);
}

#[test]
fn rst_calls_fixed_vector() {
    // RST 2 at 0x0150 pushes 0x0151 and jumps to 0x0010
    let mut cpu = cpu_with(&[(0x0150, 0xd7)]);
    cpu.register.pc = 0x0150;
    cpu.register.sp = 0x4000;
    let (cycles, _) = cpu.next();
    assert_eq!(cycles, 11);
    assert_eq!(cpu.register.pc, 0x0010);
    assert_eq!(cpu.addring.get_mem(0x3ffe), 0x51);
    assert_eq!(cpu.addring.get_mem(0x3fff), 0x01);
    assert_eq!(cpu.register.sp, 0x3ffe);
}

#[test]
fn hlt_sets_the_halted_marker() {
    let mut cpu = cpu_with(&[(0, 0x76)]);
    assert!(!cpu.is_halted());
    let (cycles, op) = cpu.next();
    assert_eq!(op, 0x76);
    assert_eq!(cycles, 7);
    assert!(cpu.is_halted());
    assert_eq!(cpu.register.pc, 1);
}

#[test]
fn daa_adjusts_packed_decimal_addition() {
    // 0x15 + 0x27 in packed decimal: binary sum 0x3C adjusts to 0x42
    let mut cpu = cpu_with(&[(0, 0xc6), (1, 0x27), (2, 0x27)]);
    cpu.register.a = 0x15;
    cpu.next();
    assert_eq!(cpu.register.a, 0x3c);
    cpu.next();
    assert_eq!(cpu.register.a, 0x42);
    assert_eq!(cpu.register.flag_cy, false);
    assert_eq!(cpu.register.flag_ac, true);
}

#[test]
fn cycle_costs_follow_the_documented_table() {
    let mut cpu = cpu_with(&[(0, 0x00), (1, 0x01), (4, 0xcd), (5, 0x08), (6, 0x00),
        (8, 0xc9)]);
    cpu.register.sp = 0x4000;
    assert_eq!(cpu.next().0, 4);  // NOP
    assert_eq!(cpu.next().0, 10);  // LXI B
    assert_eq!(cpu.next().0, 17);  // CALL
    assert_eq!(cpu.next().0, 10);  // RET

    // conditional return: 5 untaken, 11 taken
    let mut cpu = cpu_with(&[(0, 0xc0)]);
    cpu.register.flag_z = true;
    assert_eq!(cpu.next().0, 5);
    let mut cpu = cpu_with(&[(0, 0xc0)]);
    cpu.register.flag_z = false;
    cpu.register.sp = 0x4000;
    assert_eq!(cpu.next().0, 11);
}

#[test]
fn mov_through_memory_reads_and_writes_hl() {
    let mut cpu = cpu_with(&[(0, 0x46), (1, 0x70), (0x2500, 0x99)]);
    cpu.register.set_hl(0x2500);
    let (cycles, _) = cpu.next();  // MOV B,M
    assert_eq!(cycles, 7);
    assert_eq!(cpu.register.b, 0x99);
    cpu.register.b = 0x12;
    cpu.next();  // MOV M,B
    assert_eq!(cpu.addring.get_mem(0x2500), 0x12);
}

#[test]
fn register_pairs_compose_and_split() {
    let mut reg = Register {
        a: 0, b: 0, c: 0, d: 0, e: 0, h: 0, l: 0, pc: 0, sp: 0,
        flag_z: false, flag_s: false, flag_p: false, flag_cy: false, flag_ac: false,
    };
    reg.set_bc(0xabcd);
    assert_eq!(reg.b, 0xab);
    assert_eq!(reg.c, 0xcd);
    assert_eq!(reg.get_bc(), 0xabcd);
    reg.set_de(0x0102);
    assert_eq!(reg.get_de(), 0x0102);
    reg.set_hl(0xff00);
    assert_eq!(reg.get_hl(), 0xff00);
    reg.a = 0x12;
    reg.flag_cy = true;
    assert_eq!(reg.get_flags(), 0x03);
    assert_eq!(reg.get_af(), 0x1203);
    reg.set_flags(0xff);
    assert!(reg.flag_z && reg.flag_s && reg.flag_p && reg.flag_cy && reg.flag_ac);
    // the pinned bits of the packed byte read back as 0b10 at bits 1..3
    assert_eq!(reg.get_flags(), 0xd7);
}

#[test]
fn u16util_composes_little_endian() {
    assert_eq!(U16Util::from_le_bytes(0x34, 0x12), 0x1234);
    assert_eq!(U16Util::from_le_bytes(0x00, 0x00), 0x0000);
    assert_eq!(U16Util::from_le_bytes(0xff, 0xff), 0xffff);
}

#[test]
fn invaders_bus_routes_and_protects_rom() {
    let mut h = vec![0u8; 0x800];
    h[0] = 0x42;
    let mut g = vec![0u8; 0x800];
    g[0x7ff] = 0x21;
    let mut bus = InvadersAddressBus::new(h, g, vec![0u8; 0x800], vec![0u8; 0x800],
        vec![0u8; 0x1c00]);
    assert_eq!(bus.get_mem(0x0000), 0x42);
    assert_eq!(bus.get_mem(0x0fff), 0x21);
    // writes into ROM are ignored
    bus.set_mem(0x0000, 0x99);
    assert_eq!(bus.get_mem(0x0000), 0x42);
    // work memory stores
    bus.set_mem(0x2000, 0x55);
    assert_eq!(bus.get_mem(0x2000), 0x55);
    // the upper region stores across its whole range
    bus.set_mem(0xffff, 0x77);
    assert_eq!(bus.get_mem(0xffff), 0x77);
    // video memory stores and the snapshot shows it
    bus.set_mem(0x2400, 0xaa);
    assert_eq!(bus.get_mem(0x2400), 0xaa);
    let shot = bus.video_snapshot();
    assert_eq!(shot.len(), 0x1c00);
    assert_eq!(shot[0], 0xaa);
}

#[test]
fn motherboard_routes_and_protects_rom() {
    let mut f = vec![0u8; 0x800];
    f[0x123] = 0x7e;
    let mut board = MotherBoard::new(vec![0u8; 0x800], vec![0u8; 0x800], f, vec![0u8; 0x800]);
    assert_eq!(board.get_mem(0x1123), 0x7e);
    board.set_mem(0x1123, 0x00);
    assert_eq!(board.get_mem(0x1123), 0x7e);
    board.set_mem(0x23ff, 0x31);
    assert_eq!(board.get_mem(0x23ff), 0x31);
    board.set_mem(0x2400, 0x99);
    assert_eq!(board.get_mem(0x2400), 0x99);
}

#[test]
fn invaders_io_maps_keys_to_port_bits() {
    // an IN from port 1 reports the pending key's button bit
    let cases = [
        (GameKey::C, 0x01u8),
        (GameKey::Enter, 0x04),
        (GameKey::Space, 0x10),
        (GameKey::Left, 0x20),
        (GameKey::Right, 0x40),
    ];
    for &(key, bits) in &cases {
        let mut mem = vec![0u8; 65536];
        mem[0] = 0xdb;
        mem[1] = 0x01;
        let mut io = InvadersIO::new();
        io.set_input_temp(key);
        let mut cpu = Cpu::with_io(TestAddressing::new(mem), 0, io);
        let (cycles, _) = cpu.next();
        assert_eq!(cycles, 10);
        assert_eq!(cpu.register.a, bits);
    }
}

#[test]
fn invaders_io_port_two_reports_settings() {
    let mut mem = vec![0u8; 65536];
    mem[0] = 0xdb;
    mem[1] = 0x02;
    let mut io = InvadersIO::new();
    io.set_input_temp(GameKey::Space);
    let mut cpu = Cpu::with_io(TestAddressing::new(mem), 0, io);
    cpu.next();
    assert_eq!(cpu.register.a, 0x80);
}

#[test]
fn invaders_io_without_key_leaves_accumulator() {
    let mut mem = vec![0u8; 65536];
    mem[0] = 0xdb;
    mem[1] = 0x01;
    let mut io = InvadersIO::new();
    io.set_input_temp(GameKey::Left);
    io.clean_temp();
    let mut cpu = Cpu::with_io(TestAddressing::new(mem), 0, io);
    cpu.register.a = 0x66;
    cpu.next();
    assert_eq!(cpu.register.a, 0x66);
}

#[test]
fn out_consumes_port_and_changes_nothing() {
    let mut cpu = cpu_with(&[(0, 0xd3), (1, 0x05)]);
    cpu.register.a = 0x33;
    let (cycles, op) = cpu.next();
    assert_eq!(op, 0xd3);
    assert_eq!(cycles, 10);
    assert_eq!(cpu.register.pc, 2);
    assert_eq!(cpu.register.a, 0x33);
}

#[test]
fn half_frame_alternates_vectors_once_enabled() {
    // a machine that enables interrupts and loops: both raster interrupts
    // are delivered, through alternating vectors
    let mut mem = vec![0u8; 65536];
    mem[0] = 0xfb;  // EI
    mem[1] = 0xc3;  // JMP 0x0001
    mem[2] = 0x01;
    mem[3] = 0x00;
    mem[8] = 0xfb;  // the 0x08 vector re-enables interrupts and loops
    mem[9] = 0xc3;
    mem[10] = 0x09;
    mem[11] = 0x00;
    mem[0x10] = 0xfb;  // so does the 0x10 vector
    mem[0x11] = 0xc3;
    mem[0x12] = 0x11;
    mem[0x13] = 0x00;
    let mut cpu = Cpu::new(TestAddressing::new(mem), 0);
    cpu.register.sp = 0x4000;
    let mut launch = InvadersLaunch::new();
    assert!(launch.half_frame(&mut cpu));
    assert_eq!(cpu.register.pc, 0x08);
    assert!(launch.half_frame(&mut cpu));
    assert_eq!(cpu.register.pc, 0x10);
}

#[test]
fn run_burst_spends_the_budget() {
    let cpu_mem = vec![0u8; 65536];  // NOPs everywhere
    let mut cpu = Cpu::new(TestAddressing::new(cpu_mem), 0);
    let spent = InvadersLaunch::run_burst(&mut cpu, CYCLES_PER_HALF_FRAME);
    assert!(spent > CYCLES_PER_HALF_FRAME);
    assert!(spent <= CYCLES_PER_HALF_FRAME + 18);
}
