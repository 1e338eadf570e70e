use chip8::error::ExecutionError;
use chip8::machine::Machine;
use chip8::op_code::OpCode;
use chip8::random::{RandomSource, ThreadRandom};

/// A source that replays `bytes` and counts how many it has handed out.
struct Script {
    bytes: Vec<u8>,
    taken: usize,
}

impl RandomSource for Script {
    fn next_byte(&mut self) -> u8 {
        let byte = self.bytes[self.taken % self.bytes.len()];
        self.taken += 1;
        byte
    }
}

fn run(machine: &mut Machine, first: u8, second: u8) {
    assert_eq!(machine.execute_op(OpCode::from_bytes(first, second)), Ok(()));
}

fn registers(machine: &Machine) -> Vec<u8> {
    (0..16).map(|register| machine.register(register)).collect()
}

#[test]
fn load_immediate_sets_vx_for_every_byte() {
    for x in 0..16u8 {
        for nn in 0..=255u8 {
            let mut machine = Machine::new();
            run(&mut machine, 0x60 | x, nn);
            for register in 0..16 {
                let expected = if register == usize::from(x) { nn } else { 0 };
                assert_eq!(machine.register(register), expected);
            }
            assert_eq!(machine.program_counter(), 0x200);
        }
    }
}

#[test]
fn add_immediate_wraps_without_carry() {
    let mut machine = Machine::new();
    run(&mut machine, 0x63, 0xFF);
    run(&mut machine, 0x73, 0x02);
    assert_eq!(machine.register(3), 0x01);
    assert_eq!(machine.register(0xF), 0);
}

#[test]
fn add_immediate_accumulates_modulo_256() {
    for a in [0u8, 1, 0x7F, 0x80, 0xFE, 0xFF] {
        for b in [0u8, 1, 2, 0x80, 0xFF] {
            let mut machine = Machine::new();
            run(&mut machine, 0x64, 0x10);
            run(&mut machine, 0x74, a);
            run(&mut machine, 0x74, b);
            assert_eq!(u32::from(machine.register(4)), (0x10 + u32::from(a) + u32::from(b)) % 256);
            assert_eq!(machine.register(0xF), 0);
        }
    }
}

#[test]
fn add_immediate_to_vf_is_plain_addition() {
    let mut machine = Machine::new();
    run(&mut machine, 0x6F, 0xF0);
    run(&mut machine, 0x7F, 0x20);
    assert_eq!(machine.register(0xF), 0x10);
}

#[test]
fn jump_sets_program_counter() {
    let mut machine = Machine::new();
    run(&mut machine, 0x1A, 0xBC);
    assert_eq!(machine.program_counter(), 0xABC);
    assert!(machine.call_stack().is_empty());
}

#[test]
fn call_pushes_and_return_pops() {
    let mut machine = Machine::new();
    run(&mut machine, 0x23, 0x45);
    assert_eq!(machine.program_counter(), 0x345);
    assert_eq!(machine.call_stack(), &vec![0x200]);
    run(&mut machine, 0x26, 0x78);
    assert_eq!(machine.program_counter(), 0x678);
    assert_eq!(machine.call_stack(), &vec![0x200, 0x345]);
    run(&mut machine, 0x00, 0xEE);
    assert_eq!(machine.program_counter(), 0x345);
    assert_eq!(machine.call_stack(), &vec![0x200]);
    run(&mut machine, 0x00, 0xEE);
    assert_eq!(machine.program_counter(), 0x200);
    assert!(machine.call_stack().is_empty());
}

#[test]
fn call_then_return_resumes_after_the_call() {
    let mut machine = Machine::new();
    // 0x200: call 0x206; 0x202: V1 := 0x11; 0x206: return
    assert_eq!(
        machine.load_rom(vec![0x22, 0x06, 0x61, 0x11, 0x00, 0x00, 0x00, 0xEE]),
        Ok(())
    );
    let call = machine.decode_op();
    assert_eq!(machine.execute_op(call), Ok(()));
    assert_eq!(machine.program_counter(), 0x206);
    let ret = machine.decode_op();
    assert_eq!(ret, OpCode::from_bytes(0x00, 0xEE));
    assert_eq!(machine.execute_op(ret), Ok(()));
    assert_eq!(machine.program_counter(), 0x202);
    assert!(machine.call_stack().is_empty());
    let next = machine.decode_op();
    assert_eq!(machine.execute_op(next), Ok(()));
    assert_eq!(machine.register(1), 0x11);
}

#[test]
fn return_on_empty_stack_is_an_error() {
    let mut machine = Machine::new();
    run(&mut machine, 0x65, 0x33);
    assert_eq!(
        machine.execute_op(OpCode::from_bytes(0x00, 0xEE)),
        Err(ExecutionError::StackUnderflow)
    );
    assert_eq!(machine.program_counter(), 0x200);
    assert_eq!(machine.register(5), 0x33);
    assert!(machine.call_stack().is_empty());
}

#[test]
fn unimplemented_opcodes_are_errors() {
    for (first, second) in [
        (0x00u8, 0x01u8),
        (0x0A, 0xBC),
        (0x80, 0x08),
        (0x81, 0x2F),
        (0x8F, 0xF9),
        (0xE0, 0x00),
        (0xE1, 0x9F),
        (0xE1, 0xA0),
        (0xF0, 0x00),
        (0xF2, 0x56),
        (0xFF, 0xFF),
    ] {
        let mut machine = Machine::new();
        run(&mut machine, 0x61, 0x07);
        assert_eq!(
            machine.execute_op(OpCode::from_bytes(first, second)),
            Err(ExecutionError::UnimplementedOpcode(OpCode::from_bytes(first, second)))
        );
        assert_eq!(machine.program_counter(), 0x200);
        assert_eq!(machine.index(), 0);
        assert_eq!(machine.register(1), 0x07);
        assert_eq!(machine.register(0xF), 0);
    }
}

#[test]
fn every_opcode_is_implemented_or_rejected() {
    for first in 0..=255u8 {
        for second in 0..=255u8 {
            let code = OpCode::from_bytes(first, second);
            let implemented = match code.op {
                0x0 => code.n == 0x0 || code.n == 0xE,
                0x8 => code.n <= 0x7 || code.n == 0xE,
                0xE => code.nn == 0x9E || code.nn == 0xA1,
                0xF => [0x07, 0x0A, 0x15, 0x18, 0x1E, 0x29, 0x33, 0x55, 0x65].contains(&code.nn),
                _ => true,
            };
            let mut machine = Machine::new();
            // a return address, so that 00EE has something to pop
            run(&mut machine, 0x22, 0x00);
            let result = machine.execute_op(code);
            if implemented {
                assert_eq!(result, Ok(()));
            } else {
                assert_eq!(result, Err(ExecutionError::UnimplementedOpcode(code)));
            }
        }
    }
}

#[test]
fn skip_if_equal_immediate() {
    let mut machine = Machine::new();
    run(&mut machine, 0x62, 0x44);
    run(&mut machine, 0x32, 0x44);
    assert_eq!(machine.program_counter(), 0x202);
    run(&mut machine, 0x32, 0x45);
    assert_eq!(machine.program_counter(), 0x202);
}

#[test]
fn skip_if_not_equal_immediate() {
    let mut machine = Machine::new();
    run(&mut machine, 0x62, 0x44);
    run(&mut machine, 0x42, 0x44);
    assert_eq!(machine.program_counter(), 0x200);
    run(&mut machine, 0x42, 0x45);
    assert_eq!(machine.program_counter(), 0x202);
}

#[test]
fn skip_if_registers_equal() {
    let mut machine = Machine::new();
    run(&mut machine, 0x62, 0x44);
    run(&mut machine, 0x63, 0x44);
    run(&mut machine, 0x64, 0x45);
    run(&mut machine, 0x52, 0x30);
    assert_eq!(machine.program_counter(), 0x202);
    run(&mut machine, 0x52, 0x40);
    assert_eq!(machine.program_counter(), 0x202);
}

#[test]
fn skip_if_registers_differ() {
    let mut machine = Machine::new();
    run(&mut machine, 0x62, 0x44);
    run(&mut machine, 0x63, 0x44);
    run(&mut machine, 0x64, 0x45);
    run(&mut machine, 0x92, 0x30);
    assert_eq!(machine.program_counter(), 0x200);
    run(&mut machine, 0x92, 0x40);
    assert_eq!(machine.program_counter(), 0x202);
}

#[test]
fn skip_goes_beyond_twelve_bits() {
    let mut machine = Machine::new();
    // PC := 0xFFF + 0xFF = 0x10FE
    run(&mut machine, 0x60, 0xFF);
    run(&mut machine, 0xBF, 0xFF);
    assert_eq!(machine.program_counter(), 0x10FE);
    run(&mut machine, 0x30, 0xFF);
    assert_eq!(machine.program_counter(), 0x1100);
}

#[test]
fn skip_wraps_at_sixteen_bits() {
    let mut machine = Machine::new();
    // PC := 1, then back by two to 0xFFFF
    run(&mut machine, 0x10, 0x01);
    run(&mut machine, 0xF0, 0x0A);
    assert_eq!(machine.program_counter(), 0xFFFF);
    run(&mut machine, 0x30, 0x00);
    assert_eq!(machine.program_counter(), 0x0001);
}

#[test]
fn assign_or_and_xor() {
    let mut machine = Machine::new();
    run(&mut machine, 0x61, 0b1100_1010);
    run(&mut machine, 0x62, 0b1010_0110);
    run(&mut machine, 0x83, 0x20);
    assert_eq!(machine.register(3), 0b1010_0110);
    run(&mut machine, 0x83, 0x11);
    assert_eq!(machine.register(3), 0b1110_1110);
    run(&mut machine, 0x83, 0x12);
    assert_eq!(machine.register(3), 0b1100_1010);
    run(&mut machine, 0x83, 0x23);
    assert_eq!(machine.register(3), 0b0110_1100);
    assert_eq!(machine.register(0xF), 0);
    assert_eq!(machine.register(1), 0b1100_1010);
    assert_eq!(machine.register(2), 0b1010_0110);
}

#[test]
fn add_sets_carry_exactly_on_overflow() {
    for a in 0..=255u8 {
        for b in 0..=255u8 {
            let mut machine = Machine::new();
            run(&mut machine, 0x6F, 0x55);
            run(&mut machine, 0x61, a);
            run(&mut machine, 0x62, b);
            run(&mut machine, 0x81, 0x24);
            let sum = u32::from(a) + u32::from(b);
            assert_eq!(u32::from(machine.register(1)), sum % 256);
            assert_eq!(machine.register(0xF), u8::from(sum > 255));
            assert_eq!(machine.register(2), b);
        }
    }
}

#[test]
fn add_at_the_carry_boundary() {
    let mut machine = Machine::new();
    run(&mut machine, 0x61, 0xFF);
    run(&mut machine, 0x62, 0x00);
    run(&mut machine, 0x81, 0x24);
    assert_eq!((machine.register(1), machine.register(0xF)), (0xFF, 0));
    run(&mut machine, 0x62, 0x01);
    run(&mut machine, 0x81, 0x24);
    assert_eq!((machine.register(1), machine.register(0xF)), (0x00, 1));
}

#[test]
fn subtract_sets_flag_when_nothing_is_borrowed() {
    for a in 0..=255u8 {
        for b in 0..=255u8 {
            let mut machine = Machine::new();
            run(&mut machine, 0x61, a);
            run(&mut machine, 0x62, b);
            run(&mut machine, 0x81, 0x25);
            assert_eq!(machine.register(1), a.wrapping_sub(b));
            assert_eq!(machine.register(0xF), u8::from(a >= b));
        }
    }
}

#[test]
fn subtract_equal_operands_sets_flag() {
    let mut machine = Machine::new();
    run(&mut machine, 0x61, 0x42);
    run(&mut machine, 0x62, 0x42);
    run(&mut machine, 0x81, 0x25);
    assert_eq!((machine.register(1), machine.register(0xF)), (0, 1));
}

#[test]
fn reverse_subtract_sets_flag_when_nothing_is_borrowed() {
    for a in 0..=255u8 {
        for b in [0u8, 1, 0x7F, 0x80, 0xFF, a] {
            let mut machine = Machine::new();
            run(&mut machine, 0x61, a);
            run(&mut machine, 0x62, b);
            run(&mut machine, 0x81, 0x27);
            assert_eq!(machine.register(1), b.wrapping_sub(a));
            assert_eq!(machine.register(0xF), u8::from(b >= a));
            assert_eq!(machine.register(2), b);
        }
    }
}

#[test]
fn shift_right_moves_low_bit_to_vf() {
    let mut machine = Machine::new();
    run(&mut machine, 0x61, 0b1000_0101);
    run(&mut machine, 0x62, 0xFF);
    run(&mut machine, 0x81, 0x26);
    assert_eq!((machine.register(1), machine.register(0xF)), (0b0100_0010, 1));
    run(&mut machine, 0x81, 0x26);
    assert_eq!((machine.register(1), machine.register(0xF)), (0b0010_0001, 0));
    assert_eq!(machine.register(2), 0xFF);
}

#[test]
fn shift_left_moves_high_bit_to_vf() {
    let mut machine = Machine::new();
    run(&mut machine, 0x61, 0b1010_0001);
    run(&mut machine, 0x62, 0xFF);
    run(&mut machine, 0x81, 0x2E);
    assert_eq!((machine.register(1), machine.register(0xF)), (0b0100_0010, 1));
    run(&mut machine, 0x81, 0x2E);
    assert_eq!((machine.register(1), machine.register(0xF)), (0b1000_0100, 0));
    assert_eq!(machine.register(2), 0xFF);
}

#[test]
fn flag_is_written_after_the_result() {
    // with x = F the flag replaces the result
    let mut machine = Machine::new();
    run(&mut machine, 0x6F, 0xF0);
    run(&mut machine, 0x61, 0x20);
    run(&mut machine, 0x8F, 0x14);
    assert_eq!(machine.register(0xF), 1);
    run(&mut machine, 0x6F, 0x10);
    run(&mut machine, 0x8F, 0x14);
    assert_eq!(machine.register(0xF), 0);
    run(&mut machine, 0x6F, 0x03);
    run(&mut machine, 0x8F, 0x15);
    assert_eq!(machine.register(0xF), 0);
    run(&mut machine, 0x6F, 0x81);
    run(&mut machine, 0x8F, 0x06);
    assert_eq!(machine.register(0xF), 1);
}

#[test]
fn flag_uses_operands_from_before_the_write() {
    // with y = F the old VF is the operand
    let mut machine = Machine::new();
    run(&mut machine, 0x6F, 0x05);
    run(&mut machine, 0x61, 0x03);
    run(&mut machine, 0x81, 0xF5);
    assert_eq!(machine.register(1), 0xFE);
    assert_eq!(machine.register(0xF), 0);
}

#[test]
fn set_index() {
    let mut machine = Machine::new();
    run(&mut machine, 0xAF, 0xED);
    assert_eq!(machine.index(), 0xFED);
    assert_eq!(machine.program_counter(), 0x200);
}

#[test]
fn jump_with_offset_adds_v0() {
    let mut machine = Machine::new();
    run(&mut machine, 0x60, 0x12);
    run(&mut machine, 0x61, 0xFF);
    run(&mut machine, 0xB3, 0x00);
    assert_eq!(machine.program_counter(), 0x312);
}

#[test]
fn random_is_masked_by_nn() {
    for _ in 0..200 {
        let mut machine = Machine::new();
        run(&mut machine, 0x67, 0xFF);
        run(&mut machine, 0xC7, 0x0F);
        assert_eq!(machine.register(7) & 0xF0, 0);
        run(&mut machine, 0x67, 0xFF);
        run(&mut machine, 0xC7, 0x00);
        assert_eq!(machine.register(7), 0);
    }
}

#[test]
fn random_draws_vary() {
    let mut machine = Machine::new();
    let mut seen = [false; 256];
    for _ in 0..4096 {
        run(&mut machine, 0xC7, 0xFF);
        seen[usize::from(machine.register(7))] = true;
    }
    assert!(seen.iter().filter(|value| **value).count() > 64);
}

#[test]
fn random_changes_only_vx() {
    let mut machine = Machine::new();
    run(&mut machine, 0x61, 0x11);
    run(&mut machine, 0xC2, 0xFF);
    let after = registers(&machine);
    for (register, value) in after.iter().enumerate() {
        if register == 1 {
            assert_eq!(*value, 0x11);
        } else if register != 2 {
            assert_eq!(*value, 0);
        }
    }
    assert_eq!(machine.program_counter(), 0x200);
}

#[test]
fn random_with_given_byte() {
    let mut machine = Machine::new();
    let code = OpCode::from_bytes(0xC3, 0b0011_1100);
    assert_eq!(machine.execute_op_with(code, 0b1010_1010), Ok(()));
    assert_eq!(machine.register(3), 0b0010_1000);
    assert_eq!(machine.execute_op_with(code, 0xFF), Ok(()));
    assert_eq!(machine.register(3), 0b0011_1100);
    assert_eq!(machine.execute_op_with(code, 0x00), Ok(()));
    assert_eq!(machine.register(3), 0);
}

#[test]
fn random_from_a_scripted_source() {
    let mut machine = Machine::new();
    let mut source = Script { bytes: vec![0xFF, 0x5A, 0x00], taken: 0 };
    let code = OpCode::from_bytes(0xC4, 0xF3);
    assert_eq!(machine.execute_op_from(code, &mut source), Ok(()));
    assert_eq!(machine.register(4), 0xF3);
    assert_eq!(machine.execute_op_from(code, &mut source), Ok(()));
    assert_eq!(machine.register(4), 0x52);
    assert_eq!(machine.execute_op_from(code, &mut source), Ok(()));
    assert_eq!(machine.register(4), 0x00);
    assert_eq!(source.taken, 3);
}

#[test]
fn only_random_takes_a_byte_from_the_source() {
    let mut source = Script { bytes: vec![0xAB], taken: 0 };
    for first in 0..=255u8 {
        for second in [0x00u8, 0x0A, 0x1E, 0x33, 0x9E, 0xE0, 0xEE] {
            let code = OpCode::from_bytes(first, second);
            let mut machine = Machine::new();
            let before = source.taken;
            let _ = machine.execute_op_from(code, &mut source);
            assert_eq!(source.taken - before, usize::from(code.op == 0xC));
        }
    }
}

#[test]
fn thread_random_hands_out_bytes() {
    let mut source = ThreadRandom;
    let mut seen = [false; 256];
    for _ in 0..4096 {
        seen[usize::from(source.next_byte())] = true;
    }
    assert!(seen.iter().filter(|value| **value).count() > 64);
}

#[test]
fn given_byte_matters_only_to_random() {
    let mut first = Machine::new();
    let mut second = Machine::new();
    for (high, low) in [(0x61u8, 0x09u8), (0x71, 0xF9), (0x82, 0x14), (0xA1, 0x23), (0xF1, 0x1E)] {
        let code = OpCode::from_bytes(high, low);
        assert_eq!(first.execute_op_with(code, 0x00), Ok(()));
        assert_eq!(second.execute_op_with(code, 0xFF), Ok(()));
    }
    assert_eq!(registers(&first), registers(&second));
    assert_eq!(first.index(), second.index());
}

#[test]
fn skip_if_key_pressed() {
    let mut machine = Machine::new();
    run(&mut machine, 0x61, 0x0B);
    run(&mut machine, 0xE1, 0x9E);
    assert_eq!(machine.program_counter(), 0x200);
    machine.keydown(0xB);
    run(&mut machine, 0xE1, 0x9E);
    assert_eq!(machine.program_counter(), 0x202);
    machine.keyup(0xB);
    machine.keydown(0xA);
    run(&mut machine, 0xE1, 0x9E);
    assert_eq!(machine.program_counter(), 0x202);
}

#[test]
fn skip_if_key_not_pressed() {
    let mut machine = Machine::new();
    run(&mut machine, 0x61, 0x0B);
    run(&mut machine, 0xE1, 0xA1);
    assert_eq!(machine.program_counter(), 0x202);
    machine.keydown(0xB);
    run(&mut machine, 0xE1, 0xA1);
    assert_eq!(machine.program_counter(), 0x202);
}

#[test]
fn key_skips_ignore_numbers_that_are_no_key() {
    for value in [0x10u8, 0x1B, 0x80, 0xFF] {
        let mut machine = Machine::new();
        for key in 0..16 {
            machine.keydown(key);
        }
        run(&mut machine, 0x61, value);
        run(&mut machine, 0xE1, 0x9E);
        assert_eq!(machine.program_counter(), 0x200);
        for key in 0..16 {
            machine.keyup(key);
        }
        run(&mut machine, 0xE1, 0xA1);
        assert_eq!(machine.program_counter(), 0x200);
    }
}

#[test]
fn timers_are_copied_to_and_from_vx() {
    let mut machine = Machine::new();
    run(&mut machine, 0x61, 0x3C);
    run(&mut machine, 0xF1, 0x15);
    assert_eq!(machine.delay_timer(), 0x3C);
    assert_eq!(machine.sound_timer(), 0);
    run(&mut machine, 0x62, 0x09);
    run(&mut machine, 0xF2, 0x18);
    assert_eq!(machine.sound_timer(), 0x09);
    assert_eq!(machine.delay_timer(), 0x3C);
    machine.tick();
    run(&mut machine, 0xF5, 0x07);
    assert_eq!(machine.register(5), 0x3B);
}

#[test]
fn add_to_index() {
    let mut machine = Machine::new();
    run(&mut machine, 0xA1, 0x00);
    run(&mut machine, 0x63, 0xFF);
    run(&mut machine, 0xF3, 0x1E);
    assert_eq!(machine.index(), 0x1FF);
    assert_eq!(machine.register(0xF), 0);
}

#[test]
fn add_to_index_goes_beyond_twelve_bits() {
    let mut machine = Machine::new();
    run(&mut machine, 0xAF, 0xFF);
    run(&mut machine, 0x63, 0x02);
    run(&mut machine, 0xF3, 0x1E);
    assert_eq!(machine.index(), 0x1001);
    assert_eq!(machine.register(0xF), 0);
}

#[test]
fn add_to_index_wraps_at_sixteen_bits() {
    let mut machine = Machine::new();
    run(&mut machine, 0xAF, 0xFF);
    run(&mut machine, 0x63, 0xFF);
    // 0x0FFF + 241 * 0xFF = 0x0FFF + 0xF00F = 0x1_000E
    for _ in 0..241 {
        run(&mut machine, 0xF3, 0x1E);
    }
    assert_eq!(machine.index(), 0x000E);
}

#[test]
fn font_address_of_every_digit() {
    for digit in 0..16u8 {
        let mut machine = Machine::new();
        run(&mut machine, 0x64, digit);
        run(&mut machine, 0xF4, 0x29);
        assert_eq!(machine.index(), 0x50 + 5 * u16::from(digit));
    }
    let mut machine = Machine::new();
    run(&mut machine, 0x64, 0xFF);
    run(&mut machine, 0xF4, 0x29);
    assert_eq!(machine.index(), 0x50 + 5 * 255);
}

#[test]
fn font_glyph_of_a_digit_is_at_its_address() {
    let mut machine = Machine::new();
    run(&mut machine, 0x64, 0x0A);
    run(&mut machine, 0xF4, 0x29);
    let address = machine.index();
    let glyph: Vec<u8> = (0..5).map(|row| machine.memory_at(address + row)).collect();
    assert_eq!(glyph, vec![0xF0, 0x90, 0xF0, 0x90, 0x90]);
}

#[test]
fn wait_key_repeats_until_a_key_is_down() {
    let mut machine = Machine::new();
    assert_eq!(machine.load_rom(vec![0xF3, 0x0A, 0x61, 0x01]), Ok(()));
    for _ in 0..25 {
        let code = machine.decode_op();
        assert_eq!(code, OpCode::from_bytes(0xF3, 0x0A));
        assert_eq!(machine.execute_op(code), Ok(()));
        assert_eq!(machine.program_counter(), 0x200);
        assert_eq!(machine.register(3), 0);
    }
    machine.keydown(0xC);
    machine.keydown(0x7);
    machine.keydown(0xD);
    let code = machine.decode_op();
    assert_eq!(machine.execute_op(code), Ok(()));
    assert_eq!(machine.register(3), 0x7);
    assert_eq!(machine.program_counter(), 0x202);
}

#[test]
fn wait_key_takes_key_zero() {
    let mut machine = Machine::new();
    run(&mut machine, 0x65, 0xAA);
    machine.keydown(0x0);
    machine.keydown(0xF);
    run(&mut machine, 0xF5, 0x0A);
    assert_eq!(machine.register(5), 0);
    assert_eq!(machine.program_counter(), 0x200);
}

#[test]
fn wait_key_rewinds_across_zero() {
    let mut machine = Machine::new();
    run(&mut machine, 0x10, 0x01);
    run(&mut machine, 0xF5, 0x0A);
    assert_eq!(machine.program_counter(), 0xFFFF);
}

#[test]
fn store_decimal_digits() {
    let mut machine = Machine::new();
    run(&mut machine, 0x62, 234);
    run(&mut machine, 0xA3, 0x00);
    run(&mut machine, 0xF2, 0x33);
    assert_eq!(machine.memory_at(0x300), 2);
    assert_eq!(machine.memory_at(0x301), 3);
    assert_eq!(machine.memory_at(0x302), 4);
    assert_eq!(machine.memory_at(0x2FF), 0);
    assert_eq!(machine.memory_at(0x303), 0);
    assert_eq!(machine.index(), 0x300);
    assert_eq!(machine.register(2), 234);
}

#[test]
fn store_decimal_digits_of_small_numbers() {
    let mut machine = Machine::new();
    run(&mut machine, 0xA3, 0x00);
    run(&mut machine, 0x62, 7);
    run(&mut machine, 0xF2, 0x33);
    assert_eq!(
        (machine.memory_at(0x300), machine.memory_at(0x301), machine.memory_at(0x302)),
        (0, 0, 7)
    );
    run(&mut machine, 0x62, 90);
    run(&mut machine, 0xF2, 0x33);
    assert_eq!(
        (machine.memory_at(0x300), machine.memory_at(0x301), machine.memory_at(0x302)),
        (0, 9, 0)
    );
}

#[test]
fn store_decimal_digits_wraps_at_end_of_memory() {
    let mut machine = Machine::new();
    run(&mut machine, 0x62, 159);
    run(&mut machine, 0xAF, 0xFF);
    run(&mut machine, 0xF2, 0x33);
    assert_eq!(machine.memory_at(0xFFF), 1);
    assert_eq!(machine.memory_at(0x000), 5);
    assert_eq!(machine.memory_at(0x001), 9);
}

#[test]
fn store_registers_writes_v0_to_vx() {
    let mut machine = Machine::new();
    for register in 0..16u8 {
        run(&mut machine, 0x60 | register, 0xA0 + register);
    }
    run(&mut machine, 0xA4, 0x00);
    run(&mut machine, 0xF3, 0x55);
    for offset in 0..4u16 {
        assert_eq!(machine.memory_at(0x400 + offset), 0xA0 + offset as u8);
    }
    assert_eq!(machine.memory_at(0x404), 0);
    assert_eq!(machine.memory_at(0x3FF), 0);
    assert_eq!(machine.index(), 0x400);
}

#[test]
fn store_registers_with_x_zero_writes_one_byte() {
    let mut machine = Machine::new();
    run(&mut machine, 0x60, 0x77);
    run(&mut machine, 0x61, 0x88);
    run(&mut machine, 0xA4, 0x00);
    run(&mut machine, 0xF0, 0x55);
    assert_eq!(machine.memory_at(0x400), 0x77);
    assert_eq!(machine.memory_at(0x401), 0);
}

#[test]
fn load_registers_reads_v0_to_vx() {
    let mut machine = Machine::new();
    assert_eq!(machine.load_rom(vec![1, 2, 3, 4, 5]), Ok(()));
    for register in 0..16u8 {
        run(&mut machine, 0x60 | register, 0xEE);
    }
    run(&mut machine, 0xA2, 0x00);
    run(&mut machine, 0xF2, 0x65);
    assert_eq!(registers(&machine)[..4], [1, 2, 3, 0xEE]);
    assert_eq!(machine.index(), 0x200);
    assert_eq!(machine.memory_at(0x200), 1);
}

#[test]
fn store_then_load_restores_registers() {
    for x in 0..16u8 {
        let mut machine = Machine::new();
        for register in 0..16u8 {
            run(&mut machine, 0x60 | register, 0x31 + 3 * register);
        }
        let before = registers(&machine);
        run(&mut machine, 0xA6, 0x00);
        run(&mut machine, 0xF0 | x, 0x55);
        for register in 0..16u8 {
            run(&mut machine, 0x60 | register, 0x00);
        }
        run(&mut machine, 0xF0 | x, 0x65);
        let after = registers(&machine);
        for register in 0..16usize {
            let expected = if register <= usize::from(x) { before[register] } else { 0 };
            assert_eq!(after[register], expected);
        }
    }
}

#[test]
fn store_then_load_across_end_of_memory() {
    let mut machine = Machine::new();
    for register in 0..16u8 {
        run(&mut machine, 0x60 | register, 0x10 + register);
    }
    let before = registers(&machine);
    run(&mut machine, 0xAF, 0xFA);
    run(&mut machine, 0xFF, 0x55);
    assert_eq!(machine.memory_at(0xFFA), 0x10);
    assert_eq!(machine.memory_at(0xFFF), 0x15);
    assert_eq!(machine.memory_at(0x000), 0x16);
    assert_eq!(machine.memory_at(0x009), 0x1F);
    for register in 0..16u8 {
        run(&mut machine, 0x60 | register, 0x00);
    }
    run(&mut machine, 0xFF, 0x65);
    assert_eq!(registers(&machine), before);
}

#[test]
fn malformed_opcodes_are_rejected() {
    for code in [
        OpCode { op: 0x6, x: 0x10, y: 0, n: 0, nn: 0, nnn: 0x1000 },
        OpCode { op: 0x10, x: 0, y: 0, n: 0, nn: 0, nnn: 0 },
        OpCode { op: 0x8, x: 1, y: 0x20, n: 0, nn: 0, nnn: 0x100 },
        OpCode { op: 0x6, x: 1, y: 2, n: 3, nn: 0x24, nnn: 0x124 },
        OpCode { op: 0x1, x: 2, y: 3, n: 4, nn: 0x34, nnn: 0x334 },
        OpCode { op: 0xD, x: 0, y: 0, n: 0x1F, nn: 0x1F, nnn: 0x01F },
    ] {
        assert!(!code.is_well_formed());
        let mut machine = Machine::new();
        assert_eq!(
            machine.execute_op(code),
            Err(ExecutionError::UnimplementedOpcode(code))
        );
        assert_eq!(machine.program_counter(), 0x200);
        assert_eq!(registers(&machine), vec![0; 16]);
    }
}

#[test]
fn decoded_opcodes_are_well_formed() {
    for first in 0..=255u8 {
        for second in 0..=255u8 {
            assert!(OpCode::from_bytes(first, second).is_well_formed());
        }
    }
}
