//! Execution of instructions on the machine.

use vstd::prelude::*;
use crate::error::ExecutionError;
use crate::machine::Machine;
use crate::op_code::OpCode;
use crate::random::{RandomSource, ThreadRandom};
use crate::state::{wrap_u16, wrap_u8, FONT_START, GLYPH_SIZE};

verus! {

/// Wrapping addition and subtraction of bytes are addition and subtraction
/// modulo 256.
proof fn lemma_wrapping_u8(a: u8, b: u8)
    ensures
        a.wrapping_add(b) == wrap_u8(a + b),
        a.wrapping_sub(b) == wrap_u8(a - b),
{
}

/// Wrapping addition of sixteen-bit words is addition modulo 65536.
proof fn lemma_wrapping_u16(a: u16, b: u16)
    ensures
        a.wrapping_add(b) == wrap_u16(a + b),
{
}

/// Shifting a byte by one bit halves or doubles it, and its lowest and
/// highest bits say whether it is odd and whether it is at least 128.
proof fn lemma_shifts(a: u8)
    ensures
        a >> 1 == a / 2,
        (a & 1 != 0) == (a % 2 == 1),
        a << 1 == wrap_u8(a * 2),
        (a & 0x80 != 0) == (a >= 128),
{
    assert(a >> 1 == a / 2) by (bit_vector);
    assert((a & 1 != 0) == (a % 2 == 1)) by (bit_vector);
    assert(a << 1 == (a * 2) % 0x100) by (bit_vector);
    assert((a & 0x80 != 0) == (a >= 128)) by (bit_vector);
}

impl Machine {
    /// `8xyn`: arithmetic and logic on `Vx` and `Vy`.
    fn execute_alu(&mut self, op_code: &OpCode) -> (result: Result<(), ExecutionError>)
        requires
            op_code.wf(),
        ensures
            match result {
                Ok(_) => (op_code.n <= 0x7 || op_code.n == 0xE) && final(self)@ == old(self)@.alu(
                    *op_code,
                ),
                Err(error) => !(op_code.n <= 0x7 || op_code.n == 0xE) && error
                    == ExecutionError::UnimplementedOpcode(*op_code) && final(self)@ == old(
                    self,
                )@,
            },
    {
        let vx = self.fetch_vx(op_code);
        let vy = self.fetch_vy(op_code);
        proof {
            lemma_wrapping_u8(vx, vy);
            lemma_wrapping_u8(vy, vx);
            lemma_shifts(vx);
        }
        match op_code.n {
            0x0 => {
                self.register_vx(op_code, vy);
            },
            0x1 => {
                self.register_vx(op_code, vx | vy);
            },
            0x2 => {
                self.register_vx(op_code, vx & vy);
            },
            0x3 => {
                self.register_vx(op_code, vx ^ vy);
            },
            0x4 => {
                self.register_vx(op_code, vx.wrapping_add(vy));
                self.set_flag(vx > 255 - vy);
            },
            0x5 => {
                self.register_vx(op_code, vx.wrapping_sub(vy));
                self.set_flag(vx >= vy);
            },
            0x6 => {
                self.register_vx(op_code, vx >> 1);
                self.set_flag(vx & 0b0000_0001 != 0);
            },
            0x7 => {
                self.register_vx(op_code, vy.wrapping_sub(vx));
                self.set_flag(vy >= vx);
            },
            0xE => {
                self.register_vx(op_code, vx << 1);
                self.set_flag(vx & 0b1000_0000 != 0);
            },
            _ => {
                return Err(ExecutionError::UnimplementedOpcode(*op_code));
            },
        }
        Ok(())
    }

    /// `Dxyn`: draws the sprite at `I` at `(Vx mod 64, Vy mod 32)`, row by
    /// row and bit by bit, up to the right and the bottom edge.
    fn draw_on_display(&mut self, op_code: &OpCode)
        requires
            op_code.wf(),
        ensures
            final(self)@ == old(self)@.draw(*op_code),
    {
        let vx = self.fetch_vx(op_code);
        let vy = self.fetch_vy(op_code);
        let start_x = (vx as usize) % 64;
        let start_y = (vy as usize) % 32;
        let address = self.index();
        let ghost before = self@;
        proof {
            self.lemma_view_wf();
            before.lemma_draw_start(*op_code);
        }
        let mut flagged = false;
        let mut row: u8 = 0;
        while row < op_code.n && start_y + (row as usize) < 32
            invariant
                before.wf(),
                op_code.wf(),
                row <= op_code.n,
                start_x == before.vx(*op_code) % 64,
                start_y == before.vy(*op_code) % 32,
                address == before.i,
                self@ == before.drawn_within(*op_code, row as int, 0),
                flagged == before.collides_within(*op_code, row as int, 0),
            decreases op_code.n - row,
        {
            let sprite = self.read_memory(address, row as u16);
            let mut column: u8 = 0;
            while column < 8 && start_x + (column as usize) < 64
                invariant
                    before.wf(),
                    op_code.wf(),
                    row < op_code.n,
                    column <= 8,
                    start_x == before.vx(*op_code) % 64,
                    start_y == before.vy(*op_code) % 32,
                    start_y + row < 32,
                    sprite == before.byte_at(before.i + row),
                    self@ == before.drawn_within(*op_code, row as int, column as int),
                    flagged == before.collides_within(*op_code, row as int, column as int),
                decreases 8 - column,
            {
                let bit = (sprite >> (7 - column)) & 1 != 0;
                proof {
                    before.lemma_draw_pixel(*op_code, row as int, column as int);
                }
                let was_on = self.xor_pixel(
                    start_x + (column as usize),
                    start_y + (row as usize),
                    bit,
                );
                flagged = flagged || (was_on && bit);
                column += 1;
            }
            proof {
                before.lemma_draw_row_end(*op_code, row as int, column as int);
            }
            row += 1;
        }
        proof {
            before.lemma_draw_end(*op_code, row as int);
        }
        self.set_flag(flagged);
    }

    /// `Fx0A`: takes the lowest key held down, or goes back to this
    /// instruction where there is none.
    fn wait_key(&mut self, op_code: &OpCode)
        requires
            op_code.wf(),
        ensures
            final(self)@ == old(self)@.wait_key(*op_code),
    {
        let mut key: u8 = 0;
        while key < 16
            invariant
                key <= 16,
                op_code.wf(),
                self@ == old(self)@,
                forall|other: int| 0 <= other < key ==> !self@.keypad[other],
            decreases 16 - key,
        {
            if self.is_key_down(key as usize) {
                assert(self@.is_lowest_pressed(key as int));
                self.register_vx(op_code, key);
                return ;
            }
            key += 1;
        }
        self.rewind();
    }

    /// `Fx33`: writes the decimal digits of `Vx` to memory at `I`.
    fn store_bcd(&mut self, op_code: &OpCode)
        requires
            op_code.wf(),
        ensures
            final(self)@ == old(self)@.store_bcd(*op_code),
    {
        let digits = self.digits_from_number(self.fetch_vx(op_code));
        let address = self.index();
        self.write_memory(address, 0, digits[0]);
        self.write_memory(address, 1, digits[1]);
        self.write_memory(address, 2, digits[2]);
    }

    /// `Fx55`: writes `V0` to `Vx` to memory at `I`.
    fn store_registers(&mut self, op_code: &OpCode)
        requires
            op_code.wf(),
        ensures
            final(self)@ == old(self)@.store_registers(*op_code),
    {
        let address = self.index();
        let mut register: u8 = 0;
        proof {
            self.lemma_view_wf();
            assert(self@ =~~= old(self)@.store_first_registers(0));
        }
        while register <= op_code.x
            invariant
                op_code.wf(),
                old(self)@.wf(),
                register <= op_code.x + 1,
                address == old(self)@.i,
                self@ == old(self)@.store_first_registers(register as int),
            decreases op_code.x + 1 - register,
        {
            let value = self.register(register as usize);
            self.write_memory(address, register as u16, value);
            register += 1;
            assert(self@ =~~= old(self)@.store_first_registers(register as int));
        }
    }

    /// `Fx65`: reads `V0` to `Vx` from memory at `I`.
    fn load_registers(&mut self, op_code: &OpCode)
        requires
            op_code.wf(),
        ensures
            final(self)@ == old(self)@.load_registers(*op_code),
    {
        let address = self.index();
        let mut register: u8 = 0;
        proof {
            self.lemma_view_wf();
            assert(self@ =~~= old(self)@.load_first_registers(0));
        }
        while register <= op_code.x
            invariant
                op_code.wf(),
                old(self)@.wf(),
                register <= op_code.x + 1,
                address == old(self)@.i,
                self@ == old(self)@.load_first_registers(register as int),
            decreases op_code.x + 1 - register,
        {
            let value = self.read_memory(address, register as u16);
            self.set_register(register as usize, value);
            register += 1;
            assert(self@ =~~= old(self)@.load_first_registers(register as int));
        }
    }

    /// The instructions of family `F`.
    fn execute_misc(&mut self, op_code: &OpCode) -> (result: Result<(), ExecutionError>)
        requires
            op_code.wf(),
            op_code.op == 0xF,
        ensures
            match result {
                Ok(_) => op_code.implemented() && final(self)@ == old(self)@.misc(*op_code),
                Err(error) => !op_code.implemented() && error
                    == ExecutionError::UnimplementedOpcode(*op_code) && final(self)@ == old(
                    self,
                )@,
            },
    {
        let vx = self.fetch_vx(op_code);
        match op_code.nn {
            0x07 => {
                let delay = self.delay_timer();
                self.register_vx(op_code, delay);
            },
            0x0A => {
                self.wait_key(op_code);
            },
            0x15 => {
                self.set_delay_timer(vx);
            },
            0x18 => {
                self.set_sound_timer(vx);
            },
            0x1E => {
                let index = self.index();
                proof {
                    lemma_wrapping_u16(index, vx as u16);
                }
                self.set_index(index.wrapping_add(vx as u16));
            },
            0x29 => {
                self.set_index(FONT_START + GLYPH_SIZE * (vx as u16));
            },
            0x33 => {
                self.store_bcd(op_code);
            },
            0x55 => {
                self.store_registers(op_code);
            },
            0x65 => {
                self.load_registers(op_code);
            },
            _ => {
                return Err(ExecutionError::UnimplementedOpcode(*op_code));
            },
        }
        Ok(())
    }

    /// Executes `op_code`, with `random` as the byte that `Cxnn` draws. An
    /// instruction outside the instruction set, or a return on an empty
    /// stack, is an error and leaves the machine as it was.
    pub fn execute_op_with(&mut self, op_code: OpCode, random: u8) -> (result: Result<
        (),
        ExecutionError,
    >)
        ensures
            old(self)@.executes(op_code, random, result, final(self)@),
    {
        if !op_code.is_well_formed() {
            return Err(ExecutionError::UnimplementedOpcode(op_code));
        }
        let vx = self.fetch_vx(&op_code);
        let vy = self.fetch_vy(&op_code);
        match op_code.op {
            0x0 => match op_code.n {
                0x0 => {
                    self.clear_screen();
                },
                0xE => {
                    if !self.ret() {
                        return Err(ExecutionError::StackUnderflow);
                    }
                },
                _ => {
                    return Err(ExecutionError::UnimplementedOpcode(op_code));
                },
            },
            0x1 => {
                self.jump(op_code.nnn);
            },
            0x2 => {
                self.call(op_code.nnn);
            },
            0x3 => {
                self.skip_if(vx == op_code.nn);
            },
            0x4 => {
                self.skip_if(vx != op_code.nn);
            },
            0x5 => {
                self.skip_if(vx == vy);
            },
            0x6 => {
                self.register_vx(&op_code, op_code.nn);
            },
            0x7 => {
                proof {
                    lemma_wrapping_u8(vx, op_code.nn);
                }
                self.register_vx(&op_code, vx.wrapping_add(op_code.nn));
            },
            0x8 => {
                return self.execute_alu(&op_code);
            },
            0x9 => {
                self.skip_if(vx != vy);
            },
            0xA => {
                self.set_index(op_code.nnn);
            },
            0xB => {
                let base = self.register(0);
                self.jump(op_code.nnn + base as u16);
            },
            0xC => {
                self.register_vx(&op_code, op_code.nn & random);
            },
            0xD => {
                self.draw_on_display(&op_code);
            },
            0xE => match op_code.nn {
                0x9E => {
                    let pressed = vx < 16 && self.is_key_down(vx as usize);
                    self.skip_if(pressed);
                },
                0xA1 => {
                    let released = vx < 16 && !self.is_key_down(vx as usize);
                    self.skip_if(released);
                },
                _ => {
                    return Err(ExecutionError::UnimplementedOpcode(op_code));
                },
            },
            0xF => {
                return self.execute_misc(&op_code);
            },
            _ => {
                return Err(ExecutionError::UnimplementedOpcode(op_code));
            },
        }
        Ok(())
    }

    /// Executes `op_code`. `Cxnn` takes its byte from `source`, and no other
    /// instruction takes one; every other instruction has one outcome. An
    /// instruction outside the instruction set, or a return on an empty
    /// stack, is an error and leaves the machine as it was.
    pub fn execute_op_from<R: RandomSource>(&mut self, op_code: OpCode, source: &mut R) -> (result:
        Result<(), ExecutionError>)
        ensures
            exists|random: u8| old(self)@.executes(op_code, random, result, final(self)@),
            op_code.op != 0xC ==> forall|random: u8|
                old(self)@.executes(op_code, random, result, final(self)@),
    {
        let random = if op_code.op == 0xC {
            source.next_byte()
        } else {
            0
        };
        self.execute_op_with(op_code, random)
    }

    /// Executes `op_code`. `Cxnn` takes its byte from the thread-local
    /// random number generator; every other instruction has one outcome. An
    /// instruction outside the instruction set, or a return on an empty
    /// stack, is an error and leaves the machine as it was.
    pub fn execute_op(&mut self, op_code: OpCode) -> (result: Result<(), ExecutionError>)
        ensures
            exists|random: u8| old(self)@.executes(op_code, random, result, final(self)@),
            op_code.op != 0xC ==> forall|random: u8|
                old(self)@.executes(op_code, random, result, final(self)@),
    {
        let mut source = ThreadRandom;
        self.execute_op_from(op_code, &mut source)
    }
}

} // verus!
