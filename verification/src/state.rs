//! The mathematical model of the machine: its state as sequences and
//! integers, and the effect of every instruction as a function on states.

use vstd::prelude::*;
use crate::error::ExecutionError;
use crate::op_code::OpCode;

verus! {

/// Number of addressable bytes.
pub const MEMORY_SIZE: usize = 4096;

/// Address at which programs are loaded and at which execution starts.
pub const PROGRAM_START: u16 = 0x200;

/// Largest program that fits between `PROGRAM_START` and the end of memory.
pub const MAX_ROM_SIZE: usize = 3584;

/// Address of the first byte of the built-in font.
pub const FONT_START: u16 = 0x050;

/// Bytes per font glyph.
pub const GLYPH_SIZE: u16 = 5;

/// Number of framebuffer columns.
pub const DISPLAY_WIDTH: usize = 64;

/// Number of framebuffer rows.
pub const DISPLAY_HEIGHT: usize = 32;

/// The built-in font: sixteen glyphs of five rows each, for the hexadecimal
/// digits `0` to `F`.
pub const FONTS: [u8; 80] = [
    0xF0, 0x90, 0x90, 0x90, 0xF0,
    0x20, 0x60, 0x20, 0x20, 0x70,
    0xF0, 0x10, 0xF0, 0x80, 0xF0,
    0xF0, 0x10, 0xF0, 0x10, 0xF0,
    0x90, 0x90, 0xF0, 0x10, 0x10,
    0xF0, 0x80, 0xF0, 0x10, 0xF0,
    0xF0, 0x80, 0xF0, 0x90, 0xF0,
    0xF0, 0x10, 0x20, 0x40, 0x40,
    0xF0, 0x90, 0xF0, 0x90, 0xF0,
    0xF0, 0x90, 0xF0, 0x10, 0xF0,
    0xF0, 0x90, 0xF0, 0x90, 0x90,
    0xE0, 0x90, 0xE0, 0x90, 0xE0,
    0xF0, 0x80, 0x80, 0x80, 0xF0,
    0xE0, 0x90, 0x90, 0x90, 0xE0,
    0xF0, 0x80, 0xF0, 0x80, 0xF0,
    0xF0, 0x80, 0xF0, 0x80, 0x80,
];

/// `n` reduced to eight bits.
pub open spec fn wrap_u8(n: int) -> u8 {
    (n % 0x100) as u8
}

/// `n` reduced to sixteen bits.
pub open spec fn wrap_u16(n: int) -> u16 {
    (n % 0x1_0000) as u16
}

/// The memory cell that address `n` selects: addresses wrap around at the
/// end of memory.
pub open spec fn wrap_address(n: int) -> int {
    n % 4096
}

/// Bit `column` of a sprite row, counted from the most significant bit.
pub open spec fn sprite_bit(row: u8, column: int) -> bool {
    (row >> ((7 - column) as u8)) & 1 != 0
}

/// The whole state of a machine.
#[verifier::ext_equal]
pub struct MachineState {
    /// The 4096 bytes of memory.
    pub memory: Seq<u8>,
    /// The framebuffer: `display[x][y]` is the pixel in column `x`, row `y`.
    pub display: Seq<Seq<bool>>,
    /// Program counter.
    pub pc: u16,
    /// Index register `I`.
    pub i: u16,
    /// General-purpose registers `V0` to `VF`.
    pub v: Seq<u8>,
    /// Delay timer.
    pub delay_timer: u8,
    /// Sound timer.
    pub sound_timer: u8,
    /// Which of the sixteen keys are held down.
    pub keypad: Seq<bool>,
    /// Return addresses, innermost call last.
    pub stack: Seq<u16>,
}

impl MachineState {
    /// Every component has the size the machine gives it.
    pub open spec fn wf(self) -> bool {
        &&& self.memory.len() == MEMORY_SIZE
        &&& self.display.len() == DISPLAY_WIDTH
        &&& forall|x: int|
            0 <= x < DISPLAY_WIDTH ==> (#[trigger] self.display[x]).len() == DISPLAY_HEIGHT
        &&& self.v.len() == 16
        &&& self.keypad.len() == 16
    }

    /// A framebuffer with every pixel off.
    pub open spec fn blank_display() -> Seq<Seq<bool>> {
        Seq::new(64, |x: int| Seq::new(32, |y: int| false))
    }

    /// The state of a freshly built machine: everything zero, the font in
    /// memory from `FONT_START` on, and the program counter at
    /// `PROGRAM_START`.
    pub open spec fn initial() -> MachineState {
        MachineState {
            memory: Seq::new(
                4096,
                |a: int|
                    if FONT_START <= a < FONT_START + 80 {
                        FONTS@[a - FONT_START]
                    } else {
                        0u8
                    },
            ),
            display: Self::blank_display(),
            pc: PROGRAM_START,
            i: 0,
            v: Seq::new(16, |r: int| 0u8),
            delay_timer: 0,
            sound_timer: 0,
            keypad: Seq::new(16, |k: int| false),
            stack: Seq::empty(),
        }
    }

    /// The state after `rom` has been copied to memory from `PROGRAM_START`
    /// on.
    pub open spec fn with_rom(self, rom: Seq<u8>) -> MachineState {
        MachineState {
            memory: Seq::new(
                4096,
                |a: int|
                    if PROGRAM_START <= a < PROGRAM_START + rom.len() {
                        rom[a - PROGRAM_START]
                    } else {
                        self.memory[a]
                    },
            ),
            ..self
        }
    }

    /// The byte that address `address` selects.
    pub open spec fn byte_at(self, address: int) -> u8 {
        self.memory[wrap_address(address)]
    }

    /// The instruction at the program counter, and the state with the
    /// program counter moved past it.
    pub open spec fn fetch(self) -> (OpCode, MachineState) {
        (
            OpCode::decoded(self.byte_at(self.pc as int), self.byte_at(self.pc + 1)),
            MachineState { pc: wrap_u16(self.pc + 2), ..self },
        )
    }

    /// The state after one timer tick: each timer that is not yet zero goes
    /// down by one.
    pub open spec fn ticked(self) -> MachineState {
        MachineState {
            delay_timer: if self.delay_timer > 0 {
                (self.delay_timer - 1) as u8
            } else {
                0
            },
            sound_timer: if self.sound_timer > 0 {
                (self.sound_timer - 1) as u8
            } else {
                0
            },
            ..self
        }
    }

    /// The state with key `key` held down (`pressed`) or released.
    pub open spec fn with_key(self, key: int, pressed: bool) -> MachineState {
        MachineState { keypad: self.keypad.update(key, pressed), ..self }
    }

    /// The register that the `x` field of `op` selects.
    pub open spec fn vx(self, op: OpCode) -> u8 {
        self.v[op.x as int]
    }

    /// The register that the `y` field of `op` selects.
    pub open spec fn vy(self, op: OpCode) -> u8 {
        self.v[op.y as int]
    }

    /// The state with register `register` set to `value`.
    pub open spec fn set_register(self, register: int, value: u8) -> MachineState {
        MachineState { v: self.v.update(register, value), ..self }
    }

    /// The state with the register that the `x` field of `op` selects set to
    /// `value`.
    pub open spec fn set_vx(self, op: OpCode, value: u8) -> MachineState {
        self.set_register(op.x as int, value)
    }

    /// The state with `VF` set to 1 if `flag` holds and to 0 if not.
    pub open spec fn set_flag(self, flag: bool) -> MachineState {
        self.set_register(
            0xF,
            if flag {
                1
            } else {
                0
            },
        )
    }

    /// The state with the program counter at `target`.
    pub open spec fn jump(self, target: u16) -> MachineState {
        MachineState { pc: target, ..self }
    }

    /// The state with the next instruction skipped if `condition` holds.
    pub open spec fn skip_if(self, condition: bool) -> MachineState {
        if condition {
            self.jump(wrap_u16(self.pc + 2))
        } else {
            self
        }
    }

    /// Key number `key` exists and is held down.
    pub open spec fn key_pressed(self, key: u8) -> bool {
        key < 16 && self.keypad[key as int]
    }

    /// Key number `key` exists and is not held down.
    pub open spec fn key_released(self, key: u8) -> bool {
        key < 16 && !self.keypad[key as int]
    }

    /// `00E0`: every pixel off.
    pub open spec fn clear_screen(self) -> MachineState {
        MachineState { display: Self::blank_display(), ..self }
    }

    /// `2nnn`: the program counter is pushed on the stack and moves to
    /// `target`.
    pub open spec fn call(self, target: u16) -> MachineState {
        MachineState { stack: self.stack.push(self.pc), pc: target, ..self }
    }

    /// `00EE`: the program counter is popped off the stack.
    pub open spec fn ret(self) -> MachineState {
        MachineState { pc: self.stack.last(), stack: self.stack.drop_last(), ..self }
    }

    /// `8xyn`: arithmetic and logic on `Vx` and `Vy`. Both operands are read
    /// before anything is written, the result goes to `Vx`, and the
    /// instructions that set a flag write `VF` last: 1 for a carry out of an
    /// addition, for a subtraction without borrow, and for a shifted-out bit
    /// that was set.
    pub open spec fn alu(self, op: OpCode) -> MachineState {
        let vx = self.vx(op);
        let vy = self.vy(op);
        if op.n == 0x0 {
            self.set_vx(op, vy)
        } else if op.n == 0x1 {
            self.set_vx(op, vx | vy)
        } else if op.n == 0x2 {
            self.set_vx(op, vx & vy)
        } else if op.n == 0x3 {
            self.set_vx(op, vx ^ vy)
        } else if op.n == 0x4 {
            self.set_vx(op, wrap_u8(vx + vy)).set_flag(vx + vy > 255)
        } else if op.n == 0x5 {
            self.set_vx(op, wrap_u8(vx - vy)).set_flag(vx >= vy)
        } else if op.n == 0x6 {
            self.set_vx(op, vx / 2).set_flag(vx % 2 == 1)
        } else if op.n == 0x7 {
            self.set_vx(op, wrap_u8(vy - vx)).set_flag(vy >= vx)
        } else {
            self.set_vx(op, wrap_u8(vx * 2)).set_flag(vx >= 128)
        }
    }

    /// The sprite that `Dxyn` draws has a set bit at pixel `(x, y)`. The
    /// sprite is `n` rows of eight pixels, read from memory at `I`, with its
    /// top left corner at `(Vx mod 64, Vy mod 32)`.
    pub open spec fn sprite_pixel(self, op: OpCode, x: int, y: int) -> bool {
        let column = x - (self.vx(op) % 64);
        let row = y - (self.vy(op) % 32);
        0 <= column < 8 && 0 <= row < op.n && sprite_bit(self.byte_at(self.i + row), column)
    }

    /// The sprite that `Dxyn` draws has a set bit on a pixel of the
    /// framebuffer that is on.
    pub open spec fn collides(self, op: OpCode) -> bool {
        exists|x: int, y: int|
            0 <= x < 64 && 0 <= y < 32 && self.display[x][y] && #[trigger] self.sprite_pixel(
                op,
                x,
                y,
            )
    }

    /// `Dxyn`: every pixel of the framebuffer under a set bit of the sprite
    /// is inverted; what of the sprite lies beyond the right or the bottom
    /// edge is not drawn. `VF` becomes 1 if a pixel went from on to off, and
    /// 0 if none did.
    pub open spec fn draw(self, op: OpCode) -> MachineState {
        MachineState {
            display: Seq::new(
                64,
                |x: int| Seq::new(32, |y: int| self.display[x][y] != self.sprite_pixel(op, x, y)),
            ),
            ..self
        }.set_flag(self.collides(op))
    }

    /// Some key is held down.
    pub open spec fn any_key_pressed(self) -> bool {
        exists|key: int| 0 <= key < 16 && self.keypad[key]
    }

    /// Key `key` is held down and no key with a smaller number is.
    pub open spec fn is_lowest_pressed(self, key: int) -> bool {
        &&& 0 <= key < 16
        &&& self.keypad[key]
        &&& forall|other: int| 0 <= other < key ==> !self.keypad[other]
    }

    /// The smallest number of a key that is held down, if there is one.
    pub open spec fn lowest_pressed(self) -> int {
        choose|key: int| self.is_lowest_pressed(key)
    }

    /// `Fx0A`: while no key is held down the program counter goes back to
    /// this instruction; as soon as one is, `Vx` receives the smallest number
    /// of a key held down.
    pub open spec fn wait_key(self, op: OpCode) -> MachineState {
        if self.any_key_pressed() {
            self.set_vx(op, self.lowest_pressed() as u8)
        } else {
            self.jump(wrap_u16(self.pc - 2))
        }
    }

    /// `Fx33`: the hundreds, tens and ones of `Vx` are written to the three
    /// bytes at `I`.
    pub open spec fn store_bcd(self, op: OpCode) -> MachineState {
        let value = self.vx(op);
        MachineState {
            memory: self.memory.update(wrap_address(self.i as int), value / 100).update(
                wrap_address(self.i + 1),
                (value / 10) % 10,
            ).update(wrap_address(self.i + 2), value % 10),
            ..self
        }
    }

    /// The state with the first `count` registers written to memory at `I`.
    pub open spec fn store_first_registers(self, count: int) -> MachineState {
        MachineState {
            memory: Seq::new(
                4096,
                |a: int|
                    {
                        let register = wrap_address(a - self.i);
                        if register < count {
                            self.v[register]
                        } else {
                            self.memory[a]
                        }
                    },
            ),
            ..self
        }
    }

    /// The state with the first `count` registers read from memory at `I`.
    pub open spec fn load_first_registers(self, count: int) -> MachineState {
        MachineState {
            v: Seq::new(
                16,
                |register: int|
                    if register < count {
                        self.byte_at(self.i + register)
                    } else {
                        self.v[register]
                    },
            ),
            ..self
        }
    }

    /// `Fx55`: the registers `V0` to `Vx` are written to memory at `I`.
    pub open spec fn store_registers(self, op: OpCode) -> MachineState {
        self.store_first_registers(op.x + 1)
    }

    /// `Fx65`: the registers `V0` to `Vx` are read from memory at `I`.
    pub open spec fn load_registers(self, op: OpCode) -> MachineState {
        self.load_first_registers(op.x + 1)
    }

    /// The instructions of family `F`: timers, the index register, waiting
    /// for a key, and transfers between registers and memory.
    pub open spec fn misc(self, op: OpCode) -> MachineState {
        let vx = self.vx(op);
        if op.nn == 0x07 {
            self.set_vx(op, self.delay_timer)
        } else if op.nn == 0x0A {
            self.wait_key(op)
        } else if op.nn == 0x15 {
            MachineState { delay_timer: vx, ..self }
        } else if op.nn == 0x18 {
            MachineState { sound_timer: vx, ..self }
        } else if op.nn == 0x1E {
            MachineState { i: wrap_u16(self.i + vx), ..self }
        } else if op.nn == 0x29 {
            MachineState { i: (FONT_START + GLYPH_SIZE * vx) as u16, ..self }
        } else if op.nn == 0x33 {
            self.store_bcd(op)
        } else if op.nn == 0x55 {
            self.store_registers(op)
        } else {
            self.load_registers(op)
        }
    }

    /// The state after an instruction of the instruction set that can be
    /// executed in this state. `random` is the byte that `Cxnn` draws.
    pub open spec fn apply(self, op: OpCode, random: u8) -> MachineState {
        let vx = self.vx(op);
        let vy = self.vy(op);
        if op.op == 0x0 {
            if op.n == 0x0 {
                self.clear_screen()
            } else {
                self.ret()
            }
        } else if op.op == 0x1 {
            self.jump(op.nnn)
        } else if op.op == 0x2 {
            self.call(op.nnn)
        } else if op.op == 0x3 {
            self.skip_if(vx == op.nn)
        } else if op.op == 0x4 {
            self.skip_if(vx != op.nn)
        } else if op.op == 0x5 {
            self.skip_if(vx == vy)
        } else if op.op == 0x6 {
            self.set_vx(op, op.nn)
        } else if op.op == 0x7 {
            self.set_vx(op, wrap_u8(vx + op.nn))
        } else if op.op == 0x8 {
            self.alu(op)
        } else if op.op == 0x9 {
            self.skip_if(vx != vy)
        } else if op.op == 0xA {
            MachineState { i: op.nnn, ..self }
        } else if op.op == 0xB {
            self.jump((op.nnn + self.v[0]) as u16)
        } else if op.op == 0xC {
            self.set_vx(op, op.nn & random)
        } else if op.op == 0xD {
            self.draw(op)
        } else if op.op == 0xE {
            if op.nn == 0x9E {
                self.skip_if(self.key_pressed(vx))
            } else {
                self.skip_if(self.key_released(vx))
            }
        } else {
            self.misc(op)
        }
    }

    /// One instruction: the state after it, or the reason why it cannot be
    /// executed. `random` is the byte that `Cxnn` draws.
    pub open spec fn step(self, op: OpCode, random: u8) -> Result<MachineState, ExecutionError> {
        if !op.implemented() {
            Err(ExecutionError::UnimplementedOpcode(op))
        } else if op.op == 0x0 && op.n == 0xE && self.stack.len() == 0 {
            Err(ExecutionError::StackUnderflow)
        } else {
            Ok(self.apply(op, random))
        }
    }

    /// One fetch/execute cycle: the instruction at the program counter is
    /// fetched and executed.
    pub open spec fn cycle(self, random: u8) -> Result<MachineState, ExecutionError> {
        let (op, fetched) = self.fetch();
        fetched.step(op, random)
    }

    /// As many cycles as `randoms` has bytes, the cycle at position `k`
    /// with `randoms[k]` as its random byte, up to the first error.
    pub open spec fn cycles(self, randoms: Seq<u8>) -> Result<MachineState, ExecutionError>
        decreases randoms.len(),
    {
        if randoms.len() == 0 {
            Ok(self)
        } else {
            match self.cycle(randoms[0]) {
                Ok(next) => next.cycles(randoms.drop_first()),
                Err(error) => Err(error),
            }
        }
    }

    /// An execution of `op` with random byte `random` that started in this
    /// state has returned `result` and left the machine in state `after`: on
    /// success `after` is the next state, on failure the machine is
    /// unchanged.
    pub open spec fn executes(
        self,
        op: OpCode,
        random: u8,
        result: Result<(), ExecutionError>,
        after: MachineState,
    ) -> bool {
        match self.step(op, random) {
            Ok(next) => result is Ok && after == next,
            Err(error) => result == Err::<(), ExecutionError>(error) && after == self,
        }
    }
}

} // verus!
