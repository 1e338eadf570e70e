//! The executable machine.

use vstd::prelude::*;
use crate::error::RomTooLarge;
use crate::op_code::OpCode;
use crate::state::{
    wrap_address, wrap_u16, MachineState, FONTS, FONT_START, MAX_ROM_SIZE, PROGRAM_START,
};

verus! {

/// The framebuffer `grid` as a sequence of columns.
pub open spec fn grid_view(grid: [[bool; 32]; 64]) -> Seq<Seq<bool>> {
    Seq::new(64, |x: int| grid@[x]@)
}

/// A CHIP-8 machine.
pub struct Machine {
    memory: [u8; 4096],
    display: [[bool; 32]; 64],
    pc: u16,
    i: u16,
    v: [u8; 16],
    delay_timer: u8,
    sound_timer: u8,
    keypad: [bool; 16],
    stack: Vec<u16>,
}

impl View for Machine {
    type V = MachineState;

    closed spec fn view(&self) -> MachineState {
        MachineState {
            memory: self.memory@,
            display: grid_view(self.display),
            pc: self.pc,
            i: self.i,
            v: self.v@,
            delay_timer: self.delay_timer,
            sound_timer: self.sound_timer,
            keypad: self.keypad@,
            stack: self.stack@,
        }
    }
}

impl Machine {
    /// The state of every machine is well formed.
    pub proof fn lemma_view_wf(&self)
        ensures
            self@.wf(),
    {
    }

    /// A machine in its initial state.
    pub fn new() -> (machine: Self)
        ensures
            machine@ == MachineState::initial(),
    {
        let mut memory = [0u8; 4096];
        let mut n: usize = 0;
        while n < 80
            invariant
                n <= 80,
                forall|a: int|
                    0 <= a < 4096 ==> memory@[a] == if FONT_START <= a < FONT_START + n {
                        FONTS@[a - FONT_START]
                    } else {
                        0u8
                    },
            decreases 80 - n,
        {
            memory[FONT_START as usize + n] = FONTS[n];
            n += 1;
        }
        let machine = Self {
            memory,
            display: [[false; 32]; 64],
            pc: PROGRAM_START,
            i: 0,
            v: [0; 16],
            delay_timer: 0,
            sound_timer: 0,
            keypad: [false; 16],
            stack: Vec::new(),
        };
        assert(machine@ =~~= MachineState::initial());
        machine
    }

    /// Copies `data` into memory from `PROGRAM_START` on. A program of more
    /// than `MAX_ROM_SIZE` bytes is rejected and leaves the machine as it
    /// was.
    pub fn load_rom(&mut self, data: Vec<u8>) -> (result: Result<(), RomTooLarge>)
        ensures
            data.len() <= MAX_ROM_SIZE ==> result is Ok && final(self)@ == old(self)@.with_rom(
                data@,
            ),
            data.len() > MAX_ROM_SIZE ==> result == Err::<(), RomTooLarge>(
                RomTooLarge { size: data.len() },
            ) && final(self)@ == old(self)@,
    {
        if data.len() > MAX_ROM_SIZE {
            return Err(RomTooLarge { size: data.len() });
        }
        let mut i: usize = 0;
        while i < data.len()
            invariant
                i <= data.len() <= MAX_ROM_SIZE,
                self@ == old(self)@.with_rom(data@.take(i as int)),
            decreases data.len() - i,
        {
            self.memory[PROGRAM_START as usize + i] = data[i];
            i += 1;
            assert(self@ =~~= old(self)@.with_rom(data@.take(i as int)));
        }
        assert(data@.take(data.len() as int) =~= data@);
        Ok(())
    }

    /// Reads the instruction at the program counter and moves the program
    /// counter past it.
    pub fn decode_op(&mut self) -> (op_code: OpCode)
        ensures
            (op_code, final(self)@) == old(self)@.fetch(),
            op_code.wf(),
    {
        let first = self.memory[(self.pc % 4096) as usize];
        let second = self.memory[(self.pc.wrapping_add(1) % 4096) as usize];
        let op_code = OpCode::from_bytes(first, second);
        self.pc = self.pc.wrapping_add(2);
        op_code
    }

    /// The framebuffer, indexed by column and then by row.
    pub fn read_display(&self) -> (display: &[[bool; 32]; 64])
        ensures
            grid_view(*display) == self@.display,
    {
        &self.display
    }

    /// The program counter.
    pub fn program_counter(&self) -> (pc: u16)
        ensures
            pc == self@.pc,
    {
        self.pc
    }

    /// The index register `I`.
    pub fn index(&self) -> (i: u16)
        ensures
            i == self@.i,
    {
        self.i
    }

    /// Register `V0` to `VF`, by its number.
    pub fn register(&self, register: usize) -> (value: u8)
        requires
            register < 16,
        ensures
            value == self@.v[register as int],
    {
        self.v[register]
    }

    /// The byte that `address` selects; addresses wrap around at the end of
    /// memory.
    pub fn memory_at(&self, address: u16) -> (value: u8)
        ensures
            value == self@.byte_at(address as int),
    {
        self.memory[(address % 4096) as usize]
    }

    /// The delay timer.
    pub fn delay_timer(&self) -> (value: u8)
        ensures
            value == self@.delay_timer,
    {
        self.delay_timer
    }

    /// The sound timer.
    pub fn sound_timer(&self) -> (value: u8)
        ensures
            value == self@.sound_timer,
    {
        self.sound_timer
    }

    /// Whether key `key` is held down.
    pub fn is_key_down(&self, key: usize) -> (down: bool)
        requires
            key < 16,
        ensures
            down == self@.keypad[key as int],
    {
        self.keypad[key]
    }

    /// The return addresses on the call stack, innermost call last.
    pub fn call_stack(&self) -> (stack: &Vec<u16>)
        ensures
            stack@ == self@.stack,
    {
        &self.stack
    }

    /// Counts both timers down by one, stopping at zero.
    pub fn tick(&mut self)
        ensures
            final(self)@ == old(self)@.ticked(),
    {
        if self.delay_timer > 0 {
            self.delay_timer -= 1;
        }
        if self.sound_timer > 0 {
            self.sound_timer -= 1;
        }
    }

    /// Records that key `key` is held down.
    pub fn keydown(&mut self, key: usize)
        requires
            key < 16,
        ensures
            final(self)@ == old(self)@.with_key(key as int, true),
    {
        self.keypad[key] = true;
    }

    /// Records that key `key` has been released.
    pub fn keyup(&mut self, key: usize)
        requires
            key < 16,
        ensures
            final(self)@ == old(self)@.with_key(key as int, false),
    {
        self.keypad[key] = false;
    }

    /// Sets the register that the `x` field of `op_code` selects.
    pub fn register_vx(&mut self, op_code: &OpCode, value: u8)
        requires
            op_code.x < 16,
        ensures
            final(self)@ == old(self)@.set_vx(*op_code, value),
    {
        self.set_register(op_code.x as usize, value);
    }

    /// The register that the `x` field of `op_code` selects.
    pub fn fetch_vx(&self, op_code: &OpCode) -> (value: u8)
        requires
            op_code.x < 16,
        ensures
            value == self@.vx(*op_code),
    {
        self.v[op_code.x as usize]
    }

    /// The register that the `y` field of `op_code` selects.
    pub fn fetch_vy(&self, op_code: &OpCode) -> (value: u8)
        requires
            op_code.y < 16,
        ensures
            value == self@.vy(*op_code),
    {
        self.v[op_code.y as usize]
    }

    /// The hundreds, tens and ones of `n`, in this order.
    pub fn digits_from_number(&self, n: u8) -> (digits: Vec<u8>)
        ensures
            digits@ == seq![n / 100, (n / 10) % 10, n % 10],
            100 * digits@[0] + 10 * digits@[1] + digits@[2] == n,
    {
        let third = n % 10;
        let second = (n % 100) / 10;
        let first = n / 100;
        let mut digits = Vec::new();
        digits.push(first);
        digits.push(second);
        digits.push(third);
        assert(digits@ =~= seq![n / 100, (n / 10) % 10, n % 10]);
        digits
    }

    /// Sets register `register`.
    pub(crate) fn set_register(&mut self, register: usize, value: u8)
        requires
            register < 16,
        ensures
            final(self)@ == old(self)@.set_register(register as int, value),
    {
        self.v[register] = value;
    }

    /// Sets `VF` to 1 if `flag` holds and to 0 if not.
    pub(crate) fn set_flag(&mut self, flag: bool)
        ensures
            final(self)@ == old(self)@.set_flag(flag),
    {
        self.v[0xF] = if flag {
            1
        } else {
            0
        };
    }

    /// Moves the program counter to `target`.
    pub(crate) fn jump(&mut self, target: u16)
        ensures
            final(self)@ == old(self)@.jump(target),
    {
        self.pc = target;
    }

    /// Moves the program counter past the next instruction if `condition`
    /// holds.
    pub(crate) fn skip_if(&mut self, condition: bool)
        ensures
            final(self)@ == old(self)@.skip_if(condition),
    {
        if condition {
            self.pc = self.pc.wrapping_add(2);
        }
    }

    /// Moves the program counter back to the instruction just fetched.
    pub(crate) fn rewind(&mut self)
        ensures
            final(self)@ == old(self)@.jump(wrap_u16(old(self)@.pc - 2)),
    {
        self.pc = self.pc.wrapping_sub(2);
    }

    /// Pushes the program counter and moves it to `target`.
    pub(crate) fn call(&mut self, target: u16)
        ensures
            final(self)@ == old(self)@.call(target),
    {
        self.stack.push(self.pc);
        self.pc = target;
    }

    /// Pops the program counter, if the stack holds a return address, and
    /// says whether it did.
    pub(crate) fn ret(&mut self) -> (returned: bool)
        ensures
            returned == (old(self)@.stack.len() > 0),
            returned ==> final(self)@ == old(self)@.ret(),
            !returned ==> final(self)@ == old(self)@,
    {
        match self.stack.pop() {
            Some(address) => {
                self.pc = address;
                true
            },
            None => false,
        }
    }

    /// Sets the index register.
    pub(crate) fn set_index(&mut self, value: u16)
        ensures
            final(self)@ == (MachineState { i: value, ..old(self)@ }),
    {
        self.i = value;
    }

    /// Sets the delay timer.
    pub(crate) fn set_delay_timer(&mut self, value: u8)
        ensures
            final(self)@ == (MachineState { delay_timer: value, ..old(self)@ }),
    {
        self.delay_timer = value;
    }

    /// Sets the sound timer.
    pub(crate) fn set_sound_timer(&mut self, value: u8)
        ensures
            final(self)@ == (MachineState { sound_timer: value, ..old(self)@ }),
    {
        self.sound_timer = value;
    }

    /// Writes `value` to the byte that `address + offset` selects.
    pub(crate) fn write_memory(&mut self, address: u16, offset: u16, value: u8)
        requires
            offset < 4096,
        ensures
            final(self)@ == (MachineState {
                memory: old(self)@.memory.update(wrap_address(address + offset), value),
                ..old(self)@
            }),
    {
        self.memory[(address as usize + offset as usize) % 4096] = value;
    }

    /// The byte that `address + offset` selects.
    pub(crate) fn read_memory(&self, address: u16, offset: u16) -> (value: u8)
        requires
            offset < 4096,
        ensures
            value == self@.byte_at(address + offset),
    {
        self.memory[(address as usize + offset as usize) % 4096]
    }

    /// Turns every pixel off.
    pub(crate) fn clear_screen(&mut self)
        ensures
            final(self)@ == old(self)@.clear_screen(),
    {
        self.display = [[false; 32]; 64];
        assert(self@.display =~~= MachineState::blank_display());
    }

    /// Inverts pixel `(x, y)` if `bit` is set, and says whether the pixel was
    /// on before.
    pub(crate) fn xor_pixel(&mut self, x: usize, y: usize, bit: bool) -> (was_on: bool)
        requires
            x < 64,
            y < 32,
        ensures
            was_on == old(self)@.display[x as int][y as int],
            final(self)@ == (MachineState {
                display: old(self)@.display.update(
                    x as int,
                    old(self)@.display[x as int].update(y as int, was_on != bit),
                ),
                ..old(self)@
            }),
    {
        let was_on = self.display[x][y];
        self.display[x][y] = was_on ^ bit;
        assert(self@.display =~~= old(self)@.display.update(
            x as int,
            old(self)@.display[x as int].update(y as int, was_on != bit),
        ));
        was_on
    }
}

} // verus!
