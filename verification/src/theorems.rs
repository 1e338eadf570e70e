//! What the instruction set guarantees, proved from the definition of the
//! instructions in [`crate::state`].

use vstd::arithmetic::power2::{lemma2_to64, pow2};
use vstd::prelude::*;
use crate::error::ExecutionError;
use crate::op_code::OpCode;
use crate::state::{sprite_bit, wrap_address, wrap_u16, wrap_u8, MachineState, MEMORY_SIZE};

verus! {

/// Every decoded instruction is well formed.
pub proof fn decoded_is_wf(f_byte: u8, s_byte: u8)
    ensures
        OpCode::decoded(f_byte, s_byte).wf(),
        OpCode::decoded(f_byte, s_byte).word() == f_byte * 256 + s_byte,
{
}

/// Every address selects a byte of memory.
pub proof fn addresses_stay_in_memory(address: int)
    ensures
        0 <= wrap_address(address) < MEMORY_SIZE,
        0 <= address < MEMORY_SIZE ==> wrap_address(address) == address,
{
}

/// An instruction fails in exactly two cases: it is not part of the
/// instruction set, or it is a return and the stack is empty.
pub proof fn step_fails_in_two_cases(m: MachineState, op: OpCode, random: u8)
    ensures
        m.step(op, random) is Err <==> !op.implemented() || (op.op == 0x0 && op.n == 0xE
            && m.stack.len() == 0),
        m.step(op, random) == Err::<MachineState, ExecutionError>(
            ExecutionError::UnimplementedOpcode(op),
        ) <==> !op.implemented(),
        m.step(op, random) == Err::<MachineState, ExecutionError>(ExecutionError::StackUnderflow)
            <==> op.implemented() && op.op == 0x0 && op.n == 0xE && m.stack.len() == 0,
{
}

/// An instruction leaves every component of the machine at its size.
pub proof fn step_preserves_wf(m: MachineState, op: OpCode, random: u8)
    requires
        m.wf(),
        op.wf(),
    ensures
        m.step(op, random) matches Ok(next) ==> next.wf(),
        m.fetch().1.wf(),
        m.ticked().wf(),
{
    if op.op == 0x8 {
        assert(m.alu(op).wf());
    } else if op.op == 0xD {
        assert(m.draw(op).wf());
    } else if op.op == 0xF {
        assert(m.misc(op).wf());
    } else if op.op == 0x0 {
        assert(m.clear_screen().wf());
        assert(m.ret().wf());
    }
}

/// Only `Cxnn` depends on the random byte.
pub proof fn step_ignores_random(m: MachineState, op: OpCode, first: u8, second: u8)
    requires
        op.op != 0xC,
    ensures
        m.step(op, first) == m.step(op, second),
{
}

/// `Cxnn` leaves in `Vx` no bit that is not set in `nn`.
pub proof fn random_is_masked(m: MachineState, op: OpCode, random: u8)
    requires
        m.wf(),
        op.wf(),
        op.op == 0xC,
    ensures
        m.step(op, random) matches Ok(next) && next.vx(op) & op.nn == next.vx(op),
{
    let nn = op.nn;
    assert((nn & random) & nn == nn & random) by (bit_vector);
}

/// After `6xnn`, `Vx` holds `nn`, and no other register has changed.
pub proof fn load_immediate_reads_back(m: MachineState, op: OpCode, random: u8)
    requires
        m.wf(),
        op.wf(),
        op.op == 0x6,
    ensures
        m.step(op, random) matches Ok(next) && {
            &&& next.vx(op) == op.nn
            &&& forall|r: int| 0 <= r < 16 && r != op.x ==> next.v[r] == m.v[r]
        },
{
    assert(m.step(op, random) == Ok::<MachineState, ExecutionError>(m.set_vx(op, op.nn)));
}

/// Two `7xnn` in a row on one register add both immediates to it modulo
/// 256. No other register changes: the instruction sets no carry flag.
pub proof fn add_immediate_accumulates(
    m: MachineState,
    first: OpCode,
    second: OpCode,
    random: u8,
)
    requires
        m.wf(),
        first.wf(),
        second.wf(),
        first.op == 0x7,
        second.op == 0x7,
        first.x == second.x,
    ensures
        m.step(first, random) matches Ok(middle) && middle.step(second, random) matches Ok(last)
            && {
            &&& last.vx(first) == wrap_u8(m.vx(first) + first.nn + second.nn)
            &&& forall|r: int| 0 <= r < 16 && r != first.x ==> last.v[r] == m.v[r]
        },
{
    let middle = m.set_vx(first, wrap_u8(m.vx(first) + first.nn));
    let last = middle.set_vx(second, wrap_u8(middle.vx(second) + second.nn));
    assert(m.step(first, random) == Ok::<MachineState, ExecutionError>(middle));
    assert(middle.step(second, random) == Ok::<MachineState, ExecutionError>(last));
    wrap_u8_absorbs(m.vx(first) + first.nn, second.nn as int);
}

/// Reducing a sum to eight bits gives the same whether or not one of its
/// terms was reduced before.
proof fn wrap_u8_absorbs(a: int, b: int)
    ensures
        wrap_u8(wrap_u8(a) + b) == wrap_u8(a + b),
{
}

/// `8xy4` leaves 1 in `VF` if the sum of `Vx` and `Vy` exceeds 255 and 0 if
/// it does not; unless `x` is `F`, `Vx` holds the sum modulo 256.
pub proof fn add_sets_carry(m: MachineState, op: OpCode, random: u8)
    requires
        m.wf(),
        op.wf(),
        op.op == 0x8,
        op.n == 0x4,
    ensures
        m.step(op, random) matches Ok(next) && {
            &&& next.v[0xF] == 1 <==> m.vx(op) + m.vy(op) > 255
            &&& next.v[0xF] == 0 <==> m.vx(op) + m.vy(op) <= 255
            &&& op.x != 0xF ==> next.vx(op) == wrap_u8(m.vx(op) + m.vy(op))
        },
{
    let sum = m.vx(op) + m.vy(op);
    let next = m.set_vx(op, wrap_u8(sum)).set_flag(sum > 255);
    assert(m.alu(op) == next);
    assert(m.step(op, random) == Ok::<MachineState, ExecutionError>(next));
}

/// `8xy5` leaves 1 in `VF` if `Vx` was at least `Vy`, so that nothing was
/// borrowed, and 0 if it was smaller; unless `x` is `F`, `Vx` holds the
/// difference modulo 256.
pub proof fn subtract_sets_no_borrow(m: MachineState, op: OpCode, random: u8)
    requires
        m.wf(),
        op.wf(),
        op.op == 0x8,
        op.n == 0x5,
    ensures
        m.step(op, random) matches Ok(next) && {
            &&& next.v[0xF] == 1 <==> m.vx(op) >= m.vy(op)
            &&& next.v[0xF] == 0 <==> m.vx(op) < m.vy(op)
            &&& op.x != 0xF ==> next.vx(op) == wrap_u8(m.vx(op) - m.vy(op))
        },
{
    let next = m.set_vx(op, wrap_u8(m.vx(op) - m.vy(op))).set_flag(m.vx(op) >= m.vy(op));
    assert(m.alu(op) == next);
    assert(m.step(op, random) == Ok::<MachineState, ExecutionError>(next));
}

/// `8xy7` leaves 1 in `VF` if `Vy` was at least `Vx` and 0 if it was
/// smaller; unless `x` is `F`, `Vx` holds `Vy - Vx` modulo 256.
pub proof fn reverse_subtract_sets_no_borrow(m: MachineState, op: OpCode, random: u8)
    requires
        m.wf(),
        op.wf(),
        op.op == 0x8,
        op.n == 0x7,
    ensures
        m.step(op, random) matches Ok(next) && {
            &&& next.v[0xF] == 1 <==> m.vy(op) >= m.vx(op)
            &&& next.v[0xF] == 0 <==> m.vy(op) < m.vx(op)
            &&& op.x != 0xF ==> next.vx(op) == wrap_u8(m.vy(op) - m.vx(op))
        },
{
    let next = m.set_vx(op, wrap_u8(m.vy(op) - m.vx(op))).set_flag(m.vy(op) >= m.vx(op));
    assert(m.alu(op) == next);
    assert(m.step(op, random) == Ok::<MachineState, ExecutionError>(next));
}

/// The bits of a sprite row are its binary digits, the leftmost pixel
/// being the digit of weight 128.
pub proof fn sprite_bit_is_binary_digit(row: u8, column: int)
    requires
        0 <= column < 8,
    ensures
        sprite_bit(row, column) == ((row as int / pow2((7 - column) as nat) as int) % 2 == 1),
{
    lemma2_to64();
    if column == 0 {
        assert(((row >> 7u8) & 1 != 0) == ((row / 128) % 2 == 1)) by (bit_vector);
    } else if column == 1 {
        assert(((row >> 6u8) & 1 != 0) == ((row / 64) % 2 == 1)) by (bit_vector);
    } else if column == 2 {
        assert(((row >> 5u8) & 1 != 0) == ((row / 32) % 2 == 1)) by (bit_vector);
    } else if column == 3 {
        assert(((row >> 4u8) & 1 != 0) == ((row / 16) % 2 == 1)) by (bit_vector);
    } else if column == 4 {
        assert(((row >> 3u8) & 1 != 0) == ((row / 8) % 2 == 1)) by (bit_vector);
    } else if column == 5 {
        assert(((row >> 2u8) & 1 != 0) == ((row / 4) % 2 == 1)) by (bit_vector);
    } else if column == 6 {
        assert(((row >> 1u8) & 1 != 0) == ((row / 2) % 2 == 1)) by (bit_vector);
    } else {
        assert(((row >> 0u8) & 1 != 0) == ((row / 1) % 2 == 1)) by (bit_vector);
    }
}

/// `00E0` leaves every pixel off, whatever was drawn before it: clearing,
/// drawing and clearing again ends with a blank framebuffer.
pub proof fn clear_after_draw_is_blank(
    m: MachineState,
    clear: OpCode,
    draw: OpCode,
    random: u8,
)
    requires
        m.wf(),
        clear.wf(),
        draw.wf(),
        clear.op == 0x0,
        clear.n == 0x0,
        draw.op == 0xD,
    ensures
        m.step(clear, random) matches Ok(cleared) && cleared.step(draw, random) matches Ok(drawn)
            && drawn.step(clear, random) matches Ok(last) && {
            &&& last.display == MachineState::blank_display()
            &&& forall|x: int, y: int| 0 <= x < 64 && 0 <= y < 32 ==> !last.display[x][y]
        },
{
    let cleared = m.clear_screen();
    let drawn = cleared.draw(draw);
    let last = drawn.clear_screen();
    assert(m.step(clear, random) == Ok::<MachineState, ExecutionError>(cleared));
    assert(cleared.step(draw, random) == Ok::<MachineState, ExecutionError>(drawn));
    assert(drawn.step(clear, random) == Ok::<MachineState, ExecutionError>(last));
}

/// `Dxyn` changes no pixel outside the eight columns and `n` rows that
/// start at `(Vx mod 64, Vy mod 32)`: a sprite that reaches beyond the right
/// or the bottom edge does not come back in at the left or at the top.
pub proof fn draw_does_not_wrap(m: MachineState, op: OpCode, random: u8, x: int, y: int)
    requires
        m.wf(),
        op.wf(),
        op.op == 0xD,
        0 <= x < 64,
        0 <= y < 32,
        x < m.vx(op) % 64 || x >= m.vx(op) % 64 + 8 || y < m.vy(op) % 32 || y >= m.vy(op) % 32
            + op.n,
    ensures
        m.step(op, random) matches Ok(next) && next.display[x][y] == m.display[x][y],
{
    assert(m.step(op, random) == Ok::<MachineState, ExecutionError>(m.draw(op)));
    assert(!m.sprite_pixel(op, x, y));
}

/// Drawing on a blank framebuffer turns on the pixels under the set bits of
/// the sprite and no others, and leaves 0 in `VF`.
pub proof fn draw_on_blank(m: MachineState, op: OpCode, random: u8)
    requires
        m.wf(),
        op.wf(),
        op.op == 0xD,
        m.display == MachineState::blank_display(),
    ensures
        m.step(op, random) matches Ok(next) && {
            &&& next.v[0xF] == 0
            &&& forall|x: int, y: int|
                0 <= x < 64 && 0 <= y < 32 ==> next.display[x][y] == m.sprite_pixel(op, x, y)
        },
{
    assert(m.step(op, random) == Ok::<MachineState, ExecutionError>(m.draw(op)));
    assert(!m.collides(op));
}

/// Drawing one sprite twice at one place gives back the framebuffer as it
/// was. The second draw leaves 1 in `VF` if the sprite has a set bit on a
/// pixel that was off at first, and 0 if it has none.
///
/// The place is the same at the second draw whenever neither `x` nor `y` is
/// `F`; with `F` the first draw may move it by writing `VF`.
pub proof fn draw_twice_restores(m: MachineState, op: OpCode, random: u8)
    requires
        m.wf(),
        op.wf(),
        op.op == 0xD,
        m.draw(op).vx(op) % 64 == m.vx(op) % 64,
        m.draw(op).vy(op) % 32 == m.vy(op) % 32,
    ensures
        m.step(op, random) matches Ok(once) && once.step(op, random) matches Ok(twice) && {
            &&& twice.display == m.display
            &&& twice.v[0xF] == 1 <==> exists|x: int, y: int|
                0 <= x < 64 && 0 <= y < 32 && !m.display[x][y] && #[trigger] m.sprite_pixel(
                    op,
                    x,
                    y,
                )
            &&& twice.v[0xF] == 0 || twice.v[0xF] == 1
        },
{
    let once = m.draw(op);
    let twice = once.draw(op);
    assert(m.step(op, random) == Ok::<MachineState, ExecutionError>(once));
    assert(once.step(op, random) == Ok::<MachineState, ExecutionError>(twice));
    assert forall|x: int, y: int| 0 <= x < 64 && 0 <= y < 32 implies once.sprite_pixel(op, x, y)
        == m.sprite_pixel(op, x, y) by {}
    assert(twice.display =~~= m.display);
    let lit = exists|x: int, y: int|
        0 <= x < 64 && 0 <= y < 32 && !m.display[x][y] && #[trigger] m.sprite_pixel(op, x, y);
    if once.collides(op) {
        let (cx, cy) = choose|cx: int, cy: int|
            0 <= cx < 64 && 0 <= cy < 32 && once.display[cx][cy] && #[trigger] once.sprite_pixel(
                op,
                cx,
                cy,
            );
        assert(m.sprite_pixel(op, cx, cy));
        assert(lit);
    }
    if lit {
        let (cx, cy) = choose|cx: int, cy: int|
            0 <= cx < 64 && 0 <= cy < 32 && !m.display[cx][cy] && #[trigger] m.sprite_pixel(
                op,
                cx,
                cy,
            );
        assert(once.sprite_pixel(op, cx, cy));
        assert(once.collides(op));
    }
}

/// `2nnn` followed by `00EE` gives back the machine as it was before the
/// call: the program counter is again at the instruction after the call,
/// and the stack is as deep as before.
pub proof fn call_then_return(m: MachineState, call: OpCode, ret: OpCode, random: u8)
    requires
        m.wf(),
        call.wf(),
        ret.wf(),
        call.op == 0x2,
        ret.op == 0x0,
        ret.n == 0xE,
    ensures
        m.step(call, random) matches Ok(called) && called.step(ret, random) matches Ok(returned)
            && {
            &&& called.pc == call.nnn
            &&& called.stack == m.stack.push(m.pc)
            &&& returned == m
        },
{
    let called = m.call(call.nnn);
    assert(m.step(call, random) == Ok::<MachineState, ExecutionError>(called));
    assert(called.stack.drop_last() =~= m.stack);
    assert(called.ret() == m);
    assert(called.step(ret, random) == Ok::<MachineState, ExecutionError>(called.ret()));
}

/// A call that is fetched from memory and then executed returns to the
/// instruction that follows it in memory.
pub proof fn fetched_call_returns_behind_it(m: MachineState, ret: OpCode, random: u8)
    requires
        m.wf(),
        ret.wf(),
        m.fetch().0.op == 0x2,
        ret.op == 0x0,
        ret.n == 0xE,
    ensures
        m.cycle(random) matches Ok(called) && called.step(ret, random) matches Ok(returned) && {
            &&& called.pc == m.fetch().0.nnn
            &&& returned.pc == wrap_u16(m.pc + 2)
            &&& returned.stack == m.stack
        },
{
    let (call, fetched) = m.fetch();
    call_then_return(fetched, call, ret, random);
}

/// Where a key is held down, one of them is the lowest.
pub proof fn lowest_pressed_exists(m: MachineState)
    requires
        m.wf(),
        m.any_key_pressed(),
    ensures
        m.is_lowest_pressed(m.lowest_pressed()),
{
    let key = choose|key: int| 0 <= key < 16 && m.keypad[key];
    lowest_pressed_below(m, key);
}

proof fn lowest_pressed_below(m: MachineState, key: int)
    requires
        0 <= key < 16,
        m.keypad[key],
    ensures
        exists|lowest: int| m.is_lowest_pressed(lowest),
    decreases key,
{
    if exists|other: int| 0 <= other < key && m.keypad[other] {
        let other = choose|other: int| 0 <= other < key && m.keypad[other];
        lowest_pressed_below(m, other);
    } else {
        assert(m.is_lowest_pressed(key));
    }
}

/// While no key is held down, a cycle that fetches `Fx0A` changes nothing:
/// the program counter is back at the instruction, which is fetched again
/// in the next cycle.
pub proof fn wait_key_blocks(m: MachineState, random: u8)
    requires
        m.wf(),
        m.fetch().0.op == 0xF,
        m.fetch().0.nn == 0x0A,
        !m.any_key_pressed(),
    ensures
        m.cycle(random) == Ok::<MachineState, ExecutionError>(m),
{
    let (op, fetched) = m.fetch();
    decoded_is_wf(m.byte_at(m.pc as int), m.byte_at(m.pc + 1));
    assert(fetched.wait_key(op) =~= m);
}

/// While no key is held down, any number of cycles that start at an `Fx0A`
/// change nothing.
pub proof fn wait_key_blocks_repeatedly(m: MachineState, randoms: Seq<u8>)
    requires
        m.wf(),
        m.fetch().0.op == 0xF,
        m.fetch().0.nn == 0x0A,
        !m.any_key_pressed(),
    ensures
        m.cycles(randoms) == Ok::<MachineState, ExecutionError>(m),
    decreases randoms.len(),
{
    if randoms.len() > 0 {
        wait_key_blocks(m, randoms[0]);
        wait_key_blocks_repeatedly(m, randoms.drop_first());
    }
}

/// Once a key is held down, the cycle that fetches `Fx0A` puts the lowest
/// number of a key held down into `Vx` and goes on to the next instruction.
pub proof fn wait_key_takes_lowest(m: MachineState, random: u8)
    requires
        m.wf(),
        m.fetch().0.op == 0xF,
        m.fetch().0.nn == 0x0A,
        m.any_key_pressed(),
    ensures
        m.cycle(random) matches Ok(next) && {
            &&& m.is_lowest_pressed(next.vx(m.fetch().0) as int)
            &&& next.pc == wrap_u16(m.pc + 2)
        },
{
    let (op, fetched) = m.fetch();
    decoded_is_wf(m.byte_at(m.pc as int), m.byte_at(m.pc + 1));
    assert(fetched.any_key_pressed()) by {
        let key = choose|key: int| 0 <= key < 16 && m.keypad[key];
        assert(fetched.keypad[key]);
    }
    lowest_pressed_exists(fetched);
}

/// `Fx33` writes digits: each of the three bytes is below ten, and they
/// are the hundreds, tens and ones of `Vx`.
pub proof fn stored_digits_give_value(m: MachineState, op: OpCode, random: u8)
    requires
        m.wf(),
        op.wf(),
        op.op == 0xF,
        op.nn == 0x33,
    ensures
        m.step(op, random) matches Ok(next) && {
            &&& next.byte_at(m.i as int) == m.vx(op) / 100
            &&& next.byte_at(m.i + 1) == (m.vx(op) / 10) % 10
            &&& next.byte_at(m.i + 2) == m.vx(op) % 10
            &&& 100 * next.byte_at(m.i as int) + 10 * next.byte_at(m.i + 1) + next.byte_at(
                m.i + 2,
            ) == m.vx(op)
        },
{
    let next = m.store_bcd(op);
    assert(m.step(op, random) == Ok::<MachineState, ExecutionError>(next));
    let first = wrap_address(m.i as int);
    let second = wrap_address(m.i + 1);
    let third = wrap_address(m.i + 2);
    assert(first != second && second != third && first != third);
}

/// Registers stored with `Fx55` come back with `Fx65`: whatever happens to
/// the registers in between, as long as `I` and the memory are what the
/// store left, the load gives `V0` to `Vx` the values they had at the
/// store.
pub proof fn store_then_load_restores(
    m: MachineState,
    store: OpCode,
    between: MachineState,
    load: OpCode,
    random: u8,
)
    requires
        m.wf(),
        between.wf(),
        store.wf(),
        load.wf(),
        store.op == 0xF,
        store.nn == 0x55,
        load.op == 0xF,
        load.nn == 0x65,
        load.x == store.x,
        m.step(store, random) matches Ok(stored) && between.memory == stored.memory && between.i
            == stored.i,
    ensures
        between.step(load, random) matches Ok(loaded) && {
            &&& forall|r: int| 0 <= r <= store.x ==> loaded.v[r] == m.v[r]
            &&& forall|r: int| store.x < r < 16 ==> loaded.v[r] == between.v[r]
        },
{
    let stored = m.store_registers(store);
    let loaded = between.load_registers(load);
    assert(m.step(store, random) == Ok::<MachineState, ExecutionError>(stored));
    assert(between.step(load, random) == Ok::<MachineState, ExecutionError>(loaded));
    assert forall|r: int| 0 <= r <= store.x implies loaded.v[r] == m.v[r] by {
        let address = wrap_address(m.i + r);
        assert(wrap_address(address - m.i) == r);
        assert(loaded.v[r] == stored.memory[address]);
    }
}

/// Storing registers with `Fx55` and loading them at once with `Fx65`
/// leaves every register as it was.
pub proof fn store_then_load_is_identity_on_registers(
    m: MachineState,
    store: OpCode,
    load: OpCode,
    random: u8,
)
    requires
        m.wf(),
        store.wf(),
        load.wf(),
        store.op == 0xF,
        store.nn == 0x55,
        load.op == 0xF,
        load.nn == 0x65,
        load.x == store.x,
    ensures
        m.step(store, random) matches Ok(stored) && stored.step(load, random) matches Ok(loaded)
            && loaded.v == m.v,
{
    let stored = m.store_registers(store);
    store_then_load_restores(m, store, stored, load, random);
    assert(stored.load_registers(load).v =~= m.v);
}

} // verus!
