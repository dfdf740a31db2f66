//! What holds of every machine state and every instruction.

use crate::display::{
    drawn_cell, drawn_screen, is_off, is_on, origin_x, origin_y, screen_collides, sprite_covers,
};
use crate::fault::Fault;
use crate::instruction::{decode, lemma_decode_arithmetic, Instruction};
use crate::keyboard::{key_hex, HostKey};
use crate::machine::{flag, step, takes_random, turn, Machine, Outcome};
use crate::ram::timer_after;
use crate::timing::{credit_left, ticks_due};
use vstd::prelude::*;

verus! {

/// A register file holds sixteen registers, memory 4096 bytes, and the
/// screen 32 rows of 64 pixels.
pub open spec fn shaped(m: Machine) -> bool {
    &&& m.ram.v.len() == 16
    &&& m.ram.mem.len() == 4096
    &&& screen_shaped(m.screen)
}

/// The screen has 32 rows of 64 pixels.
pub open spec fn screen_shaped(screen: Seq<Seq<bool>>) -> bool {
    &&& screen.len() == 32
    &&& forall|row: int| 0 <= row < 32 ==> (#[trigger] screen[row]).len() == 64
}

/// Whether `d` overwrites `PC`: a jump, a jump with offset, a call or a
/// return.
pub open spec fn transfers_control(d: Instruction) -> bool {
    ||| d.first_nibble == 0x1
    ||| d.first_nibble == 0x2
    ||| d.first_nibble == 0xB
    ||| (d.first_nibble == 0x0 && d.x == 0 && d.nn == 0xEE)
}

/// Whether `d` is a skip whose condition holds in `m`.
pub open spec fn skip_taken(m: Machine, d: Instruction) -> bool {
    let vx = m.ram.v[d.x as int];
    let vy = m.ram.v[d.y as int];
    let down = m.keys.pressed.contains(vx % 16);
    ||| (d.first_nibble == 0x3 && vx == d.nn)
    ||| (d.first_nibble == 0x4 && vx != d.nn)
    ||| (d.first_nibble == 0x5 && d.n == 0 && vx == vy)
    ||| (d.first_nibble == 0x9 && d.n == 0 && vx != vy)
    ||| (d.first_nibble == 0xE && d.nn == 0x9E && down)
    ||| (d.first_nibble == 0xE && d.nn == 0xA1 && !down)
}

/// The instruction that the next turn of `m` fetches.
pub open spec fn fetched(m: Machine) -> Instruction {
    decode([m.ram.mem[m.ram.pc as int], m.ram.mem[m.ram.pc + 1]])
}

/// A turn that executes anything but a jump, a call or a return leaves
/// `PC` exactly two further, or exactly four further if it was a skip whose
/// condition held. This is so whatever the turn reports: an unknown word
/// and a fault in the instruction's execution move `PC` by two as well.
pub proof fn fetch_moves_pc_by_two_or_four(m: Machine, random: u8)
    requires
        shaped(m),
        m.waiting is None,
        m.ram.pc + 1 < 4096,
        !transfers_control(fetched(m)),
    ensures
        turn(m, random).machine.ram.pc == m.ram.pc + (if skip_taken(m, fetched(m)) {
            4int
        } else {
            2int
        }),
{
    let bytes = [m.ram.mem[m.ram.pc as int], m.ram.mem[m.ram.pc + 1]];
    lemma_decode_arithmetic(bytes);
}

/// After `8XY4` the flag register holds the carry of `VX + VY`, whichever
/// registers `X` and `Y` name: the flag is written after the sum.
pub proof fn add_leaves_carry_in_vf(m: Machine, d: Instruction, random: u8)
    requires
        shaped(m),
        d.wf(),
        d.first_nibble == 0x8,
        d.n == 4,
    ensures
        step(m, d, random).machine.ram.v[0xF] == flag(
            m.ram.v[d.x as int] + m.ram.v[d.y as int] > 0xFF,
        ),
        d.x != 0xF ==> step(m, d, random).machine.ram.v[d.x as int] == (m.ram.v[d.x as int]
            + m.ram.v[d.y as int]) % 256,
{
    lemma_decode_arithmetic(d.instruction_bytes);
}

/// The flag that `8XY5`, `8XY6`, `8XY7` or `8XYE` computes from the state
/// before it: no borrow, or the bit that is shifted out.
pub open spec fn flag_computed(m: Machine, d: Instruction) -> u8 {
    let vx = m.ram.v[d.x as int];
    let vy = m.ram.v[d.y as int];
    if d.n == 5 {
        flag(vx > vy)
    } else if d.n == 6 {
        vx & 1
    } else if d.n == 7 {
        flag(vy > vx)
    } else {
        (vx >> 7) & 1
    }
}

/// Whether the flag that `8XY5`, `8XY6`, `8XY7` or `8XYE` writes is still
/// in the flag register when the instruction is done. These four write the
/// flag first and the result second. So the flag stays whenever `X` names
/// another register; with `X = F` the result takes its place, and the flag
/// register holds the flag only where the result happens to equal it.
pub open spec fn flag_outlives_result(m: Machine, d: Instruction) -> bool {
    let vf = m.ram.v[0xF];
    let vy = m.ram.v[d.y as int];
    ||| d.x != 0xF
    ||| (d.n == 5 && (d.y == 0xF || vy == 0))
    ||| (d.n == 6 && vf % 2 == 0)
    ||| (d.n == 7 && (d.y == 0xF || vy == 2 * flag(vy > vf)))
    ||| (d.n == 0xE && vf < 128)
}

/// After `8XY5`, `8XY6`, `8XY7` and `8XYE` the flag register holds the
/// flag of the operation wherever the flag outlives the result, which it
/// does for every `X` but `F`.
pub proof fn subtract_and_shift_leave_flag_in_vf(m: Machine, d: Instruction, random: u8)
    requires
        shaped(m),
        d.wf(),
        d.first_nibble == 0x8,
        d.n == 5 || d.n == 6 || d.n == 7 || d.n == 0xE,
        flag_outlives_result(m, d),
    ensures
        step(m, d, random).machine.ram.v[0xF] == flag_computed(m, d),
{
    lemma_decode_arithmetic(d.instruction_bytes);
    let vx = m.ram.v[d.x as int];
    assert(vx & 1 == vx % 2) by (bit_vector);
    assert((vx >> 7) & 1 == vx / 128) by (bit_vector);
}

/// Where the flag does not outlive the result, the flag register does not
/// hold the flag after `8XY5`, `8XY6`, `8XY7` and `8XYE`.
pub proof fn subtract_and_shift_lose_flag_otherwise(m: Machine, d: Instruction, random: u8)
    requires
        shaped(m),
        d.wf(),
        d.first_nibble == 0x8,
        d.n == 5 || d.n == 6 || d.n == 7 || d.n == 0xE,
        !flag_outlives_result(m, d),
    ensures
        step(m, d, random).machine.ram.v[0xF] != flag_computed(m, d),
{
    lemma_decode_arithmetic(d.instruction_bytes);
    let vx = m.ram.v[d.x as int];
    assert(vx & 1 == vx % 2) by (bit_vector);
    assert((vx >> 7) & 1 == vx / 128) by (bit_vector);
}

/// With `X = F` the four instructions `8XY5`, `8XY6`, `8XY7` and `8XYE`
/// leave their result in the flag register, computed from the registers as
/// they stand once the flag has been written: the flag is the operand.
pub proof fn subtract_and_shift_into_vf_keep_the_result(m: Machine, d: Instruction, random: u8)
    requires
        shaped(m),
        d.wf(),
        d.first_nibble == 0x8,
        d.n == 5 || d.n == 6 || d.n == 7 || d.n == 0xE,
        d.x == 0xF,
    ensures
        ({
            let vf = m.ram.v[0xF];
            let vy = m.ram.v[d.y as int];
            let after = step(m, d, random).machine.ram.v[0xF];
            let borrow_free = flag(vf > vy);
            let reverse_borrow_free = flag(vy > vf);
            &&& d.n == 5 ==> after == (borrow_free - (if d.y == 0xF {
                borrow_free
            } else {
                vy
            })) % 256
            &&& d.n == 6 ==> after == 0
            &&& d.n == 7 ==> after == ((if d.y == 0xF {
                reverse_borrow_free
            } else {
                vy
            }) - reverse_borrow_free) % 256
            &&& d.n == 0xE ==> after == 2 * (vf / 128)
        }),
{
    lemma_decode_arithmetic(d.instruction_bytes);
}

/// Only `CXNN` takes the random byte: a turn that executes anything else
/// does the same whatever the byte.
pub proof fn turn_ignores_random_byte(m: Machine, first: u8, second: u8)
    requires
        shaped(m),
        !takes_random(m),
    ensures
        turn(m, first) == turn(m, second),
{
    if m.waiting is None && m.ram.pc + 1 < 4096 {
        lemma_decode_arithmetic([m.ram.mem[m.ram.pc as int], m.ram.mem[m.ram.pc + 1]]);
    }
}

/// After `FX1E` the flag register holds whether `I + VX` left sixteen
/// bits, also when `X` names the flag register, and `I` holds the sum cut
/// to sixteen bits.
pub proof fn add_to_index_leaves_overflow_in_vf(m: Machine, d: Instruction, random: u8)
    requires
        shaped(m),
        d.wf(),
        d.first_nibble == 0xF,
        d.nn == 0x1E,
    ensures
        step(m, d, random).machine.ram.v[0xF] == flag(m.ram.i + m.ram.v[d.x as int] > 0xFFFF),
        step(m, d, random).machine.ram.i == (m.ram.i + m.ram.v[d.x as int]) % 0x10000,
{
    lemma_decode_arithmetic(d.instruction_bytes);
}

/// After a `DXYN` that did not fault the flag register holds whether the
/// sprite turned off a lit pixel, whichever registers `X` and `Y` name.
pub proof fn draw_leaves_collision_in_vf(m: Machine, d: Instruction, random: u8)
    requires
        shaped(m),
        d.wf(),
        d.first_nibble == 0xD,
        m.ram.i + d.n <= 4096,
    ensures
        step(m, d, random).result == Ok::<Outcome, Fault>(Outcome::Drawn),
        step(m, d, random).machine.ram.v[0xF] == flag(
            screen_collides(
                m.screen,
                (m.ram.v[d.x as int], m.ram.v[d.y as int]),
                d.n,
                m.ram.mem.subrange(m.ram.i as int, m.ram.i + d.n),
            ),
        ),
{
    lemma_decode_arithmetic(d.instruction_bytes);
}

/// Drawing the same sprite twice at the same place gives back the screen
/// as it was.
pub proof fn draw_twice_restores_screen(
    screen: Seq<Seq<bool>>,
    coords: (u8, u8),
    row_count: u8,
    sprites: Seq<u8>,
)
    requires
        screen_shaped(screen),
    ensures
        drawn_screen(drawn_screen(screen, coords, row_count, sprites), coords, row_count, sprites)
            == screen,
{
    let once = drawn_screen(screen, coords, row_count, sprites);
    let twice = drawn_screen(once, coords, row_count, sprites);
    assert forall|row: int| 0 <= row < 32 implies #[trigger] twice[row] == screen[row] by {
        assert(twice[row] =~= screen[row]);
    }
    assert(twice =~= screen);
}

/// The second of two equal draws reports a collision exactly when the
/// first lit a pixel, that is when the sprite has a set bit on a pixel that
/// was off.
pub proof fn second_draw_collides_where_first_lit(
    screen: Seq<Seq<bool>>,
    coords: (u8, u8),
    row_count: u8,
    sprites: Seq<u8>,
)
    requires
        screen_shaped(screen),
    ensures
        screen_collides(
            drawn_screen(screen, coords, row_count, sprites),
            coords,
            row_count,
            sprites,
        ) <==> exists|row: int, col: int|
            0 <= row < 32 && 0 <= col < 64 && #[trigger] sprite_covers(
                coords,
                row_count,
                sprites,
                row,
                col,
            ) && !screen[row][col],
{
    let once = drawn_screen(screen, coords, row_count, sprites);
    if screen_collides(once, coords, row_count, sprites) {
        let (row, col) = choose|row: int, col: int|
            0 <= row < 32 && 0 <= col < 64 && #[trigger] sprite_covers(
                coords,
                row_count,
                sprites,
                row,
                col,
            ) && once[row][col];
        assert(sprite_covers(coords, row_count, sprites, row, col) && !screen[row][col]);
    }
    if exists|row: int, col: int|
        0 <= row < 32 && 0 <= col < 64 && #[trigger] sprite_covers(
            coords,
            row_count,
            sprites,
            row,
            col,
        ) && !screen[row][col] {
        let (row, col) = choose|row: int, col: int|
            0 <= row < 32 && 0 <= col < 64 && #[trigger] sprite_covers(
                coords,
                row_count,
                sprites,
                row,
                col,
            ) && !screen[row][col];
        assert(sprite_covers(coords, row_count, sprites, row, col) && once[row][col]);
    }
}

/// A pixel that holds one of the two pixel patterns holds the same four
/// bytes again after two equal draws.
pub proof fn draw_twice_restores_cell(cell: [u8; 4], hit: bool)
    requires
        is_on(cell) || is_off(cell),
    ensures
        drawn_cell(drawn_cell(cell, hit), hit) == cell,
{
    assert(drawn_cell(drawn_cell(cell, hit), hit) =~= cell);
}

/// Executing the same `DXYN` twice at the same origin gives back the
/// screen as it was; the flag register holds the collision of the first
/// draw after the first, and that of the second after the second. The
/// origin is the same unless `X` or `Y` names the flag register and the
/// first draw changed it.
pub proof fn draw_instruction_twice_restores_screen(m: Machine, d: Instruction, random: u8)
    requires
        shaped(m),
        d.wf(),
        d.first_nibble == 0xD,
        m.ram.i + d.n <= 4096,
        step(m, d, random).machine.ram.v[d.x as int] == m.ram.v[d.x as int],
        step(m, d, random).machine.ram.v[d.y as int] == m.ram.v[d.y as int],
    ensures
        ({
            let coords = (m.ram.v[d.x as int], m.ram.v[d.y as int]);
            let sprite = m.ram.mem.subrange(m.ram.i as int, m.ram.i + d.n);
            let once = step(m, d, random).machine;
            let twice = step(once, d, random).machine;
            &&& twice.screen == m.screen
            &&& once.ram.v[0xF] == flag(screen_collides(m.screen, coords, d.n, sprite))
            &&& twice.ram.v[0xF] == flag(screen_collides(once.screen, coords, d.n, sprite))
        }),
{
    lemma_decode_arithmetic(d.instruction_bytes);
    let coords = (m.ram.v[d.x as int], m.ram.v[d.y as int]);
    let sprite = m.ram.mem.subrange(m.ram.i as int, m.ram.i + d.n);
    draw_twice_restores_screen(m.screen, coords, d.n, sprite);
}

/// A draw never changes a pixel outside the eight columns and `row_count`
/// rows that start at the wrapped origin, and the screen keeps its shape.
pub proof fn draw_stays_inside_sprite_box(
    screen: Seq<Seq<bool>>,
    coords: (u8, u8),
    row_count: u8,
    sprites: Seq<u8>,
    row: int,
    col: int,
)
    requires
        0 <= row < 32,
        0 <= col < 64,
        !(origin_y(coords.1) <= row < origin_y(coords.1) + row_count && origin_x(coords.0) <= col
            < origin_x(coords.0) + 8),
    ensures
        screen_shaped(drawn_screen(screen, coords, row_count, sprites)),
        drawn_screen(screen, coords, row_count, sprites)[row][col] == screen[row][col],
{
}

/// Only the origin of a draw wraps: a sprite asked for beyond the right or
/// bottom edge is drawn as if asked for at the coordinates taken modulo 64
/// and 32, and its body is cut at the edges, so that no pixel to the left
/// of or above the wrapped origin is touched.
pub proof fn draw_wraps_origin_only(
    screen: Seq<Seq<bool>>,
    coords: (u8, u8),
    row_count: u8,
    sprites: Seq<u8>,
)
    ensures
        drawn_screen(screen, coords, row_count, sprites) == drawn_screen(
            screen,
            ((coords.0 % 64) as u8, (coords.1 % 32) as u8),
            row_count,
            sprites,
        ),
        forall|row: int, col: int|
            0 <= row < 32 && 0 <= col < 64 && (row < coords.1 % 32 || col < coords.0 % 64)
                ==> !sprite_covers(coords, row_count, sprites, row, col),
{
    let wrapped = ((coords.0 % 64) as u8, (coords.1 % 32) as u8);
    let a = drawn_screen(screen, coords, row_count, sprites);
    let b = drawn_screen(screen, wrapped, row_count, sprites);
    assert forall|row: int| 0 <= row < 32 implies #[trigger] a[row] == b[row] by {
        assert(a[row] =~= b[row]);
    }
    assert(a =~= b);
}

/// After an `FX33` that did not fault the three bytes at `I` are the
/// decimal digits of `VX`: hundreds, tens, ones.
pub proof fn decimal_digits_give_back_the_value(m: Machine, d: Instruction, random: u8)
    requires
        shaped(m),
        d.wf(),
        d.first_nibble == 0xF,
        d.nn == 0x33,
        m.ram.i + 2 < 4096,
    ensures
        ({
            let mem = step(m, d, random).machine.ram.mem;
            let i = m.ram.i as int;
            &&& mem[i] * 100 + mem[i + 1] * 10 + mem[i + 2] == m.ram.v[d.x as int]
            &&& mem[i] <= 2 && mem[i + 1] <= 9 && mem[i + 2] <= 9
        }),
{
    lemma_decode_arithmetic(d.instruction_bytes);
}

/// After `FX29` the index register holds the address of the glyph for the
/// low nibble of `VX`, which lies in the built-in font.
pub proof fn font_address_of_low_nibble(m: Machine, d: Instruction, random: u8)
    requires
        shaped(m),
        d.wf(),
        d.first_nibble == 0xF,
        d.nn == 0x29,
    ensures
        step(m, d, random).machine.ram.i == 0x050 + (m.ram.v[d.x as int] & 0x0F) * 5,
        0x050 <= step(m, d, random).machine.ram.i <= 0x09B,
{
    lemma_decode_arithmetic(d.instruction_bytes);
    let vx = m.ram.v[d.x as int];
    assert(vx & 0x0F == vx % 16) by (bit_vector);
}

/// The timer clock does not drift: letting time pass in two stretches
/// brings as many ticks, and leaves as much carried over, as letting it
/// pass in one.
pub proof fn timer_clock_adds_up(credit: nat, first: nat, second: nat)
    requires
        credit < 1_000_000,
    ensures
        ticks_due(credit, first) + ticks_due(credit_left(credit, first), second) == ticks_due(
            credit,
            first + second,
        ),
        credit_left(credit_left(credit, first), second) == credit_left(credit, first + second),
        credit_left(credit, first) < 1_000_000,
{
    let a = (credit + 60 * first) as int;
    let b = (60 * second) as int;
    assert((a / 1_000_000) * 1_000_000 + a % 1_000_000 == a) by (nonlinear_arith);
    assert(((a % 1_000_000 + b) / 1_000_000) * 1_000_000 + (a % 1_000_000 + b) % 1_000_000 == a
        % 1_000_000 + b) by (nonlinear_arith);
    assert(((a + b) / 1_000_000) * 1_000_000 + (a + b) % 1_000_000 == a + b) by (nonlinear_arith);
}

/// The timer ticks sixty times a second: over `elapsed` microseconds a
/// clock that started with nothing carried over ticks exactly
/// `floor(60 * elapsed / 1_000_000)` times, and any clock within one tick
/// of that.
pub proof fn timer_clock_ticks_at_sixty_hertz(credit: nat, elapsed: nat)
    requires
        credit < 1_000_000,
    ensures
        ticks_due(0, elapsed) == (60 * elapsed) / 1_000_000,
        ticks_due(0, elapsed) <= ticks_due(credit, elapsed) <= ticks_due(0, elapsed) + 1,
{
    let a = (60 * elapsed) as int;
    let b = (credit + 60 * elapsed) as int;
    assert((a / 1_000_000) * 1_000_000 + a % 1_000_000 == a) by (nonlinear_arith);
    assert((b / 1_000_000) * 1_000_000 + b % 1_000_000 == b) by (nonlinear_arith);
}

/// A timer counts down by one for each tick until it is zero: `ticks`
/// ticks take `min(ticks, value)` off it, and ticks add up.
pub proof fn timer_counts_ticks(value: u8, first: nat, second: nat)
    ensures
        timer_after(value, first) == (if first >= value {
            0int
        } else {
            value - first
        }),
        timer_after(timer_after(value, first), second) == timer_after(value, first + second),
        timer_after(value, 0) == value,
{
}

/// The sixteen keypad codes and the sixteen host keys that stand for them
/// match one to one: two host keys that stand for the same code are the
/// same key, and every code has its key.
pub proof fn keypad_mapping_is_one_to_one(first: HostKey, second: HostKey, hex: u8)
    ensures
        key_hex(first) is Some && key_hex(first) == key_hex(second) ==> first == second,
        key_hex(first) matches Some(code) ==> code < 16,
        hex < 16 ==> exists|key: HostKey| key_hex(key) == Some(hex),
{
    if hex < 16 {
        let key = if hex == 0x0 {
            HostKey::X
        } else if hex == 0x1 {
            HostKey::Num1
        } else if hex == 0x2 {
            HostKey::Num2
        } else if hex == 0x3 {
            HostKey::Num3
        } else if hex == 0x4 {
            HostKey::Q
        } else if hex == 0x5 {
            HostKey::W
        } else if hex == 0x6 {
            HostKey::E
        } else if hex == 0x7 {
            HostKey::A
        } else if hex == 0x8 {
            HostKey::S
        } else if hex == 0x9 {
            HostKey::D
        } else if hex == 0xA {
            HostKey::Z
        } else if hex == 0xB {
            HostKey::C
        } else if hex == 0xC {
            HostKey::Num4
        } else if hex == 0xD {
            HostKey::R
        } else if hex == 0xE {
            HostKey::F
        } else {
            HostKey::V
        };
        assert(key_hex(key) == Some(hex));
    }
}

/// The stack never holds more than sixteen return addresses, and a machine
/// never waits for a key on behalf of a register that does not exist: what
/// holds of both before an instruction holds after it.
pub proof fn step_keeps_stack_and_wait_in_bounds(m: Machine, d: Instruction, random: u8)
    requires
        shaped(m),
        d.wf(),
        m.ram.stack.len() <= 16,
        m.waiting matches Some(x) ==> x < 16,
    ensures
        step(m, d, random).machine.ram.stack.len() <= 16,
        step(m, d, random).machine.waiting matches Some(x) ==> x < 16,
        shaped(step(m, d, random).machine),
{
    lemma_decode_arithmetic(d.instruction_bytes);
}

} // verus!
