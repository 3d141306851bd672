use rand::Rng;
use vstd::prelude::*;

use crate::bus::lemma_ram_access;
use crate::cpu::{CpuView, CPU};

verus! {

/// Where the snake program looks for the last key pressed.
pub const INPUT_ADDRESS: u16 = 0xFF;

/// Where the snake program finds a fresh random number each frame.
pub const RANDOM_ADDRESS: u16 = 0xFE;

/// The screen: 32 x 32 pixels from $0200 to $05FF, one colour index per byte.
pub const SCREEN_START: u16 = 0x0200;

pub const SCREEN_END: u16 = 0x0600;

/// The frame in RGB: three bytes per pixel.
pub const FRAME_LEN: usize = 3072;

/// What the player did.
#[derive(Debug, PartialEq, Eq, Structural, Clone, Copy)]
pub enum UserInput {
    /// Closed the window or pressed Escape.
    Quit,
    /// Pressed W.
    Up,
    /// Pressed S.
    Down,
    /// Pressed A.
    Left,
    /// Pressed D.
    Right,
    /// Anything else.
    Other,
}

/// The colour (red, green, blue) of a colour index of the snake screen: black,
/// white, then grey, red, green, blue, magenta and yellow (twice over), and cyan
/// for every other index.
pub open spec fn spec_color(byte: u8) -> (u8, u8, u8) {
    match byte {
        0 => (0, 0, 0),
        1 => (255, 255, 255),
        2 | 9 => (128, 128, 128),
        3 | 10 => (255, 0, 0),
        4 | 11 => (0, 255, 0),
        5 | 12 => (0, 0, 255),
        6 | 13 => (255, 0, 255),
        7 | 14 => (255, 255, 0),
        _ => (0, 255, 255),
    }
}

/// Law: colour indices 9 to 14 repeat 2 to 7; 0 is black, 1 white, and every
/// index from 15 up is cyan; the colours of 0 to 8 are all different.
pub proof fn lemma_color_indices(b: u8, c: u8)
    ensures
        2 <= b <= 7 ==> spec_color((b + 7) as u8) == spec_color(b),
        b >= 15 ==> spec_color(b) == (0u8, 255u8, 255u8),
        spec_color(0) == (0u8, 0u8, 0u8) && spec_color(1) == (255u8, 255u8, 255u8),
        b <= 8 && c <= 8 && b != c ==> spec_color(b) != spec_color(c),
{
}

/// The byte the snake program expects at [`INPUT_ADDRESS`] for a direction: the
/// ASCII code of the lower-case key (w, s, a, d).
pub open spec fn spec_key_code(input: UserInput) -> Option<u8> {
    match input {
        UserInput::Up => Some(0x77u8),
        UserInput::Down => Some(0x73u8),
        UserInput::Left => Some(0x61u8),
        UserInput::Right => Some(0x64u8),
        _ => None,
    }
}

/// The RGB frame for the screen bytes of `ram`: pixel `i` takes the colour of
/// the byte at $0200 + `i`.
pub open spec fn spec_frame(ram: Seq<u8>) -> Seq<u8> {
    Seq::new(
        FRAME_LEN as nat,
        |i: int|
            {
                let c = spec_color(ram[(SCREEN_START + i / 3) % 2048]);
                if i % 3 == 0 {
                    c.0
                } else if i % 3 == 1 {
                    c.1
                } else {
                    c.2
                }
            },
    )
}

/// The colour of a colour index.
pub fn color(byte: u8) -> (r: (u8, u8, u8))
    ensures
        r == spec_color(byte),
{
    match byte {
        0 => (0, 0, 0),
        1 => (255, 255, 255),
        2 | 9 => (128, 128, 128),
        3 | 10 => (255, 0, 0),
        4 | 11 => (0, 255, 0),
        5 | 12 => (0, 0, 255),
        6 | 13 => (255, 0, 255),
        7 | 14 => (255, 255, 0),
        _ => (0, 255, 255),
    }
}

/// A number drawn uniformly from `low..high` by `rand`'s thread-local generator
/// (`rand::rng().random_range`); the contract claims only that it lies in the
/// range, which `random_range` documents (it panics on an empty range, which the
/// `requires` rules out).
#[verifier::external_body]
fn random_in_range(low: u8, high: u8) -> (r: u8)
    requires
        low < high,
    ensures
        low <= r < high,
{
    rand::rng().random_range(low..high)
}

/// Stores a fresh random number from 1 to 15 at [`RANDOM_ADDRESS`], where the
/// snake program looks for one each frame, and returns it.
pub fn feed_random(cpu: &mut CPU) -> (r: u8)
    ensures
        1 <= r < 16,
        final(cpu)@ == old(cpu)@.write(RANDOM_ADDRESS, r),
{
    proof {
        lemma_ram_access(cpu@.bus, RANDOM_ADDRESS, 0);
    }
    let r = random_in_range(1, 16);
    cpu.mem_write(RANDOM_ADDRESS, r);
    r
}

/// Answers one input: a direction stores its key code at [`INPUT_ADDRESS`];
/// returns false when the player quits, true otherwise.
pub fn handle_user_input(cpu: &mut CPU, input: UserInput) -> (running: bool)
    ensures
        running == (input != UserInput::Quit),
        final(cpu)@ == match spec_key_code(input) {
            Some(code) => old(cpu)@.write(INPUT_ADDRESS, code),
            None => old(cpu)@,
        },
{
    proof {
        lemma_ram_access(cpu@.bus, INPUT_ADDRESS, 0);
    }
    match input {
        UserInput::Quit => false,
        UserInput::Up => {
            cpu.mem_write(INPUT_ADDRESS, 0x77);
            true
        },
        UserInput::Down => {
            cpu.mem_write(INPUT_ADDRESS, 0x73);
            true
        },
        UserInput::Left => {
            cpu.mem_write(INPUT_ADDRESS, 0x61);
            true
        },
        UserInput::Right => {
            cpu.mem_write(INPUT_ADDRESS, 0x64);
            true
        },
        UserInput::Other => true,
    }
}

/// Copies the screen into `frame` in RGB; returns whether any pixel changed.
pub fn read_screen_state(cpu: &mut CPU, frame: &mut [u8; 3072]) -> (update: bool)
    ensures
        final(cpu)@ == old(cpu)@,
        final(frame)@ == spec_frame(old(cpu)@.bus.ram),
        update == (final(frame)@ != old(frame)@),
{
    proof {
        cpu.bus.lemma_wf();
    }
    let ghost start = frame@;
    let ghost s = cpu@;
    let mut frame_idx: usize = 0;
    let mut update = false;
    let mut address: u16 = SCREEN_START;
    while address < SCREEN_END
        invariant
            SCREEN_START <= address <= SCREEN_END,
            frame_idx == 3 * (address - SCREEN_START),
            cpu@ == s,
            s.wf(),
            frame@.len() == FRAME_LEN,
            forall|i: int| 0 <= i < frame_idx ==> frame@[i] == #[trigger] spec_frame(s.bus.ram)[i],
            forall|i: int| frame_idx <= i < FRAME_LEN ==> frame@[i] == #[trigger] start[i],
            update == (exists|i: int| 0 <= i < frame_idx && #[trigger] start[i] != spec_frame(s.bus.ram)[i]),
        decreases SCREEN_END - address,
    {
        proof {
            lemma_ram_access(cpu@.bus, address, 0);
        }
        let color_idx = cpu.mem_read(address);
        let (b1, b2, b3) = color(color_idx);
        let ghost k = frame_idx as int;
        let ghost changed = start[k] != b1 || start[k + 1] != b2 || start[k + 2] != b3;
        if frame[frame_idx] != b1 || frame[frame_idx + 1] != b2 || frame[frame_idx + 2] != b3 {
            frame[frame_idx] = b1;
            frame[frame_idx + 1] = b2;
            frame[frame_idx + 2] = b3;
            update = true;
        }
        proof {
            let f = spec_frame(s.bus.ram);
            assert(f[k] == b1 && f[k + 1] == b2 && f[k + 2] == b3);
            if changed {
                if start[k] != f[k] {
                    assert(start[k] != f[k]);
                } else if start[k + 1] != f[k + 1] {
                    assert(start[k + 1] != f[k + 1]);
                } else {
                    assert(start[k + 2] != f[k + 2]);
                }
            } else {
                assert forall|i: int| 0 <= i < k + 3 && #[trigger] start[i] != f[i] implies i < k by {}
            }
        }
        frame_idx = frame_idx + 3;
        address = address + 1;
    }
    proof {
        if update {
            let i = choose|i: int| 0 <= i < FRAME_LEN && #[trigger] start[i] != spec_frame(s.bus.ram)[i];
            assert(frame@[i] != start[i]);
        } else {
            assert(frame@ =~= start);
        }
    }
    update
}

} // verus!
