use chip8::emulator::Emulator;
use chip8::machine::Outcome;

const IBM_LOGO: [u8; 132] = [
    0x00, 0xE0, 0xA2, 0x2A, 0x60, 0x0C, 0x61, 0x08, 0xD0, 0x1F, 0x70, 0x09, 0xA2, 0x39, 0xD0, 0x1F,
    0xA2, 0x48, 0x70, 0x08, 0xD0, 0x1F, 0x70, 0x04, 0xA2, 0x57, 0xD0, 0x1F, 0x70, 0x08, 0xA2, 0x66,
    0xD0, 0x1F, 0x70, 0x08, 0xA2, 0x75, 0xD0, 0x1F, 0x12, 0x28, 0xFF, 0x00, 0xFF, 0x00, 0x3C, 0x00,
    0x3C, 0x00, 0x3C, 0x00, 0x3C, 0x00, 0xFF, 0x00, 0xFF, 0xFF, 0x00, 0xFF, 0x00, 0x38, 0x00, 0x3F,
    0x00, 0x3F, 0x00, 0x38, 0x00, 0xFF, 0x00, 0xFF, 0x80, 0x00, 0xE0, 0x00, 0xE0, 0x00, 0x80, 0x00,
    0x80, 0x00, 0xE0, 0x00, 0xE0, 0x00, 0x80, 0xF8, 0x00, 0xFC, 0x00, 0x3E, 0x00, 0x3F, 0x00, 0x3B,
    0x00, 0x39, 0x00, 0xF8, 0x00, 0xF8, 0x03, 0x00, 0x07, 0x00, 0x0F, 0x00, 0xBF, 0x00, 0xFB, 0x00,
    0xF3, 0x00, 0xE3, 0x00, 0x43, 0xE0, 0x00, 0xE0, 0x00, 0x80, 0x00, 0x80, 0x00, 0x80, 0x00, 0x80,
    0x00, 0xE0, 0x00, 0xE0,
];

/// The six sprites of the logo: where each is drawn and where its fifteen
/// rows start in the program image.
const SPRITES: [(usize, usize, usize); 6] = [
    (12, 8, 0x2A),
    (21, 8, 0x39),
    (29, 8, 0x48),
    (33, 8, 0x57),
    (41, 8, 0x66),
    (49, 8, 0x75),
];

#[test]
fn ibm_logo() {
    let mut emulator = Emulator::boot(IBM_LOGO.to_vec()).unwrap();
    let mut drawn = 0;
    for turn in 0..20 {
        let outcome = emulator.process_instruction_with(0).unwrap();
        match outcome {
            Outcome::Cleared => assert_eq!(turn, 0),
            Outcome::Drawn => drawn += 1,
            other => assert_eq!(other, Outcome::Continue),
        }
    }
    assert_eq!(drawn, 6);
    assert_eq!(emulator.ram().PC, 0x228);

    let registers = emulator.ram().V;
    assert_eq!(registers[0], 49);
    assert_eq!(registers[1], 8);
    assert!(registers[2..].iter().all(|v| *v == 0));

    let mut expected = [[false; 64]; 32];
    for (x, y, at) in SPRITES {
        for row in 0..15 {
            for col in 0..8 {
                if IBM_LOGO[at + row] >> (7 - col) & 1 == 1 {
                    expected[y + row][x + col] ^= true;
                }
            }
        }
    }
    let canvas = &emulator.display().virtual_canvas;
    for row in 0..32 {
        for col in 0..64 {
            let on = canvas[row][col] == [5, 110, 5, 0];
            assert!(on || canvas[row][col] == [0, 0, 0, 0]);
            assert_eq!(on, expected[row][col], "pixel ({col}, {row})");
        }
    }

    // The top bar of the letter I: eight pixels from column 12 on row 8,
    // nothing on the row below, and nothing above or beside the logo.
    for col in 12..20 {
        assert!(expected[8][col]);
    }
    assert!((0..64).all(|col| !expected[9][col]));
    assert!((0..8).all(|row| (0..64).all(|col| !expected[row][col])));
    assert!((23..32).all(|row| (0..64).all(|col| !expected[row][col])));
    assert!((0..32).all(|row| (0..12).all(|col| !expected[row][col])));
    assert!((0..32).all(|row| (57..64).all(|col| !expected[row][col])));

    // The program then jumps to itself for ever.
    for _ in 0..3 {
        assert_eq!(emulator.process_instruction_with(0), Ok(Outcome::Continue));
        assert_eq!(emulator.ram().PC, 0x228);
    }
}
