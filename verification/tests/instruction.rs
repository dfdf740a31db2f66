use chip8::instruction::Instruction;

#[test]
fn decodes_every_field() {
    let d = Instruction::from([0xD1, 0x2F]);
    assert_eq!(d.instruction_bytes, [0xD1, 0x2F]);
    assert_eq!(d.first_nibble, 0xD);
    assert_eq!(d.x, 0x1);
    assert_eq!(d.y, 0x2);
    assert_eq!(d.n, 0xF);
    assert_eq!(d.nn, 0x2F);
    assert_eq!(d.nnn, 0x12F);
    assert_eq!(d.word(), 0xD12F);
}

#[test]
fn decodes_the_extremes() {
    let zero = Instruction::from([0x00, 0x00]);
    assert_eq!((zero.first_nibble, zero.x, zero.y, zero.n, zero.nn, zero.nnn), (0, 0, 0, 0, 0, 0));
    assert_eq!(zero.word(), 0);
    let ones = Instruction::from([0xFF, 0xFF]);
    assert_eq!(
        (ones.first_nibble, ones.x, ones.y, ones.n, ones.nn, ones.nnn),
        (0xF, 0xF, 0xF, 0xF, 0xFF, 0xFFF)
    );
    assert_eq!(ones.word(), 0xFFFF);
}

#[test]
fn decoding_agrees_with_the_bit_layout_for_every_word() {
    for word in 0..=0xFFFFu16 {
        let hi = (word >> 8) as u8;
        let lo = word as u8;
        let d = Instruction::from([hi, lo]);
        assert_eq!(d.first_nibble, hi >> 4);
        assert_eq!(d.x, hi & 0x0F);
        assert_eq!(d.y, lo >> 4);
        assert_eq!(d.n, lo & 0x0F);
        assert_eq!(d.nn, lo);
        assert_eq!(d.nnn, word & 0x0FFF);
        assert_eq!(d.word(), word);
    }
}
