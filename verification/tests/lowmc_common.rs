use gigadoram::lowmc::common::{
    lane_mask, lane_mask_u8, m4r_lut, pack_round_constants, pack_tag_and_index_value,
};

#[test]
fn m4r_lut_is_the_gray_code_parity_table() {
    for input in [0u8, 1, 0b1011, 0b0110, 0xf, 0xff] {
        let lut = m4r_lut(input);
        for (i, entry) in lut.iter().enumerate() {
            let gray = (i ^ (i >> 1)) as u8;
            assert_eq!(*entry, (input & gray).count_ones() % 2 == 1, "input {input} entry {i}");
        }
    }
    // Consecutive entries differ in the window bit that the Gray code flips.
    let lut = m4r_lut(0b0100);
    assert_eq!(lut, [false, false, false, false, true, true, true, true, true, true, true, true, false, false, false, false]);
}

#[test]
fn lane_masks() {
    assert_eq!(lane_mask(0), 0);
    assert_eq!(lane_mask(3), 0b111);
    assert_eq!(lane_mask(128), u128::MAX);
    assert_eq!(lane_mask_u8(8), 0xff);
    assert_eq!(lane_mask_u8(5), 0b1_1111);
}

#[test]
fn packing_helpers() {
    let mut constants = [[false; 128]; 9];
    constants[0][0] = true;
    constants[8][127] = true;
    constants[3][64] = true;
    let packed = pack_round_constants(&constants);
    assert_eq!(packed[0], 1);
    assert_eq!(packed[8], 1u128 << 127);
    assert_eq!(packed[3], 1u128 << 64);
    assert_eq!(packed[1], 0);
    let tag = 0x1111_2222_3333_4444_5555_6666_7777_8888u128;
    let packed = pack_tag_and_index_value(tag, 0xdead_beef_0000_0001);
    assert_eq!(packed, (tag >> 32) | (1u128 << 96));
}
