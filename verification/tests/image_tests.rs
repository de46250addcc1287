use xds110_config::image::{
    current_mode, decide_configuration, has_valid_magic, ConfigDecision, CONFIGURATION_SIZE,
};

fn blank_image() -> Vec<u8> {
    vec![0u8; CONFIGURATION_SIZE]
}

fn healthy_image(mode_lo: u8, mode_hi: u8) -> Vec<u8> {
    let mut img = blank_image();
    img[16] = mode_lo;
    img[17] = mode_hi;
    img[18] = 0x55;
    img[19] = 0xaa;
    img
}

#[test]
fn magic_detected() {
    let img = healthy_image(0, 0);
    assert!(has_valid_magic(&img));
    let mut bad = img.clone();
    bad[19] = 0x00;
    assert!(!has_valid_magic(&bad));
}

#[test]
fn mode_is_little_endian() {
    let img = healthy_image(0x04, 0x01);
    assert_eq!(current_mode(&img), 0x0104);
}

#[test]
fn healthy_image_in_other_mode_patches_byte_16_only() {
    let mut img = healthy_image(2, 0);
    img[0] = 0x99;
    img[16383] = 0x77;
    let original = img.clone();
    let decision = decide_configuration(&mut img);
    assert_eq!(decision, ConfigDecision::WriteNeeded);
    assert_eq!(img[16], 4);
    for i in 0..CONFIGURATION_SIZE {
        if i != 16 {
            assert_eq!(img[i], original[i]);
        }
    }
}

#[test]
fn healthy_image_already_in_target_mode_is_untouched() {
    let mut img = healthy_image(4, 0);
    img[100] = 0xab;
    let original = img.clone();
    let decision = decide_configuration(&mut img);
    assert_eq!(decision, ConfigDecision::AlreadyTarget);
    assert_eq!(img, original);
}

#[test]
fn missing_magic_is_repaired_whatever_the_content() {
    let mut img = blank_image();
    for i in 0..CONFIGURATION_SIZE {
        img[i] = (i % 251) as u8;
    }
    img[18] = 0x12;
    img[19] = 0x34;
    let decision = decide_configuration(&mut img);
    assert_eq!(img[17], 0x00);
    assert_eq!(&img[18..20], &[0x55, 0xaa]);
    assert_eq!(decision, ConfigDecision::WriteNeeded);
    assert_eq!(img[16], 4);
}

#[test]
fn repaired_image_may_already_be_in_target_mode() {
    let mut img = blank_image();
    img[16] = 4;
    img[17] = 9;
    img[18] = 0x00;
    img[19] = 0x00;
    let decision = decide_configuration(&mut img);
    assert_eq!(decision, ConfigDecision::AlreadyTarget);
    assert_eq!(img[16], 4);
    assert_eq!(img[17], 0);
    assert_eq!(&img[18..20], &[0x55, 0xaa]);
}
