use aoc_userpatch::catalog::Catalog;
use aoc_userpatch::error::PatchError;
use aoc_userpatch::feature::{Feature, Injection};
use aoc_userpatch::install::{
    apply_injection, correct_address, install_into, pad_image, Correction, IMAGE_SIZE,
};
use aoc_userpatch::options::InstallOptions;

fn feature(name: &str, optional: bool, enabled: bool, patches: Vec<(u32, &str)>) -> Feature {
    let patches = patches.into_iter().map(|(o, p)| Injection::new(o, p.to_string())).collect();
    Feature::new(name.to_string(), optional, false, enabled, patches)
}

fn padded(image: &[u8]) -> Vec<u8> {
    let mut v = image.to_vec();
    v.resize(IMAGE_SIZE, 0);
    v
}

#[test]
fn image_size_is_three_mebibytes() {
    assert_eq!(IMAGE_SIZE, 3072 * 1024);
}

#[test]
fn pad_image_fills_with_zeros() {
    assert_eq!(pad_image(&[1, 2, 3], 5), Ok(vec![1, 2, 3, 0, 0]));
    assert_eq!(pad_image(&[1, 2, 3], 3), Ok(vec![1, 2, 3]));
    assert_eq!(pad_image(&[], 2), Ok(vec![0, 0]));
    assert_eq!(pad_image(&[1, 2, 3], 2), Err(PatchError::OversizedImage));
}

#[test]
fn address_within_the_buffer_is_kept() {
    let mut log = Vec::new();
    assert_eq!(correct_address(0, 100, &mut log), 0);
    assert_eq!(correct_address(99, 100, &mut log), 99);
    assert_eq!(correct_address(100, 100, &mut log), 100);
    assert!(log.is_empty());
}

#[test]
fn address_beyond_the_buffer_is_brought_back() {
    let mut log = Vec::new();
    assert_eq!(correct_address(101, 100, &mut log), 1);
    assert_eq!(log, vec![Correction { from: 101, to: 1 }]);
    assert_eq!(correct_address(350, 100, &mut log), 50);
    assert_eq!(
        log,
        vec![
            Correction { from: 101, to: 1 },
            Correction { from: 350, to: 250 },
            Correction { from: 250, to: 150 },
            Correction { from: 150, to: 50 },
        ]
    );
    let mut other = Vec::new();
    assert_eq!(correct_address(300, 100, &mut other), 100);
    assert_eq!(other.len(), 2);
}

#[test]
fn largest_offset_is_brought_back() {
    let mut log = Vec::new();
    assert_eq!(correct_address(u32::MAX, IMAGE_SIZE, &mut log), 1048575);
    assert_eq!(log.len(), 1365);
    assert_eq!(log[0], Correction { from: 4294967295, to: 4294967295 - IMAGE_SIZE });
}

#[test]
fn one_injection_is_decoded_and_written() {
    let mut buffer = vec![0u8; 8];
    let mut log = Vec::new();
    let r = apply_injection(&mut buffer, &Injection::new(2, "0a0B".to_string()), &mut log);
    assert_eq!(r, Ok(()));
    assert_eq!(buffer, vec![0, 0, 10, 11, 0, 0, 0, 0]);
    assert!(log.is_empty());
    let r = apply_injection(&mut buffer, &Injection::new(7, "0102".to_string()), &mut log);
    assert_eq!(r, Err(PatchError::OutOfBounds));
    let r = apply_injection(&mut buffer, &Injection::new(0, "010".to_string()), &mut log);
    assert_eq!(r, Err(PatchError::MalformedHex));
    assert_eq!(buffer, vec![0, 0, 10, 11, 0, 0, 0, 0]);
}

#[test]
fn install_returns_an_image_of_the_fixed_size() {
    let catalog = Catalog::new(Vec::new());
    for len in [0usize, 1, 1000, IMAGE_SIZE - 1, IMAGE_SIZE] {
        let image = vec![0x5Au8; len];
        let done = install_into(&image, &catalog, InstallOptions::bare()).unwrap();
        assert_eq!(done.image.len(), IMAGE_SIZE);
        assert_eq!(done.image, padded(&image));
        assert!(done.corrections.is_empty());
    }
}

#[test]
fn install_refuses_an_oversized_image() {
    let catalog = Catalog::new(Vec::new());
    let image = vec![0u8; IMAGE_SIZE + 1];
    assert_eq!(
        install_into(&image, &catalog, InstallOptions::bare()),
        Err(PatchError::OversizedImage)
    );
}

#[test]
fn install_writes_enabled_features_only() {
    let catalog = Catalog::new(vec![
        feature("Core fixes", false, true, vec![(0, "AABB"), (4, "CC")]),
        feature("Windowed mode support", true, true, vec![(8, "11")]),
        feature("Widescreen interface style", true, false, vec![(10, "2233")]),
        feature("Unlisted and off", false, false, vec![(12, "44")]),
    ]);
    let image = vec![9u8; 16];
    let mut o = InstallOptions::bare();
    o.widescreen_command_bar = true;
    let done = install_into(&image, &catalog, o).unwrap();
    let mut expected = padded(&image);
    expected[0] = 0xAA;
    expected[1] = 0xBB;
    expected[4] = 0xCC;
    expected[10] = 0x22;
    expected[11] = 0x33;
    assert_eq!(done.image, expected);
    assert_eq!(image, vec![9u8; 16]);
}

#[test]
fn install_with_nothing_enabled_is_the_padded_image() {
    let catalog = Catalog::new(vec![
        feature("Windowed mode support", true, true, vec![(8, "11")]),
        feature("Widescreen interface style", true, true, vec![(10, "2233")]),
        feature("Unlisted and off", false, false, vec![(12, "44")]),
    ]);
    let image = vec![3u8; 64];
    let done = install_into(&image, &catalog, InstallOptions::bare()).unwrap();
    assert_eq!(done.image, padded(&image));
}

#[test]
fn install_leaves_untouched_bytes_alone() {
    let catalog = Catalog::new(vec![
        feature("Core fixes", false, true, vec![(32, "FFFF")]),
        feature("Disable water movement", true, false, vec![(100, "01")]),
    ]);
    let image = vec![3u8; 64];
    let done = install_into(&image, &catalog, InstallOptions::bare()).unwrap();
    let zero_padded = padded(&image);
    for i in 0..IMAGE_SIZE {
        if i != 32 && i != 33 && i != 100 {
            assert_eq!(done.image[i], zero_padded[i]);
        }
    }
    assert_eq!(&done.image[32..34], &[0xFF, 0xFF]);
    assert_eq!(done.image[100], 1);
}

#[test]
fn later_injections_overwrite_earlier_ones() {
    let catalog = Catalog::new(vec![
        feature("First", false, true, vec![(0, "01010101"), (1, "0202")]),
        feature("Second", false, true, vec![(2, "03")]),
    ]);
    let done = install_into(&[], &catalog, InstallOptions::bare()).unwrap();
    assert_eq!(&done.image[0..5], &[1, 2, 3, 1, 0]);
}

#[test]
fn install_brings_far_offsets_back_and_reports_it() {
    let size = IMAGE_SIZE as u32;
    let catalog = Catalog::new(vec![
        feature("Core fixes", false, true, vec![(size + 16, "AB"), (7, "01")]),
        feature("Off", false, false, vec![(size + 1, "CD")]),
        feature("More", false, true, vec![(2 * size + 5, "EF")]),
    ]);
    let done = install_into(&[], &catalog, InstallOptions::bare()).unwrap();
    assert_eq!(done.image[16], 0xAB);
    assert_eq!(done.image[7], 0x01);
    assert_eq!(done.image[1], 0);
    assert_eq!(done.image[5], 0xEF);
    assert_eq!(
        done.corrections,
        vec![
            Correction { from: IMAGE_SIZE + 16, to: 16 },
            Correction { from: 2 * IMAGE_SIZE + 5, to: IMAGE_SIZE + 5 },
            Correction { from: IMAGE_SIZE + 5, to: 5 },
        ]
    );
}

#[test]
fn offset_at_the_end_of_the_image_is_not_brought_back() {
    let size = IMAGE_SIZE as u32;
    let empty = Catalog::new(vec![feature("Edge", false, true, vec![(size, "")])]);
    let done = install_into(&[1], &empty, InstallOptions::bare()).unwrap();
    assert_eq!(done.image, padded(&[1]));
    assert!(done.corrections.is_empty());
    let one = Catalog::new(vec![feature("Edge", false, true, vec![(size, "00")])]);
    assert_eq!(install_into(&[1], &one, InstallOptions::bare()), Err(PatchError::OutOfBounds));
    let last = Catalog::new(vec![feature("Edge", false, true, vec![(size - 1, "7F")])]);
    let done = install_into(&[1], &last, InstallOptions::bare()).unwrap();
    assert_eq!(done.image[IMAGE_SIZE - 1], 0x7F);
}

#[test]
fn install_fails_on_a_malformed_payload() {
    let odd = Catalog::new(vec![feature("Core fixes", false, true, vec![(0, "ABC")])]);
    assert_eq!(install_into(&[], &odd, InstallOptions::bare()), Err(PatchError::MalformedHex));
    let other = Catalog::new(vec![feature("Core fixes", false, true, vec![(0, "ZZ")])]);
    assert_eq!(install_into(&[], &other, InstallOptions::bare()), Err(PatchError::MalformedHex));
    let off = Catalog::new(vec![feature("Core fixes", false, false, vec![(0, "ZZ")])]);
    assert_eq!(install_into(&[], &off, InstallOptions::bare()).unwrap().image, padded(&[]));
}

#[test]
fn install_fails_on_a_patch_past_the_end() {
    let size = IMAGE_SIZE as u32;
    let catalog = Catalog::new(vec![feature("Core fixes", false, true, vec![(size - 1, "0102")])]);
    assert_eq!(install_into(&[], &catalog, InstallOptions::bare()), Err(PatchError::OutOfBounds));
}

#[test]
fn install_fails_on_a_switch_for_a_fixed_feature() {
    let catalog = Catalog::new(vec![feature("Windowed mode support", false, true, vec![])]);
    let image = vec![0u8; IMAGE_SIZE + 1];
    assert_eq!(
        install_into(&image, &catalog, InstallOptions::bare()),
        Err(PatchError::IllegalToggle)
    );
}

#[test]
fn install_twice_gives_the_same_image() {
    let catalog = Catalog::new(vec![
        feature("Core fixes", false, true, vec![(0, "AABB"), (4, "CC")]),
        feature("Disable weather system", true, false, vec![(8, "11")]),
    ]);
    let image = vec![9u8; 16];
    let mut o = InstallOptions::bare();
    o.custom_terrains = true;
    let first = install_into(&image, &catalog, o);
    let second = install_into(&image, &catalog, o);
    assert!(first.is_ok());
    assert_eq!(first, second);
}
