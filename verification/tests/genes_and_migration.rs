use pallet_kitties::dna::mix_dna;
use pallet_kitties::migrations::{upgrade_v0, upgrade_v1};
use pallet_kitties::{migrate, Kitty, V0Kitty, V1Kitty};

#[test]
fn mix_takes_selected_bits_from_the_first_parent() {
    let child = mix_dna(&[0xF0; 16], &[0x0F; 16], &[0xAA; 16]);
    assert_eq!(child, [0xA5; 16]);
    let all_first = mix_dna(&[1, 2, 3, 4, 5, 6, 7, 8, 9, 10, 11, 12, 13, 14, 15, 16], &[0; 16], &[0xFF; 16]);
    assert_eq!(all_first, [1, 2, 3, 4, 5, 6, 7, 8, 9, 10, 11, 12, 13, 14, 15, 16]);
    let all_second = mix_dna(&[0xFF; 16], &[0x33; 16], &[0; 16]);
    assert_eq!(all_second, [0x33; 16]);
}

#[test]
fn mixed_bits_stay_within_the_parents() {
    let a = [0b1100_1010u8; 16];
    let b = [0b1010_0110u8; 16];
    for s in [0u8, 0x0F, 0x5A, 0xFF] {
        let child = mix_dna(&a, &b, &[s; 16]);
        for i in 0..16 {
            assert_eq!((a[i] & b[i]) & !child[i], 0);
            assert_eq!(child[i] & !(a[i] | b[i]), 0);
        }
    }
}

#[test]
fn upgrade_of_layout_zero_names_the_kitty() {
    let kitty = upgrade_v0(V0Kitty([9; 16]));
    assert_eq!(kitty, Kitty { dna: [9; 16], name: *b"abcdxxxx" });
}

#[test]
fn upgrade_of_layout_one_pads_the_name() {
    let kitty = upgrade_v1(V1Kitty { dna: [4; 16], name: *b"tom!" });
    assert_eq!(kitty, Kitty { dna: [4; 16], name: [b't', b'o', b'm', b'!', 0, 0, 0, 0] });
}

#[test]
fn migration_from_version_zero_upgrades_every_kitty() {
    let stored = vec![(3, V0Kitty([1; 16])), (0, V0Kitty([2; 16]))];
    let upgraded = migrate(0, 1, &stored).unwrap();
    assert_eq!(
        upgraded,
        vec![
            (3, Kitty { dna: [1; 16], name: *b"abcdxxxx" }),
            (0, Kitty { dna: [2; 16], name: *b"abcdxxxx" }),
        ]
    );
    assert_eq!(migrate(0, 1, &Vec::new()), Some(Vec::new()));
}

#[test]
fn migration_leaves_other_versions_alone() {
    let stored = vec![(3, V0Kitty([1; 16]))];
    assert_eq!(migrate(1, 1, &stored), None);
    assert_eq!(migrate(0, 2, &stored), None);
    assert_eq!(migrate(1, 2, &stored), None);
    assert_eq!(migrate(0, 0, &stored), None);
}

#[test]
fn migrating_twice_writes_the_same_kitties() {
    let stored = vec![(3, V0Kitty([1; 16])), (0, V0Kitty([2; 16])), (8, V0Kitty([0xEE; 16]))];
    let first = migrate(0, 1, &stored).unwrap();
    let read_back: Vec<(u32, V0Kitty)> = first.iter().map(|(id, kitty)| (*id, V0Kitty(kitty.dna))).collect();
    let second = migrate(0, 1, &read_back).unwrap();
    assert_eq!(second, first);
}
