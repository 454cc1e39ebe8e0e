use escrow::{derive_escrow_address, find_escrow_address, signer_seeds, Address};

fn program() -> Address {
    Address::new([9u8; 32])
}

fn key(byte: u8) -> Address {
    Address::new([byte; 32])
}

#[test]
fn the_address_of_a_known_escrow() {
    // SHA-256 of "escrow", 32 bytes of 1, 32 bytes of 2, 7 as eight bytes least
    // significant first, the bump seed 255, 32 bytes of 9, "ProgramDerivedAddress"
    let expected: [u8; 32] = [
        206, 241, 44, 72, 193, 92, 177, 208, 235, 114, 26, 55, 49, 83, 103, 222, 88, 113, 76, 97, 17,
        77, 119, 254, 24, 245, 137, 110, 86, 57, 154, 189,
    ];
    let (address, bump) = find_escrow_address(&program(), &key(1), &key(2), 7).unwrap();
    assert_eq!(address.to_bytes(), expected);
    assert_eq!(bump, 255);
    assert_eq!(derive_escrow_address(&program(), &key(1), &key(2), 7, 255), Some(Address::new(expected)));
}

#[test]
fn the_address_is_found_again_from_the_bump() {
    for escrow_id in [0u64, 1, 7, 255, 256, 65_536, u64::MAX] {
        let (address, bump) = find_escrow_address(&program(), &key(1), &key(2), escrow_id).unwrap();
        assert_eq!(derive_escrow_address(&program(), &key(1), &key(2), escrow_id, bump), Some(address));
    }
}

#[test]
fn the_address_depends_on_every_key() {
    let (base, _) = find_escrow_address(&program(), &key(1), &key(2), 7).unwrap();
    assert_eq!(find_escrow_address(&program(), &key(1), &key(2), 7).unwrap().0, base);
    assert_ne!(find_escrow_address(&program(), &key(1), &key(2), 8).unwrap().0, base);
    assert_ne!(find_escrow_address(&program(), &key(2), &key(1), 7).unwrap().0, base);
    assert_ne!(find_escrow_address(&program(), &key(3), &key(2), 7).unwrap().0, base);
    assert_ne!(find_escrow_address(&program(), &key(1), &key(3), 7).unwrap().0, base);
    assert_ne!(find_escrow_address(&key(8), &key(1), &key(2), 7).unwrap().0, base);
    assert_ne!(find_escrow_address(&program(), &key(1), &key(2), 7 << 8).unwrap().0, base);
    assert_ne!(base, program());
    assert_ne!(base, key(1));
    assert_ne!(base, key(2));
}

#[test]
fn a_bump_that_leads_onto_the_curve_gives_no_address() {
    assert_eq!(derive_escrow_address(&program(), &key(1), &key(2), 7, 254), None);
    assert_eq!(derive_escrow_address(&program(), &key(1), &key(2), 7, 3), None);
}

#[test]
fn another_bump_gives_another_address() {
    let (base, bump) = find_escrow_address(&program(), &key(1), &key(2), 7).unwrap();
    let mut others = 0;
    for other in 0..=255u8 {
        if other != bump {
            if let Some(address) = derive_escrow_address(&program(), &key(1), &key(2), 7, other) {
                assert_ne!(address, base);
                others += 1;
            }
        }
    }
    assert!(others > 0);
}

#[test]
fn addresses_compare_by_their_bytes() {
    let mut bytes = [5u8; 32];
    let a = Address::new(bytes);
    assert_eq!(a, Address::new([5u8; 32]));
    assert_eq!(a.to_bytes(), [5u8; 32]);
    assert_eq!(a.to_vec(), vec![5u8; 32]);
    bytes[31] = 6;
    assert_ne!(a, Address::new(bytes));
    bytes[31] = 5;
    bytes[0] = 6;
    assert_ne!(a, Address::new(bytes));
    let mut counted = [0u8; 32];
    for (i, byte) in counted.iter_mut().enumerate() {
        *byte = i as u8;
    }
    assert_eq!(Address::new(counted).to_vec(), (0..32u8).collect::<Vec<u8>>());
}

#[test]
fn the_seeds_of_a_record() {
    let seeds = signer_seeds(&key(1), &key(2), 0x0807_0605_0403_0201, 254);
    assert_eq!(seeds.len(), 5);
    assert_eq!(seeds[0], b"escrow".to_vec());
    assert_eq!(seeds[1], vec![1u8; 32]);
    assert_eq!(seeds[2], vec![2u8; 32]);
    assert_eq!(seeds[3], vec![1u8, 2, 3, 4, 5, 6, 7, 8]);
    assert_eq!(seeds[4], vec![254u8]);
    assert_eq!(signer_seeds(&key(1), &key(2), 7, 0)[3], vec![7u8, 0, 0, 0, 0, 0, 0, 0]);
}
