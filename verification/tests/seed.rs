use word_condenser::seed::{random_network_seed, seed_text};

#[test]
fn seed_of_a_number() {
    assert_eq!(
        seed_text(0xa1a2a3a4_b1b2_41c2_91d2_d3d4d5d6d7d8),
        "a1a2a3a4-b1b2-41c2-91d2-d3d4d5d6d7d8"
    );
    assert_eq!(seed_text(0), "00000000-0000-0000-0000-000000000000");
    assert_eq!(seed_text(u128::MAX), "ffffffff-ffff-ffff-ffff-ffffffffffff");
    assert_eq!(seed_text(0x1_0000), "00000000-0000-0000-0000-000000010000");
}

#[test]
fn seeds_differ_where_numbers_differ() {
    assert_ne!(seed_text(1), seed_text(2));
    assert_ne!(seed_text(1 << 127), seed_text(1 << 126));
}

#[test]
fn random_seed_is_a_random_uuid() {
    let seed = random_network_seed();
    let chars: Vec<char> = seed.chars().collect();
    assert_eq!(chars.len(), 36);
    for (at, c) in chars.iter().enumerate() {
        if [8, 13, 18, 23].contains(&at) {
            assert_eq!(*c, '-');
        } else {
            assert!(c.is_ascii_digit() || ('a'..='f').contains(c));
        }
    }
    assert_eq!(chars[14], '4');
    assert!(['8', '9', 'a', 'b'].contains(&chars[19]));
    assert_ne!(seed, random_network_seed());
}
