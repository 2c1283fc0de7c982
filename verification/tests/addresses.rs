//! The deterministic address derivation, exercised on concrete identities.

use favorites::addr::{derive_favorites_address, Address};

fn ident(tag: u8) -> Address {
    Address::new(vec![tag; 32])
}

#[test]
fn derivation_is_stable() {
    let a = derive_favorites_address(&ident(1));
    let b = derive_favorites_address(&ident(1));
    assert!(a == b);
}

#[test]
fn derivation_is_collision_free_across_identities() {
    let identities = [ident(0), ident(1), ident(2), ident(7), ident(255)];
    for i in 0..identities.len() {
        for j in 0..identities.len() {
            let derived_i = derive_favorites_address(&identities[i]);
            let derived_j = derive_favorites_address(&identities[j]);
            if i == j {
                assert!(derived_i == derived_j);
            } else {
                assert!(derived_i != derived_j);
            }
        }
    }
}

#[test]
fn derivation_really_digests_its_input() {
    let user = ident(9);
    let derived = derive_favorites_address(&user);
    assert_eq!(derived.bytes().len(), 32);
    assert!(derived != user);
    let raw_tag = Address::new(b"favorites".to_vec());
    assert!(derived != raw_tag);
}
