use p2pmidi::identity::derive_identity;

#[test]
fn identity_is_deterministic() {
    let a = derive_identity(42);
    let b = derive_identity(42);
    assert_eq!(a.seed, b.seed);
    assert_eq!(a.peer_id, b.peer_id);
}

#[test]
fn identity_is_deterministic_for_every_seed() {
    for seed in 0..=255u8 {
        let a = derive_identity(seed);
        let b = derive_identity(seed);
        assert_eq!(a.peer_id, b.peer_id);
    }
}

#[test]
fn distinct_seeds_give_distinct_identifiers() {
    let a = derive_identity(42);
    let b = derive_identity(44);
    assert_ne!(a.peer_id, b.peer_id);
}

#[test]
fn no_identifier_collisions_across_the_seed_space() {
    let ids: Vec<String> = (0..=255u8).map(|s| derive_identity(s).peer_id).collect();
    for i in 0..ids.len() {
        for j in (i + 1)..ids.len() {
            assert_ne!(ids[i], ids[j], "seeds {} and {} collided", i, j);
        }
    }
}

#[test]
fn identifier_is_nonempty_base58_text() {
    let id = derive_identity(0);
    assert!(!id.peer_id.is_empty());
    assert!(id.peer_id.chars().all(|c| c.is_ascii_alphanumeric()));
}
