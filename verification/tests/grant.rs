use board_core::grant::Kernel;

#[test]
fn grant_capability_only_before_scheduling() {
    let mut kernel = Kernel::new();
    assert!(kernel.create_capability().is_some());

    kernel.start_scheduling();
    // Once a process could run, no further token is minted.
    assert!(kernel.create_capability().is_none());
    assert!(kernel.create_capability().is_none());
}

#[test]
fn grant_regions_get_fresh_identities() {
    let mut kernel = Kernel::new();
    let c1 = kernel.create_capability().unwrap();
    let g1 = kernel.create_grant(c1);
    let c2 = kernel.create_capability().unwrap();
    let g2 = kernel.create_grant(c2);

    assert_eq!(g1.index(), 0);
    assert_eq!(g2.index(), 1);
    assert_ne!(g1, g2);
}
