use auto_savings::{
    address_seeds, derive_address, is_derived_address, signer_seeds, Address, Namespace,
};

fn addr(b: u8) -> Address {
    Address::new([b; 32])
}

#[test]
fn seeds_carry_tag_owner_and_secondary_key() {
    assert_eq!(address_seeds(Namespace::Treasury, None, None), vec![b"treasury".to_vec()]);
    assert_eq!(
        address_seeds(Namespace::Vault, Some(addr(1)), None),
        vec![b"vault".to_vec(), vec![1u8; 32]]
    );
    assert_eq!(
        address_seeds(Namespace::TokenVault, Some(addr(1)), Some(addr(2))),
        vec![b"token_vault".to_vec(), vec![1u8; 32], vec![2u8; 32]]
    );
    assert_eq!(Namespace::UserConfig.tag(), b"config".to_vec());
    assert_eq!(Namespace::TreasuryVault.tag(), b"treasury_vault".to_vec());
    assert_eq!(Namespace::SwapConfig.tag(), b"swap_config".to_vec());
    assert_eq!(Namespace::AllocationConfig.tag(), b"allocation_config".to_vec());
}

#[test]
fn signer_seeds_end_with_the_discriminant() {
    assert_eq!(
        signer_seeds(Namespace::Vault, Some(addr(1)), None, 254),
        vec![b"vault".to_vec(), vec![1u8; 32], vec![254u8]]
    );
}

#[test]
fn derived_address_is_reproduced_from_its_discriminant() {
    let program = addr(42);
    let (vault, bump) = derive_address(&program, Namespace::Vault, Some(addr(1)), None).unwrap();
    assert!(vault != program);
    assert!(vault != addr(1));
    assert!(is_derived_address(&program, Namespace::Vault, Some(addr(1)), None, bump, &vault));
    assert!(!is_derived_address(&program, Namespace::Vault, Some(addr(2)), None, bump, &vault));
    assert!(!is_derived_address(&program, Namespace::Vault, Some(addr(1)), None, bump, &addr(1)));
}

#[test]
fn derivation_is_deterministic_and_separates_namespaces_and_owners() {
    let program = addr(42);
    let a = derive_address(&program, Namespace::Vault, Some(addr(1)), None).unwrap();
    let b = derive_address(&program, Namespace::Vault, Some(addr(1)), None).unwrap();
    assert!(a.0 == b.0 && a.1 == b.1);
    let c = derive_address(&program, Namespace::UserConfig, Some(addr(1)), None).unwrap();
    assert!(a.0 != c.0);
    let d = derive_address(&program, Namespace::Vault, Some(addr(2)), None).unwrap();
    assert!(a.0 != d.0);
    let e = derive_address(&addr(43), Namespace::Vault, Some(addr(1)), None).unwrap();
    assert!(a.0 != e.0);
}

#[test]
fn address_equality_compares_every_byte() {
    let mut bytes = [7u8; 32];
    let a = Address::new(bytes);
    bytes[31] = 8;
    let b = Address::new(bytes);
    assert!(a != b);
    assert!(a == Address::new([7u8; 32]));
    assert_eq!(a.to_vec(), vec![7u8; 32]);
}
