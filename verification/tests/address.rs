use oracle_callback::address::find_user_address;
use solana_program::pubkey::Pubkey;

#[test]
fn user_address_known_vector() {
    let found = find_user_address(&[1u8; 32], &[2u8; 32]);
    assert_eq!(
        found,
        Some((
            [
                227, 98, 177, 131, 197, 194, 65, 45, 251, 223, 195, 186, 44, 213, 154, 80, 214,
                93, 181, 114, 147, 25, 65, 178, 249, 105, 104, 144, 215, 198, 216, 134
            ],
            254
        ))
    );
}

#[test]
fn user_address_is_the_ledgers_derivation() {
    let identity: [u8; 32] = [3u8; 32];
    let program: [u8; 32] = [2u8; 32];
    let (address, bump) =
        Pubkey::find_program_address(&[b"user", &identity], &Pubkey::new_from_array(program));
    assert_eq!(
        find_user_address(&identity, &program),
        Some((address.to_bytes(), bump))
    );
    assert_eq!(bump, 252);
}

#[test]
fn user_address_is_neither_identity_nor_program() {
    let identity: [u8; 32] = [1u8; 32];
    let program: [u8; 32] = [2u8; 32];
    let (address, _) = find_user_address(&identity, &program).unwrap();
    assert_ne!(address, identity);
    assert_ne!(address, program);
}

#[test]
fn user_address_depends_on_identity_and_program() {
    let a = find_user_address(&[1u8; 32], &[2u8; 32]).unwrap();
    let b = find_user_address(&[3u8; 32], &[2u8; 32]).unwrap();
    let c = find_user_address(&[1u8; 32], &[9u8; 32]).unwrap();
    assert_ne!(a.0, b.0);
    assert_ne!(a.0, c.0);
    assert_eq!(find_user_address(&[1u8; 32], &[2u8; 32]).unwrap(), a);
}

#[test]
fn user_address_of_the_zero_identity() {
    let found = find_user_address(&[0u8; 32], &[0u8; 32]);
    assert_eq!(
        found,
        Some((
            [
                92, 158, 171, 114, 241, 156, 148, 148, 197, 73, 89, 181, 93, 116, 166, 2, 190,
                72, 41, 177, 173, 183, 33, 218, 2, 46, 113, 144, 182, 247, 33, 86
            ],
            255
        ))
    );
}
