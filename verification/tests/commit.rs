use oracle_callback::account::{is_system_program, same_address};
use oracle_callback::commit::{update_commit, UpdateCommit};
use oracle_callback::{AccountRef, ProtocolError};

fn payer(is_signer: bool, is_writable: bool) -> UpdateCommit {
    UpdateCommit {
        payer: AccountRef {
            key: [1u8; 32],
            owner: [0u8; 32],
            is_signer,
            is_writable,
            executable: false,
        },
    }
}

#[test]
fn commit_with_a_signing_payer_succeeds() {
    assert_eq!(update_commit(&payer(true, true)), Ok(()));
}

#[test]
fn commit_without_signature_is_refused() {
    assert_eq!(
        update_commit(&payer(false, true)),
        Err(ProtocolError::MissingSigner)
    );
    assert_eq!(
        update_commit(&payer(false, false)),
        Err(ProtocolError::MissingSigner)
    );
}

#[test]
fn commit_with_a_read_only_payer_is_refused() {
    assert_eq!(
        update_commit(&payer(true, false)),
        Err(ProtocolError::NotWritable)
    );
}

#[test]
fn addresses_are_compared_byte_by_byte() {
    let a = [3u8; 32];
    let mut b = [3u8; 32];
    assert!(same_address(&a, &b));
    b[31] = 4;
    assert!(!same_address(&a, &b));
    b[31] = 3;
    b[0] = 0;
    assert!(!same_address(&a, &b));
}

#[test]
fn system_program_is_all_zero() {
    let mut address = [0u8; 32];
    assert!(is_system_program(&address));
    address[31] = 1;
    assert!(!is_system_program(&address));
    address[31] = 0;
    address[0] = 1;
    assert!(!is_system_program(&address));
    assert!(is_system_program(
        &solana_program::pubkey::Pubkey::default().to_bytes()
    ));
}
