use hub_mm::registry::{handler_register_user, register_user, RegisterUser};
use hub_mm::types::AccountId;

fn accounts() -> RegisterUser {
    RegisterUser {
        admin: AccountId { id: 1 },
        owner_wallet: AccountId { id: 7 },
        mint: AccountId { id: 2 },
        bump: 251,
    }
}

#[test]
fn handler_writes_every_field() {
    let mut hash = [0u8; 32];
    hash[0] = 0xab;
    hash[31] = 0xcd;
    let e = handler_register_user(&accounts(), 12_345, hash);
    assert_eq!(e.admin, AccountId { id: 1 });
    assert_eq!(e.owner_wallet, AccountId { id: 7 });
    assert_eq!(e.mint, AccountId { id: 2 });
    assert_eq!(e.created_slot, 12_345);
    assert_eq!(e.bump, 251);
    assert_eq!(e.kyc_hash, hash);
}

#[test]
fn entry_point_forwards_to_handler() {
    let unused = [0u8; 32];
    let a = handler_register_user(&accounts(), 99, unused);
    let b = register_user(&accounts(), 99, unused);
    assert_eq!(a, b);
}
