use blog_api::errors::AppError;
use blog_api::models::GenerateWalletsRequest;
use blog_api::wallet::{generate_wallets, wallet_from_key, wallets_from_keys};

fn is_lower_hex(s: &str) -> bool {
    s.chars().all(|c| c.is_ascii_digit() || ('a'..='f').contains(&c))
}

#[test]
fn generates_requested_number_of_wallets() {
    let r = generate_wallets(&GenerateWalletsRequest { count: 3 }).unwrap();
    assert_eq!(r.count, 3);
    assert_eq!(r.wallets.len(), 3);
    for w in &r.wallets {
        assert_eq!(w.address.len(), 42);
        assert!(w.address.starts_with("0x"));
        assert!(is_lower_hex(&w.address[2..]));
        assert_eq!(w.private_key.len(), 64);
        assert!(is_lower_hex(&w.private_key));
    }
    assert_ne!(r.wallets[0].private_key, r.wallets[1].private_key);
    assert_ne!(r.wallets[0].address, r.wallets[1].address);
}

#[test]
fn single_wallet() {
    let r = generate_wallets(&GenerateWalletsRequest { count: 1 }).unwrap();
    assert_eq!(r.wallets.len(), 1);
}

#[test]
fn zero_or_too_many_wallets_rejected() {
    assert!(matches!(
        generate_wallets(&GenerateWalletsRequest { count: 0 }),
        Err(AppError::ValidationError(_))
    ));
    let e = generate_wallets(&GenerateWalletsRequest { count: 10001 }).unwrap_err();
    assert!(e.to_string().starts_with("Validation error: "));
}

#[test]
fn wallet_of_known_key() {
    let mut key = vec![0u8; 32];
    key[31] = 1;
    let w = wallet_from_key(&key).unwrap();
    assert_eq!(w.private_key, format!("{}01", "0".repeat(62)));
    assert_eq!(w.address, "0x7e5f4552091a69125d5dfcb7b8c2659029395bdf");
}

#[test]
fn zero_key_has_no_wallet() {
    assert!(wallet_from_key(&vec![0u8; 32]).is_none());
    let mut one = vec![0u8; 32];
    one[31] = 1;
    assert!(wallets_from_keys(&vec![one.clone(), vec![0u8; 32]]).is_none());
    let ws = wallets_from_keys(&vec![one.clone(), one]).unwrap();
    assert_eq!(ws.len(), 2);
    assert_eq!(ws[0].address, ws[1].address);
}
