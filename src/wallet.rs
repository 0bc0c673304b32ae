use vstd::prelude::*;
use vstd::string::StringExecFns;

use crate::errors::AppError;
use crate::hex_text::{lemma_lower_hex_injective, lemma_lower_hex_len, lower_hex, to_lower_hex};
use crate::models::{GenerateWalletsRequest, GenerateWalletsResponse, WalletInfo, MAX_WALLETS, MIN_WALLETS};

verus! {

/// The 20-byte Ethereum address of the secp256k1 key whose secret scalar is
/// `key` (big-endian), or `None` when `key` is not a valid secret key.
pub uninterp spec fn key_address(key: Seq<u8>) -> Option<Seq<u8>>;

/// Whether `w` is the wallet of the secret key `key`: its private key is
/// the lowercase hex of `key`, and its address is `0x` followed by the
/// lowercase hex of the address derived from `key`.
pub open spec fn wallet_of(w: WalletInfo, key: Seq<u8>) -> bool {
    &&& key_address(key) matches Some(a)
    &&& w.private_key@ == lower_hex(key)
    &&& w.address@ == "0x"@ + lower_hex(a)
}

/// Whether `w` has the shape of an Ethereum wallet: an address of `0x` and
/// 40 hex digits, a private key of 64 hex digits.
pub open spec fn well_formed_wallet(w: WalletInfo) -> bool {
    &&& w.address@.len() == 42
    &&& w.address@.subrange(0, 2) == "0x"@
    &&& w.private_key@.len() == 64
}

/// A fresh random secret key.
///
/// Relies on `k256::ecdsa::SigningKey::random` with `rand::thread_rng` and
/// `SigningKey::to_bytes`: 32 bytes of a non-zero scalar below the curve
/// order, which `SigningKey::from_slice` accepts back. Nothing else is
/// promised of the random value.
#[verifier::external_body]
fn random_key() -> (r: Vec<u8>)
    ensures
        r@.len() == 32,
        key_address(r@) is Some,
{
    ethers_core::k256::ecdsa::SigningKey::random(&mut rand::thread_rng()).to_bytes().to_vec()
}

/// Relies on `k256::ecdsa::SigningKey::from_slice` and
/// `ethers_core::utils::secret_key_to_address`: the address depends on the
/// key alone and is 20 bytes.
#[verifier::external_body]
fn address_of_key(key: &Vec<u8>) -> (r: Option<Vec<u8>>)
    ensures
        match r {
            Some(a) => key_address(key@) == Some(a@) && a@.len() == 20,
            None => key_address(key@) is None,
        },
{
    ethers_core::k256::ecdsa::SigningKey::from_slice(key).ok().map(
        |k| ethers_core::utils::secret_key_to_address(&k).as_bytes().to_vec(),
    )
}

/// The wallet of the secret key `key`; `None` when `key` is not a valid
/// secret key.
pub fn wallet_from_key(key: &Vec<u8>) -> (r: Option<WalletInfo>)
    ensures
        match r {
            Some(w) => wallet_of(w, key@),
            None => key_address(key@) is None,
        },
        r matches Some(w) ==> (key@.len() == 32 ==> well_formed_wallet(w)),
{
    let address = match address_of_key(key) {
        Some(a) => a,
        None => return None,
    };
    let private_key = to_lower_hex(key);
    let address_hex = to_lower_hex(&address);
    let w = WalletInfo { address: "0x".to_owned().concat(address_hex.as_str()), private_key };
    proof {
        lemma_lower_hex_len(key@);
        lemma_lower_hex_len(address@);
        reveal_strlit("0x");
        assert(w.address@.subrange(0, 2) =~= "0x"@);
    }
    Some(w)
}

/// The wallets of `keys`, in order; `None` when one of them is not a valid
/// secret key.
pub fn wallets_from_keys(keys: &Vec<Vec<u8>>) -> (r: Option<Vec<WalletInfo>>)
    ensures
        r is Some <==> forall|i: int| 0 <= i < keys@.len() ==> (#[trigger] key_address(keys@[i]@)) is Some,
        r matches Some(ws) ==> ws@.len() == keys@.len() && forall|i: int|
            0 <= i < keys@.len() ==> wallet_of(#[trigger] ws@[i], keys@[i]@) && (keys@[i]@.len() == 32
                ==> well_formed_wallet(ws@[i])),
{
    let mut wallets: Vec<WalletInfo> = Vec::new();
    let mut i: usize = 0;
    while i < keys.len()
        invariant
            i <= keys@.len(),
            wallets@.len() == i,
            forall|j: int|
                0 <= j < i ==> wallet_of(#[trigger] wallets@[j], keys@[j]@) && (keys@[j]@.len() == 32
                    ==> well_formed_wallet(wallets@[j])),
        decreases keys@.len() - i,
    {
        match wallet_from_key(&keys[i]) {
            Some(w) => wallets.push(w),
            None => return None,
        }
        i = i + 1;
    }
    assert forall|i: int| 0 <= i < keys@.len() implies (#[trigger] key_address(keys@[i]@)) is Some by {
        assert(wallet_of(wallets@[i], keys@[i]@));
    }
    Some(wallets)
}

/// Wallets of distinct keys have distinct private keys.
pub proof fn lemma_distinct_keys_distinct_private_keys(w1: WalletInfo, k1: Seq<u8>, w2: WalletInfo, k2: Seq<u8>)
    requires
        wallet_of(w1, k1),
        wallet_of(w2, k2),
        k1 != k2,
    ensures
        w1.private_key@ != w2.private_key@,
{
    if w1.private_key@ == w2.private_key@ {
        lemma_lower_hex_injective(k1, k2);
    }
}

/// Generates `request.count` wallets, each from a freshly drawn random key,
/// after checking that the count lies between 1 and 10000.
pub fn generate_wallets(request: &GenerateWalletsRequest) -> (r: Result<GenerateWalletsResponse, AppError>)
    ensures
        r is Ok <==> MIN_WALLETS <= request.count <= MAX_WALLETS,
        r matches Err(e) ==> (e matches AppError::ValidationError(m) && m@ == "count"@),
        r matches Ok(resp) ==> resp.count == request.count && resp.wallets@.len() == request.count,
        r matches Ok(resp) ==> forall|i: int|
            0 <= i < resp.wallets@.len() ==> well_formed_wallet(#[trigger] resp.wallets@[i]) && exists|
                k: Seq<u8>,
            |
                k.len() == 32 && wallet_of(resp.wallets@[i], k),
{
    request.validate()?;
    let mut keys: Vec<Vec<u8>> = Vec::new();
    let mut made: u32 = 0;
    while made < request.count
        invariant
            made <= request.count,
            keys@.len() == made,
            forall|i: int|
                0 <= i < keys@.len() ==> (#[trigger] keys@[i])@.len() == 32 && key_address(
                    keys@[i]@,
                ) is Some,
        decreases request.count - made,
    {
        keys.push(random_key());
        made = made + 1;
    }
    let wallets = match wallets_from_keys(&keys) {
        Some(ws) => ws,
        None => {
            assert(false);
            return Err(AppError::InternalError);
        },
    };
    assert forall|i: int| 0 <= i < wallets@.len() implies well_formed_wallet(
        #[trigger] wallets@[i],
    ) && exists|k: Seq<u8>| k.len() == 32 && wallet_of(wallets@[i], k) by {
        let k = keys@[i]@;
        assert(k.len() == 32 && wallet_of(wallets@[i], k));
    }
    Ok(GenerateWalletsResponse { count: request.count, wallets })
}

} // verus!
