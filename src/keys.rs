use vstd::prelude::*;

use crate::contract_id::text_view;
use crate::error::LavaErrors;
use bdk_wallet::bitcoin::bip32::{ChildNumber, DerivationPath, Xpriv, Xpub};
use bdk_wallet::bitcoin::secp256k1::Secp256k1;
use bdk_wallet::bitcoin::{Address, CompressedPublicKey, Network};
use bip39::rand_core::{OsRng, RngCore};
use bip39::{Language, Mnemonic};
use ed25519_dalek_bip32::{ChildIndex, ExtendedSigningKey};
use solana_sdk::signature::keypair_from_seed;
use solana_sdk::signer::Signer;
use std::str::FromStr;

verus! {

/// The 64-byte seed that a mnemonic phrase and passphrase stretch to; `None`
/// where the phrase is not a valid mnemonic.
pub uninterp spec fn mnemonic_seed_of(phrase: Seq<char>, passphrase: Seq<char>) -> Option<Seq<u8>>;

/// The English mnemonic phrase that encodes 16 bytes of entropy.
pub uninterp spec fn mnemonic_of_entropy(entropy: Seq<u8>) -> Seq<char>;

/// The 78-byte encoding of the test-network master key of a seed.
pub uninterp spec fn btc_master_of(seed: Seq<u8>) -> Option<Seq<u8>>;

/// The child numbers (hardened bit included) of a BIP32 path in text form.
pub uninterp spec fn btc_path_of(path: Seq<char>) -> Option<Seq<u32>>;

/// The 78-byte encoding of the key reached from an encoded key along a path.
pub uninterp spec fn btc_child_of(key: Seq<u8>, path: Seq<u32>) -> Option<Seq<u8>>;

/// The 33-byte compressed public key of an encoded private key.
pub uninterp spec fn btc_pubkey_of(key: Seq<u8>) -> Option<Seq<u8>>;

/// The test-network native segwit (P2WPKH) address of a compressed public key.
pub uninterp spec fn btc_p2wpkh_of(pubkey: Seq<u8>) -> Option<Seq<char>>;

/// The steps (as `to_bits` values) of an ed25519 BIP32 path in text form.
pub uninterp spec fn ed25519_path_of(path: Seq<char>) -> Option<Seq<u32>>;

/// The 32-byte ed25519 signing key reached from a seed along a path.
pub uninterp spec fn ed25519_secret_of(seed: Seq<u8>, path: Seq<u32>) -> Option<Seq<u8>>;

/// The base58 text of the Solana public key of a 32-byte secret.
pub uninterp spec fn solana_pubkey_of(secret: Seq<u8>) -> Seq<char>;

/// Bytes of entropy in a fresh mnemonic (128 bits).
pub const ENTROPY_BYTES: usize = 16;

/// Words in a fresh mnemonic.
pub const MNEMONIC_WORDS: usize = 12;

/// The deepest key that a BIP32 extended key can reach (its depth is a byte).
pub const MAX_BTC_DEPTH: usize = 255;

/// A letter of the English mnemonic word list.
pub open spec fn is_word_char(c: char) -> bool {
    'a' <= c && c <= 'z'
}

/// `s` is `n` words of lowercase letters joined by single spaces, with no
/// space at either end.
pub open spec fn is_phrase(s: Seq<char>, n: nat) -> bool {
    &&& s.len() > 0
    &&& s[0] != ' '
    &&& s[s.len() - 1] != ' '
    &&& forall|i: int| 0 <= i < s.len() ==> #[trigger] s[i] == ' ' || is_word_char(s[i])
    &&& forall|i: int| 0 <= i < s.len() - 1 ==> !(#[trigger] s[i] == ' ' && s[i + 1] == ' ')
    &&& s.filter(|c: char| c == ' ').len() + 1 == n
}

/// The bit that marks a hardened derivation step.
pub const HARDENED_BIT: u32 = 0x8000_0000;

/// The deepest key that an ed25519 extended key can reach (its depth is a `u8`).
pub const MAX_ED25519_DEPTH: usize = 255;

pub open spec fn bytes_view(o: Option<Vec<u8>>) -> Option<Seq<u8>> {
    match o {
        Some(v) => Some(v@),
        None => None,
    }
}

pub open spec fn steps_view(o: Option<Vec<u32>>) -> Option<Seq<u32>> {
    match o {
        Some(v) => Some(v@),
        None => None,
    }
}

/// Relies on bip39's `Mnemonic::parse` (all checks of the word list and its
/// checksum) and `Mnemonic::to_seed` (the standard stretching function).
#[verifier::external_body]
fn mnemonic_seed(phrase: &str, passphrase: &str) -> (r: Option<Vec<u8>>)
    ensures
        bytes_view(r) == mnemonic_seed_of(phrase@, passphrase@),
        r matches Some(s) ==> s@.len() == 64,
{
    Mnemonic::parse(phrase).ok().map(|m| m.to_seed(passphrase).to_vec())
}

/// Relies on rand_core's `OsRng::try_fill_bytes` (as bip39 re-exports it):
/// `len` bytes from the operating system's random source, or `None` where
/// that source fails.
#[verifier::external_body]
fn draw_entropy(len: usize) -> (r: Option<Vec<u8>>)
    ensures
        r matches Some(e) ==> e@.len() == len,
{
    let mut buf = vec![0u8; len];
    OsRng.try_fill_bytes(&mut buf).ok().map(|_| buf)
}

/// Relies on bip39's `Mnemonic::from_entropy_in` (English; 16 bytes of
/// entropy are accepted and give 12 words of the lowercase English list) and
/// its `Display` (the words joined by single spaces). The phrase depends on the
/// entropy alone and parses back as a valid mnemonic.
#[verifier::external_body]
fn mnemonic_from_entropy(entropy: &Vec<u8>) -> (r: Option<String>)
    requires
        entropy@.len() == ENTROPY_BYTES,
    ensures
        r is Some,
        r matches Some(m) ==> m@ == mnemonic_of_entropy(entropy@),
        r matches Some(m) ==> is_phrase(m@, MNEMONIC_WORDS as nat),
        r matches Some(m) ==> forall|p: Seq<char>| #[trigger] mnemonic_seed_of(m@, p) is Some,
{
    Mnemonic::from_entropy_in(Language::English, entropy).ok().map(|m| m.to_string())
}

/// Relies on bitcoin's `Xpriv::new_master` for the test network; the key is
/// carried in its `encode` form.
#[verifier::external_body]
fn btc_master_key(seed: &[u8]) -> (r: Option<Vec<u8>>)
    ensures
        bytes_view(r) == btc_master_of(seed@),
        r matches Some(k) ==> k@.len() == 78 && k@[4] == 0,
{
    Xpriv::new_master(Network::Testnet, seed).ok().map(|k| k.encode().to_vec())
}

/// Relies on bitcoin's `DerivationPath::from_str`; each step is carried as
/// its `u32` form.
#[verifier::external_body]
fn parse_btc_path(path: &str) -> (r: Option<Vec<u32>>)
    ensures
        steps_view(r) == btc_path_of(path@),
{
    DerivationPath::from_str(path).ok().map(|p| p.into_iter().map(|c| u32::from(*c)).collect())
}

/// Relies on bitcoin's `Xpriv::derive_priv`, on a key in `encode` form (its
/// byte 4 is the depth); each step adds one to the depth and fails past 255.
#[verifier::external_body]
fn btc_child_key(key: &Vec<u8>, path: &Vec<u32>) -> (r: Option<Vec<u8>>)
    ensures
        bytes_view(r) == btc_child_of(key@, path@),
        key@.len() == 78 && key@[4] + path@.len() > MAX_BTC_DEPTH ==> r is None,
{
    let parent = Xpriv::decode(key).ok()?;
    let steps: Vec<ChildNumber> = path.iter().map(|n| ChildNumber::from(*n)).collect();
    parent.derive_priv(&Secp256k1::new(), &steps).ok().map(|k| k.encode().to_vec())
}

/// Relies on bitcoin's `Xpub::from_priv`, on a key in `encode` form; the
/// public key is carried in its 33-byte compressed form.
#[verifier::external_body]
fn btc_public_key(key: &Vec<u8>) -> (r: Option<Vec<u8>>)
    ensures
        bytes_view(r) == btc_pubkey_of(key@),
{
    let child = Xpriv::decode(key).ok()?;
    Some(Xpub::from_priv(&Secp256k1::new(), &child).to_pub().to_bytes().to_vec())
}

/// Relies on bitcoin's `Address::p2wpkh` for the test network, written out
/// as text: bech32 with the `tb` prefix, witness version 0 (`q`) and a
/// 20-byte program, 42 characters in all.
#[verifier::external_body]
fn btc_p2wpkh_address(pubkey: &Vec<u8>) -> (r: Option<String>)
    ensures
        text_view(r) == btc_p2wpkh_of(pubkey@),
        r matches Some(a) ==> a@.len() == 42 && a@.subrange(0, 4) == "tb1q"@,
{
    let public = CompressedPublicKey::from_slice(pubkey).ok()?;
    Some(Address::p2wpkh(&public, Network::Testnet).to_string())
}

/// Relies on ed25519_dalek_bip32's `DerivationPath::from_str`; each step is
/// carried as `ChildIndex::to_bits`.
#[verifier::external_body]
fn parse_ed25519_path(path: &str) -> (r: Option<Vec<u32>>)
    ensures
        steps_view(r) == ed25519_path_of(path@),
{
    ed25519_dalek_bip32::DerivationPath::from_str(path).ok().map(
        |p| p.path().iter().map(|c| c.to_bits()).collect(),
    )
}

/// Relies on ed25519_dalek_bip32's `ExtendedSigningKey::from_seed` and
/// `derive`: the 32 bytes of the signing key reached; `derive` refuses a step
/// without the hardened bit. Each step adds one to a `u8` depth.
#[verifier::external_body]
fn ed25519_derive(seed: &[u8], path: &Vec<u32>) -> (r: Option<Vec<u8>>)
    requires
        path@.len() <= MAX_ED25519_DEPTH,
    ensures
        bytes_view(r) == ed25519_secret_of(seed@, path@),
        r matches Some(k) ==> k@.len() == 32,
        r matches Some(k) ==> forall|i: int| 0 <= i < path@.len() ==> path@[i] >= HARDENED_BIT,
{
    let steps: Vec<ChildIndex> = path.iter().map(|b| ChildIndex::from_bits(*b)).collect();
    let root = ExtendedSigningKey::from_seed(seed).ok()?;
    root.derive(&steps).ok().map(|k| k.signing_key.to_bytes().to_vec())
}

/// Relies on solana_sdk's `keypair_from_seed` (refuses fewer than 32 bytes,
/// reads the first 32) and `Signer::pubkey`, written in base58.
#[verifier::external_body]
fn solana_pubkey(secret: &[u8]) -> (r: Option<String>)
    ensures
        r is Some <==> secret@.len() >= 32,
        r matches Some(p) ==> p@ == solana_pubkey_of(secret@),
{
    keypair_from_seed(secret).ok().map(|k| k.pubkey().to_string())
}

/// A segment of a path ends at index `i` (at a `/` or at the end), is not the
/// leading `m`, and lacks the hardened mark `'`.
pub open spec fn unhardened_segment_at(s: Seq<char>, i: int) -> bool {
    &&& 0 < i <= s.len()
    &&& (i == s.len() || s[i] == '/')
    &&& s[i - 1] != '\''
    &&& exists|j: int| 0 <= j < i && s[j] == '/'
}

/// Some step of the path is not marked hardened.
pub open spec fn has_unhardened_segment(s: Seq<char>) -> bool {
    exists|i: int| unhardened_segment_at(s, i)
}

/// The seed of a mnemonic phrase, or why there is none.
pub open spec fn seed_spec(phrase: Seq<char>, passphrase: Seq<char>) -> Result<Seq<u8>, LavaErrors> {
    match mnemonic_seed_of(phrase, passphrase) {
        Some(s) => Ok(s),
        None => Err(LavaErrors::InvalidMnemonic),
    }
}

/// The test-network segwit address at `path` below `seed`, or why there is none.
pub open spec fn btc_address_spec(seed: Seq<u8>, path: Seq<char>) -> Result<Seq<char>, LavaErrors> {
    match btc_path_of(path) {
        None => Err(LavaErrors::InvalidPath),
        Some(steps) => match btc_master_of(seed) {
            None => Err(LavaErrors::DerivationFailure),
            Some(master) => match btc_child_of(master, steps) {
                None => Err(LavaErrors::DerivationFailure),
                Some(child) => match btc_pubkey_of(child) {
                    None => Err(LavaErrors::DerivationFailure),
                    Some(pubkey) => match btc_p2wpkh_of(pubkey) {
                        None => Err(LavaErrors::DerivationFailure),
                        Some(address) => Ok(address),
                    },
                },
            },
        },
    }
}

/// The ed25519 secret at `path` below `seed`, or why there is none.
pub open spec fn solana_secret_spec(seed: Seq<u8>, path: Seq<char>) -> Result<Seq<u8>, LavaErrors> {
    if has_unhardened_segment(path) {
        Err(LavaErrors::InvalidPath)
    } else {
        match ed25519_path_of(path) {
            None => Err(LavaErrors::InvalidPath),
            Some(steps) => if steps.len() > MAX_ED25519_DEPTH {
                Err(LavaErrors::DerivationFailure)
            } else {
                match ed25519_secret_of(seed, steps) {
                    None => Err(LavaErrors::DerivationFailure),
                    Some(k) => Ok(k),
                }
            },
        }
    }
}

/// A derived Solana key pair: the 32-byte secret it was made from, and its
/// public key in base58.
pub struct SolanaKeypair {
    pub secret: Vec<u8>,
    pub pubkey: String,
}

/// The key pair that `derive_solana_keypair` yields for a seed and path.
pub open spec fn solana_keypair_matches(
    r: Result<SolanaKeypair, LavaErrors>,
    expected: Result<Seq<u8>, LavaErrors>,
) -> bool {
    match expected {
        Ok(k) => r matches Ok(kp) && kp.secret@ == k && kp.pubkey@ == solana_pubkey_of(k),
        Err(e) => r matches Err(f) && f == e,
    }
}

pub open spec fn text_result(r: Result<String, LavaErrors>) -> Result<Seq<char>, LavaErrors> {
    match r {
        Ok(s) => Ok(s@),
        Err(e) => Err(e),
    }
}

pub open spec fn bytes_result(r: Result<Vec<u8>, LavaErrors>) -> Result<Seq<u8>, LavaErrors> {
    match r {
        Ok(s) => Ok(s@),
        Err(e) => Err(e),
    }
}

/// The 12-word English mnemonic that encodes `entropy`; entropy of any
/// length but 16 bytes is refused with `GenerationFailure`.
pub fn mnemonic_from_entropy_bytes(entropy: &Vec<u8>) -> (r: Result<String, LavaErrors>)
    ensures
        r is Ok <==> entropy@.len() == ENTROPY_BYTES,
        r matches Ok(m) ==> m@ == mnemonic_of_entropy(entropy@),
        r matches Ok(m) ==> is_phrase(m@, MNEMONIC_WORDS as nat),
        r matches Ok(m) ==> forall|p: Seq<char>| #[trigger] mnemonic_seed_of(m@, p) is Some,
        r matches Err(e) ==> e == LavaErrors::GenerationFailure,
{
    if entropy.len() != ENTROPY_BYTES {
        return Err(LavaErrors::GenerationFailure);
    }
    match mnemonic_from_entropy(entropy) {
        Some(m) => Ok(m),
        None => Err(LavaErrors::GenerationFailure),
    }
}

/// Makes a fresh 12-word English mnemonic from 128 bits of the operating
/// system's random source; `GenerationFailure` where that source fails. What
/// the phrase is for each drawn value is `mnemonic_from_entropy_bytes`.
pub fn create_a_new_mnemonic() -> (r: Result<String, LavaErrors>)
    ensures
        r matches Ok(m) ==> exists|e: Seq<u8>|
            e.len() == ENTROPY_BYTES && m@ == #[trigger] mnemonic_of_entropy(e),
        r matches Ok(m) ==> is_phrase(m@, MNEMONIC_WORDS as nat),
        r matches Ok(m) ==> forall|p: Seq<char>| #[trigger] mnemonic_seed_of(m@, p) is Some,
        r matches Err(e) ==> e == LavaErrors::GenerationFailure,
{
    let entropy = match draw_entropy(ENTROPY_BYTES) {
        Some(e) => e,
        None => return Err(LavaErrors::GenerationFailure),
    };
    mnemonic_from_entropy_bytes(&entropy)
}

/// Stretches a mnemonic phrase and passphrase into its 64-byte seed.
pub fn mnemonic_to_seed(phrase: &str, passphrase: &str) -> (r: Result<Vec<u8>, LavaErrors>)
    ensures
        bytes_result(r) == seed_spec(phrase@, passphrase@),
        r matches Ok(s) ==> s@.len() == 64,
{
    match mnemonic_seed(phrase, passphrase) {
        Some(s) => Ok(s),
        None => Err(LavaErrors::InvalidMnemonic),
    }
}

/// The native segwit address, on the test network, of the key at `path` below
/// the master key of `seed`.
pub fn create_bitcoin_address(seed: &[u8], path: &str) -> (r: Result<String, LavaErrors>)
    ensures
        text_result(r) == btc_address_spec(seed@, path@),
        r matches Ok(a) ==> a@.len() == 42 && a@.subrange(0, 4) == "tb1q"@,
        (btc_path_of(path@) matches Some(steps) && steps.len() > MAX_BTC_DEPTH) ==> (r matches Err(e)
            && e == LavaErrors::DerivationFailure),
{
    let steps = match parse_btc_path(path) {
        Some(steps) => steps,
        None => return Err(LavaErrors::InvalidPath),
    };
    let master = match btc_master_key(seed) {
        Some(k) => k,
        None => return Err(LavaErrors::DerivationFailure),
    };
    let child = match btc_child_key(&master, &steps) {
        Some(k) => k,
        None => return Err(LavaErrors::DerivationFailure),
    };
    let pubkey = match btc_public_key(&child) {
        Some(k) => k,
        None => return Err(LavaErrors::DerivationFailure),
    };
    match btc_p2wpkh_address(&pubkey) {
        Some(address) => Ok(address),
        None => Err(LavaErrors::DerivationFailure),
    }
}

/// Whether some step of `path` lacks the hardened mark.
pub fn find_unhardened_segment(path: &str) -> (r: bool)
    ensures
        r == has_unhardened_segment(path@),
{
    let n = path.unicode_len();
    let mut seen_slash = false;
    let mut prev: char = ' ';
    let mut i: usize = 0;
    while i < n
        invariant
            n == path@.len(),
            i <= n,
            seen_slash <==> exists|j: int| 0 <= j < i && path@[j] == '/',
            i > 0 ==> prev == path@[i - 1],
            forall|k: int| 0 <= k < i ==> !unhardened_segment_at(path@, k),
        decreases n - i,
    {
        let c = path.get_char(i);
        if c == '/' && seen_slash && prev != '\'' {
            assert(unhardened_segment_at(path@, i as int));
            return true;
        }
        assert(!unhardened_segment_at(path@, i as int));
        if c == '/' {
            seen_slash = true;
        }
        prev = c;
        i = i + 1;
        assert(seen_slash <==> exists|j: int| 0 <= j < i && path@[j] == '/') by {
            if c == '/' {
                assert(path@[i - 1] == '/');
            }
        }
    }
    if seen_slash && prev != '\'' {
        assert(unhardened_segment_at(path@, n as int));
        return true;
    }
    assert forall|k: int| !unhardened_segment_at(path@, k) by {
        if 0 < k && k == n {
            assert(i == n);
        }
    }
    false
}

/// The ed25519 key pair at `path` below `seed`; every step must be hardened.
pub fn derive_solana_keypair(seed: &[u8], path: &str) -> (r: Result<SolanaKeypair, LavaErrors>)
    ensures
        solana_keypair_matches(r, solana_secret_spec(seed@, path@)),
        !has_unhardened_segment(path@) ==> ((ed25519_path_of(path@) matches Some(steps)
            && steps.len() > MAX_ED25519_DEPTH) ==> (r matches Err(e) && e
            == LavaErrors::DerivationFailure)),
{
    if find_unhardened_segment(path) {
        return Err(LavaErrors::InvalidPath);
    }
    let steps = match parse_ed25519_path(path) {
        Some(steps) => steps,
        None => return Err(LavaErrors::InvalidPath),
    };
    if steps.len() > MAX_ED25519_DEPTH {
        return Err(LavaErrors::DerivationFailure);
    }
    let secret = match ed25519_derive(seed, &steps) {
        Some(k) => k,
        None => return Err(LavaErrors::DerivationFailure),
    };
    match solana_pubkey(secret.as_slice()) {
        Some(pubkey) => Ok(SolanaKeypair { secret, pubkey }),
        None => Err(LavaErrors::DerivationFailure),
    }
}

/// The Solana public key of a mnemonic (empty passphrase) at `m/44'/501'/0'/0'`.
pub open spec fn solana_pubkey_spec(mnemonic: Seq<char>) -> Result<Seq<char>, LavaErrors> {
    match seed_spec(mnemonic, ""@) {
        Err(e) => Err(e),
        Ok(seed) => match solana_secret_spec(seed, "m/44'/501'/0'/0'"@) {
            Err(e) => Err(e),
            Ok(k) => Ok(solana_pubkey_of(k)),
        },
    }
}

/// The test-network segwit address of a mnemonic (empty passphrase) at
/// `m/84'/1'/0'/0/0`.
pub open spec fn bitcoin_address_spec(mnemonic: Seq<char>) -> Result<Seq<char>, LavaErrors> {
    match seed_spec(mnemonic, ""@) {
        Err(e) => Err(e),
        Ok(seed) => btc_address_spec(seed, "m/84'/1'/0'/0/0"@),
    }
}

/// The Solana public key of a mnemonic, with an empty passphrase, on the
/// Solana path `m/44'/501'/0'/0'`.
pub fn generate_a_solana_pubkey(mnemonic: &str) -> (r: Result<String, LavaErrors>)
    ensures
        text_result(r) == solana_pubkey_spec(mnemonic@),
{
    let seed = mnemonic_to_seed(mnemonic, "")?;
    let keypair = derive_solana_keypair(seed.as_slice(), "m/44'/501'/0'/0'")?;
    Ok(keypair.pubkey)
}

/// The test-network segwit address of a mnemonic, with an empty passphrase, on
/// the path `m/84'/1'/0'/0/0`.
pub fn bitcoin_address_of_mnemonic(mnemonic: &str) -> (r: Result<String, LavaErrors>)
    ensures
        text_result(r) == bitcoin_address_spec(mnemonic@),
{
    let seed = mnemonic_to_seed(mnemonic, "")?;
    create_bitcoin_address(seed.as_slice(), "m/84'/1'/0'/0/0")
}

/// The two on-chain identities of one mnemonic.
pub struct Identity {
    pub bitcoin_address: String,
    pub solana_pubkey: String,
}

/// Derives both identities of a mnemonic; the Solana key is derived first.
pub fn derive_identity(mnemonic: &str) -> (r: Result<Identity, LavaErrors>)
    ensures
        r matches Ok(id) ==> bitcoin_address_spec(mnemonic@) == Ok::<Seq<char>, LavaErrors>(
            id.bitcoin_address@,
        ) && solana_pubkey_spec(mnemonic@) == Ok::<Seq<char>, LavaErrors>(id.solana_pubkey@),
        r matches Err(e) ==> solana_pubkey_spec(mnemonic@) == Err::<Seq<char>, LavaErrors>(e) || (
        solana_pubkey_spec(mnemonic@) is Ok && bitcoin_address_spec(mnemonic@) == Err::<
            Seq<char>,
            LavaErrors,
        >(e)),
{
    let solana_pubkey = generate_a_solana_pubkey(mnemonic)?;
    let bitcoin_address = bitcoin_address_of_mnemonic(mnemonic)?;
    Ok(Identity { bitcoin_address, solana_pubkey })
}

/// Derivation is deterministic: for one mnemonic, passphrase and paths, the
/// seed, the Bitcoin address and the Solana key pair that any two runs of
/// `mnemonic_to_seed`, `create_bitcoin_address` and `derive_solana_keypair`
/// return are the same.
pub proof fn derivation_is_deterministic(
    phrase: Seq<char>,
    passphrase: Seq<char>,
    btc_path: Seq<char>,
    sol_path: Seq<char>,
    seed1: Result<Seq<u8>, LavaErrors>,
    seed2: Result<Seq<u8>, LavaErrors>,
    addr1: Result<Seq<char>, LavaErrors>,
    addr2: Result<Seq<char>, LavaErrors>,
    sol1: Result<SolanaKeypair, LavaErrors>,
    sol2: Result<SolanaKeypair, LavaErrors>,
)
    requires
        seed1 == seed_spec(phrase, passphrase),
        seed2 == seed_spec(phrase, passphrase),
        seed1 matches Ok(s) ==> addr1 == btc_address_spec(s, btc_path),
        seed2 matches Ok(s) ==> addr2 == btc_address_spec(s, btc_path),
        seed1 matches Ok(s) ==> solana_keypair_matches(sol1, solana_secret_spec(s, sol_path)),
        seed2 matches Ok(s) ==> solana_keypair_matches(sol2, solana_secret_spec(s, sol_path)),
    ensures
        seed1 == seed2,
        seed1 is Ok ==> addr1 == addr2,
        seed1 is Ok ==> (sol1 is Ok <==> sol2 is Ok),
        seed1 is Ok ==> (sol1 matches Ok(a) ==> (sol2 matches Ok(b) ==> a.secret@ == b.secret@ && a.pubkey@ == b.pubkey@)),
        seed1 is Ok ==> (sol1 matches Err(e1) ==> (sol2 matches Err(e2) ==> e1 == e2)),
{
}

/// Ed25519 derivation never yields a key for a path with a step that is not
/// marked hardened: it fails with `InvalidPath`.
pub proof fn unhardened_path_is_rejected(seed: Seq<u8>, path: Seq<char>, r: Result<SolanaKeypair, LavaErrors>)
    requires
        has_unhardened_segment(path),
        solana_keypair_matches(r, solana_secret_spec(seed, path)),
    ensures
        r matches Err(e) && e == LavaErrors::InvalidPath,
{
}

} // verus!
