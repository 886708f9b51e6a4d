use lava_loan_tester::error::LavaErrors;
use lava_loan_tester::keys::{
    bitcoin_address_of_mnemonic, create_a_new_mnemonic, mnemonic_from_entropy_bytes, create_bitcoin_address,
    derive_identity, derive_solana_keypair, find_unhardened_segment, generate_a_solana_pubkey,
    mnemonic_to_seed,
};

const ABOUT: &str = "abandon abandon abandon abandon abandon abandon abandon abandon abandon abandon abandon about";

fn hex(bytes: &[u8]) -> String {
    bytes.iter().map(|b| format!("{:02x}", b)).collect()
}

#[test]
fn seed_matches_standard_vector() {
    let seed = mnemonic_to_seed(ABOUT, "TREZOR").unwrap();
    assert_eq!(
        hex(&seed),
        "c55257c360c07c72029aebc1b53c05ed0362ada38ead3e3e9efa3708e53495531f09a6987599d18264c1e1c92f2cf141630c7a3c4ab7c81b2f001698e7463b04"
    );
}

#[test]
fn seed_depends_on_passphrase() {
    let a = mnemonic_to_seed(ABOUT, "").unwrap();
    let b = mnemonic_to_seed(ABOUT, "TREZOR").unwrap();
    assert_eq!(a.len(), 64);
    assert_ne!(a, b);
}

#[test]
fn derivation_is_repeatable() {
    let seed1 = mnemonic_to_seed(ABOUT, "").unwrap();
    let seed2 = mnemonic_to_seed(ABOUT, "").unwrap();
    assert_eq!(seed1, seed2);
    let a1 = create_bitcoin_address(&seed1, "m/84'/1'/0'/0/0").unwrap();
    let a2 = create_bitcoin_address(&seed2, "m/84'/1'/0'/0/0").unwrap();
    assert_eq!(a1, a2);
    let k1 = derive_solana_keypair(&seed1, "m/44'/501'/0'/0'").unwrap();
    let k2 = derive_solana_keypair(&seed2, "m/44'/501'/0'/0'").unwrap();
    assert_eq!(k1.secret, k2.secret);
    assert_eq!(k1.pubkey, k2.pubkey);
}

#[test]
fn generated_mnemonic_is_valid() {
    let m = create_a_new_mnemonic().unwrap();
    assert_eq!(m.split(' ').count(), 12);
    assert!(m.split(' ').all(|w| !w.is_empty() && w.chars().all(|c| c.is_ascii_lowercase())));
    assert_eq!(mnemonic_to_seed(&m, "").unwrap().len(), 64);
}

#[test]
fn generated_mnemonics_differ() {
    let a = create_a_new_mnemonic().unwrap();
    let b = create_a_new_mnemonic().unwrap();
    assert_ne!(a, b);
}

#[test]
fn mutated_mnemonic_is_rejected() {
    let mutated = "abandon abandon abandon abandon abandon abandon abandon abandon abandon abandon abandon abandon";
    assert_eq!(mnemonic_to_seed(mutated, ""), Err(LavaErrors::InvalidMnemonic));
    let unknown_word = "abandon abandon abandon abandon abandon abandon abandon abandon abandon abandon abandon aboutt";
    assert_eq!(mnemonic_to_seed(unknown_word, ""), Err(LavaErrors::InvalidMnemonic));
    assert_eq!(generate_a_solana_pubkey(mutated), Err(LavaErrors::InvalidMnemonic));
}

#[test]
fn distinct_paths_give_distinct_addresses() {
    let seed = mnemonic_to_seed(ABOUT, "").unwrap();
    let a = create_bitcoin_address(&seed, "m/84'/1'/0'/0/0").unwrap();
    let b = create_bitcoin_address(&seed, "m/84'/1'/0'/0/1").unwrap();
    let c = create_bitcoin_address(&seed, "m/84'/1'/1'/0/0").unwrap();
    assert_ne!(a, b);
    assert_ne!(a, c);
    assert_ne!(b, c);
    let s0 = derive_solana_keypair(&seed, "m/44'/501'/0'/0'").unwrap();
    let s1 = derive_solana_keypair(&seed, "m/44'/501'/1'/0'").unwrap();
    assert_ne!(s0.pubkey, s1.pubkey);
}

#[test]
fn bitcoin_address_is_testnet_segwit() {
    let seed = mnemonic_to_seed(ABOUT, "").unwrap();
    let a = create_bitcoin_address(&seed, "m/84'/1'/0'/0/0").unwrap();
    assert!(a.starts_with("tb1q"));
    assert_eq!(a.len(), 42);
}

#[test]
fn malformed_bitcoin_path_is_rejected() {
    let seed = mnemonic_to_seed(ABOUT, "").unwrap();
    assert_eq!(create_bitcoin_address(&seed, "x/84'/1'"), Err(LavaErrors::InvalidPath));
    assert_eq!(create_bitcoin_address(&seed, "m/84'/abc"), Err(LavaErrors::InvalidPath));
}

#[test]
fn unhardened_solana_path_is_rejected() {
    let seed = mnemonic_to_seed(ABOUT, "").unwrap();
    assert!(matches!(
        derive_solana_keypair(&seed, "m/44'/501'/0'/0"),
        Err(LavaErrors::InvalidPath)
    ));
    assert!(matches!(
        derive_solana_keypair(&seed, "m/44/501'/0'/0'"),
        Err(LavaErrors::InvalidPath)
    ));
    assert!(matches!(
        derive_solana_keypair(&seed, "m/44'/501'x"),
        Err(LavaErrors::InvalidPath)
    ));
}

#[test]
fn unhardened_segment_detection() {
    assert!(!find_unhardened_segment("m/44'/501'/0'/0'"));
    assert!(!find_unhardened_segment("m"));
    assert!(find_unhardened_segment("m/44'/501'/0'/0"));
    assert!(find_unhardened_segment("m/1/2'"));
    assert!(find_unhardened_segment("m/"));
}

#[test]
fn solana_secret_is_32_bytes_and_not_the_seed() {
    let seed = mnemonic_to_seed(ABOUT, "").unwrap();
    let k = derive_solana_keypair(&seed, "m/44'/501'/0'/0'").unwrap();
    assert_eq!(k.secret.len(), 32);
    assert_ne!(&k.secret[..], &seed[..32]);
    let root = derive_solana_keypair(&seed, "m").unwrap();
    assert_ne!(root.secret, k.secret);
}

#[test]
fn known_mnemonic_gives_known_bitcoin_address() {
    assert_eq!(
        bitcoin_address_of_mnemonic(ABOUT).unwrap(),
        "tb1q6rz28mcfaxtmd6v789l9rrlrusdprr9pqcpvkl"
    );
}

#[test]
fn known_mnemonic_gives_known_solana_pubkey() {
    assert_eq!(
        generate_a_solana_pubkey(ABOUT).unwrap(),
        "HAgk14JpMQLgt6rVgv7cBQFJWFto5Dqxi472uT3DKpqk"
    );
}

#[test]
fn identity_combines_both_chains() {
    let id = derive_identity(ABOUT).unwrap();
    assert_eq!(id.bitcoin_address, bitcoin_address_of_mnemonic(ABOUT).unwrap());
    assert_eq!(id.solana_pubkey, generate_a_solana_pubkey(ABOUT).unwrap());
}

#[test]
fn error_messages() {
    assert_eq!(LavaErrors::NoContractID.message(), "No contract ID found");
    assert_eq!(LavaErrors::FailedToUpdateBtcBalance.message(), "Failed to update BTC balance");
    assert_eq!(LavaErrors::FailedToUpdateSolBalance.message(), "Failed to update Sol balance");
    assert_eq!(LavaErrors::InvalidPath.message(), "Invalid derivation path");
}

#[test]
fn too_deep_paths_fail_derivation() {
    let seed = mnemonic_to_seed(ABOUT, "").unwrap();
    let btc_path = format!("m{}", "/0".repeat(256));
    assert_eq!(create_bitcoin_address(&seed, &btc_path), Err(LavaErrors::DerivationFailure));
    let sol_path = format!("m{}", "/0'".repeat(256));
    assert!(matches!(
        derive_solana_keypair(&seed, &sol_path),
        Err(LavaErrors::DerivationFailure)
    ));
    let ok_path = format!("m{}", "/0'".repeat(255));
    assert!(derive_solana_keypair(&seed, &ok_path).is_ok());
}

#[test]
fn entropy_gives_standard_phrases() {
    assert_eq!(mnemonic_from_entropy_bytes(&vec![0u8; 16]).unwrap(), ABOUT);
    assert_eq!(
        mnemonic_from_entropy_bytes(&vec![0xffu8; 16]).unwrap(),
        "zoo zoo zoo zoo zoo zoo zoo zoo zoo zoo zoo wrong"
    );
    assert_eq!(
        mnemonic_from_entropy_bytes(&vec![0x7fu8; 16]).unwrap(),
        "legal winner thank year wave sausage worth useful legal winner thank yellow"
    );
}

#[test]
fn entropy_of_wrong_length_is_refused() {
    assert_eq!(mnemonic_from_entropy_bytes(&vec![0u8; 15]), Err(LavaErrors::GenerationFailure));
    assert_eq!(mnemonic_from_entropy_bytes(&vec![0u8; 32]), Err(LavaErrors::GenerationFailure));
    assert_eq!(mnemonic_from_entropy_bytes(&vec![]), Err(LavaErrors::GenerationFailure));
}

#[test]
fn generated_mnemonic_round_trips() {
    let m = create_a_new_mnemonic().unwrap();
    let parsed = bip39::Mnemonic::parse(m.as_str()).unwrap();
    assert_eq!(parsed.to_string(), m);
    assert_eq!(parsed.to_entropy().len(), 16);
}
