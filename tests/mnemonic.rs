use cln_init::mnemonic::{derive_secret, generate, generate_from_entropy, join_phrase, DeriveError};
use cln_init::protocol::GenSeedLength;

fn words(s: &str) -> Vec<String> {
    s.split(' ').map(|w| w.to_string()).collect()
}

fn hex(bytes: &[u8]) -> String {
    bytes.iter().map(|b| format!("{:02x}", b)).collect()
}

const ALL: [GenSeedLength; 5] = [
    GenSeedLength::GenSeed12Words,
    GenSeedLength::GenSeed15Words,
    GenSeedLength::GenSeed18Words,
    GenSeedLength::GenSeed21Words,
    GenSeedLength::GenSeed24Words,
];

#[test]
fn join_phrase_puts_single_spaces() {
    assert_eq!(join_phrase(&words("a bb ccc")), "a bb ccc");
    assert_eq!(join_phrase(&Vec::new()), "");
    assert_eq!(join_phrase(&vec!["one".to_string()]), "one");
}

#[test]
fn zero_entropy_gives_known_phrases() {
    let zeros = [0u8; 32];
    let w12 = generate_from_entropy(GenSeedLength::GenSeed12Words, &zeros);
    assert_eq!(w12.join(" "), format!("{}about", "abandon ".repeat(11)));
    let w24 = generate_from_entropy(GenSeedLength::GenSeed24Words, &zeros);
    assert_eq!(w24.join(" "), format!("{}art", "abandon ".repeat(23)));
}

#[test]
fn known_entropy_gives_known_phrase() {
    let entropy = [0x7fu8; 32];
    let w = generate_from_entropy(GenSeedLength::GenSeed12Words, &entropy);
    assert_eq!(
        w.join(" "),
        "legal winner thank year wave sausage worth useful legal winner thank yellow"
    );
}

#[test]
fn generated_phrases_have_the_length_and_validate() {
    for len in ALL {
        let w = generate(len).expect("secure entropy");
        assert_eq!(w.len(), len.word_count());
        assert!(derive_secret(&w, "").is_ok());
    }
}

#[test]
fn generated_from_entropy_validates_for_every_length() {
    let entropy: [u8; 32] = core::array::from_fn(|i| (i as u8).wrapping_mul(37).wrapping_add(11));
    for len in ALL {
        let w = generate_from_entropy(len, &entropy);
        assert_eq!(w.len(), len.word_count());
        assert!(derive_secret(&w, "pass").is_ok());
    }
}

#[test]
fn derive_matches_standard_vector() {
    let phrase = words(&format!("{}about", "abandon ".repeat(11)));
    let secret = derive_secret(&phrase, "TREZOR").unwrap();
    assert_eq!(
        hex(&secret),
        "c55257c360c07c72029aebc1b53c05ed0362ada38ead3e3e9efa3708e5349553"
    );
}

#[test]
fn derive_is_deterministic() {
    let phrase = words("legal winner thank year wave sausage worth useful legal winner thank yellow");
    let a = derive_secret(&phrase, "TREZOR").unwrap();
    let b = derive_secret(&phrase, "TREZOR").unwrap();
    assert_eq!(a, b);
    assert_eq!(
        hex(&a),
        "2e8905819b8723fe2c1d161860e5ee1830318dbf49a83bd451cfb8440c28bd6f"
    );
    let c = derive_secret(&phrase, "").unwrap();
    assert_ne!(a, c);
}

#[test]
fn derive_rejects_altered_word() {
    let phrase = words(&format!("{}abandon", "abandon ".repeat(11)));
    assert_eq!(derive_secret(&phrase, ""), Err(DeriveError::InvalidMnemonic));
    let phrase = words("legal winner thank year wave sausage worth useful legal winner thank year");
    assert_eq!(derive_secret(&phrase, ""), Err(DeriveError::InvalidMnemonic));
}

#[test]
fn derive_rejects_unknown_word_and_bad_count() {
    let phrase = words(&format!("{}abou", "abandon ".repeat(11)));
    assert_eq!(derive_secret(&phrase, ""), Err(DeriveError::InvalidMnemonic));
    let phrase = words(&"abandon ".repeat(10).trim_end().to_string());
    assert_eq!(derive_secret(&phrase, ""), Err(DeriveError::InvalidMnemonic));
    assert_eq!(derive_secret(&Vec::new(), ""), Err(DeriveError::InvalidMnemonic));
}

#[test]
fn derive_rejects_items_that_are_not_single_words() {
    let mut merged = vec!["abandon abandon".to_string()];
    merged.extend(vec!["abandon".to_string(); 9]);
    merged.push("about".to_string());
    assert_eq!(derive_secret(&merged, ""), Err(DeriveError::InvalidMnemonic));
    let mut with_empty = vec!["abandon".to_string(); 11];
    with_empty.push("".to_string());
    with_empty.push("about".to_string());
    assert_eq!(derive_secret(&with_empty, ""), Err(DeriveError::InvalidMnemonic));
    let mut padded = vec!["abandon".to_string(); 11];
    padded.push(" about".to_string());
    assert_eq!(derive_secret(&padded, ""), Err(DeriveError::InvalidMnemonic));
}
