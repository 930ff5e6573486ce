//! Mnemonic phrases: generation from secure entropy and derivation of the
//! 32-byte master secret, on top of the `bip39` and `rand_chacha` crates.
use vstd::prelude::*;
use vstd::string::StringExecFns;
use rand::SeedableRng;
use crate::protocol::GenSeedLength;

verus! {

#[verifier::external_type_specification]
#[verifier::external_body]
pub struct ExMnemonic(bip39::Mnemonic);

#[verifier::external_type_specification]
#[verifier::external_body]
pub struct ExMnemonicError(bip39::Error);

#[verifier::external_type_specification]
#[verifier::external_body]
pub struct ExChaCha20Rng(rand_chacha::ChaCha20Rng);

#[verifier::external_type_specification]
#[verifier::external_body]
pub struct ExRandError(rand::Error);

/// The words that a mnemonic holds, in order.
pub uninterp spec fn mnemonic_words(m: bip39::Mnemonic) -> Seq<Seq<char>>;

/// The English words that encode `entropy` followed by its checksum.
pub uninterp spec fn entropy_words(entropy: Seq<u8>) -> Seq<Seq<char>>;

/// The words of the mnemonic that `phrase` parses to, or `None` where it
/// does not parse (a word count out of range, an unknown word, a checksum
/// that does not match).
pub uninterp spec fn parsed_words(phrase: Seq<char>) -> Option<Seq<Seq<char>>>;

/// The 64-byte seed that the standard key stretching gives for a mnemonic's
/// words and a passphrase.
pub uninterp spec fn seed_of(words: Seq<Seq<char>>, passphrase: Seq<char>) -> Seq<u8>;

/// Entropy lengths, in bytes, that a mnemonic can encode: 128 to 256 bits,
/// in steps of 32.
pub open spec fn entropy_len_ok(n: nat) -> bool {
    n * 8 % 32 == 0 && 128 <= n * 8 <= 256
}

/// The words joined by single spaces.
pub open spec fn join_words(ws: Seq<Seq<char>>) -> Seq<char>
    decreases ws.len(),
{
    if ws.len() == 0 {
        Seq::empty()
    } else if ws.len() == 1 {
        ws[0]
    } else {
        join_words(ws.drop_last()) + seq![' '] + ws.last()
    }
}

pub open spec fn words_view(ws: Seq<String>) -> Seq<Seq<char>> {
    ws.map_values(|w: String| w@)
}

/// A phrase is accepted when it parses back to exactly its own words.
pub open spec fn phrase_valid(ws: Seq<Seq<char>>) -> bool {
    parsed_words(join_words(ws)) == Some(ws)
}

/// The master secret of a list of words under a passphrase: the first 32
/// bytes of its seed where the list is a valid phrase, else `None`.
pub open spec fn derive_outcome(words: Seq<Seq<char>>, passphrase: Seq<char>) -> Option<Seq<u8>> {
    if phrase_valid(words) {
        Some(seed_of(words, passphrase).take(32))
    } else {
        None
    }
}

/// Relies on bip39::Mnemonic::from_entropy: for 16, 20, 24, 28 or 32 bytes it
/// gives three English words per four bytes, encoding the entropy and its
/// checksum, and the sentence of those words parses back to them; any other
/// length is an error.
#[verifier::external_body]
fn mnemonic_from_entropy(entropy: &[u8]) -> (r: Result<bip39::Mnemonic, bip39::Error>)
    ensures
        r is Ok <==> entropy_len_ok(entropy@.len()),
        r is Ok ==> mnemonic_words(r->Ok_0) == entropy_words(entropy@),
        r is Ok ==> entropy_words(entropy@).len() == entropy@.len() * 3 / 4,
        r is Ok ==> phrase_valid(entropy_words(entropy@)),
{
    bip39::Mnemonic::from_entropy(entropy)
}

/// Relies on bip39::Mnemonic::words: the words of the mnemonic, in order.
#[verifier::external_body]
fn words_of(m: &bip39::Mnemonic) -> (r: Vec<String>)
    ensures
        words_view(r@) == mnemonic_words(*m),
{
    m.words().map(|w| w.to_string()).collect()
}

/// Relies on bip39::Mnemonic::parse: it accepts a sentence exactly when its
/// words, split at white space, have a valid count, are all in the word list
/// and carry a matching checksum.
#[verifier::external_body]
fn parse_mnemonic(phrase: &str) -> (r: Result<bip39::Mnemonic, bip39::Error>)
    ensures
        r is Ok <==> parsed_words(phrase@) is Some,
        r is Ok ==> parsed_words(phrase@) == Some(mnemonic_words(r->Ok_0)),
{
    bip39::Mnemonic::parse(phrase)
}

/// Relies on bip39::Mnemonic::to_seed: the 64-byte seed of the mnemonic
/// under the passphrase.
#[verifier::external_body]
fn mnemonic_seed(m: &bip39::Mnemonic, passphrase: &str) -> (r: [u8; 64])
    ensures
        r@ == seed_of(mnemonic_words(*m), passphrase@),
{
    m.to_seed(passphrase)
}

/// Relies on rand_chacha's `SeedableRng::from_rng` fed by rand's `OsRng`: a
/// ChaCha20 generator seeded by the operating system, or an error where no
/// secure entropy can be had.
#[verifier::external_body]
fn os_seeded_rng() -> (r: Result<rand_chacha::ChaCha20Rng, rand::Error>) {
    rand_chacha::ChaCha20Rng::from_rng(rand::rngs::OsRng)
}

/// Relies on rand_chacha::ChaCha20Rng::get_seed: the 32 bytes that seeded
/// the generator.
#[verifier::external_body]
fn rng_seed(rng: &rand_chacha::ChaCha20Rng) -> (r: [u8; 32]) {
    rng.get_seed()
}

/// The words joined by single spaces.
pub fn join_phrase(words: &Vec<String>) -> (r: String)
    ensures
        r@ == join_words(words_view(words@)),
{
    let mut s = String::new();
    let n = words.len();
    for i in 0..n
        invariant
            n == words@.len(),
            s@ == join_words(words_view(words@.take(i as int))),
    {
        let ghost prev = words_view(words@.take(i as int));
        let ghost next = words_view(words@.take(i + 1));
        assert(next.drop_last() =~= prev);
        assert(next.len() == i + 1);
        assert(next.last() == words@[i as int]@);
        let ghost before = s@;
        if i > 0 {
            proof {
                reveal_strlit(" ");
            }
            s.append(" ");
            assert(s@ == before + seq![' ']);
        }
        let w = words[i].as_str();
        assert(w@ == words@[i as int]@);
        s.append(w);
        assert(s@ == join_words(next));
    }
    assert(words@.take(n as int) =~= words@);
    s
}

/// The phrase of the given length that encodes the leading bytes of
/// `entropy`.
pub fn generate_from_entropy(length: GenSeedLength, entropy: &[u8; 32]) -> (r: Vec<String>)
    ensures
        words_view(r@) == entropy_words(entropy@.take((length.spec_entropy_bits() / 8) as int)),
        r@.len() == length.spec_word_count(),
        phrase_valid(words_view(r@)),
{
    let n = length.entropy_bytes();
    let mut bytes: Vec<u8> = Vec::new();
    for i in 0..n
        invariant
            n * 8 == length.spec_entropy_bits(),
            n <= 32,
            bytes@ == entropy@.take(i as int),
    {
        bytes.push(entropy[i]);
        assert(bytes@ =~= entropy@.take(i + 1));
    }
    match mnemonic_from_entropy(bytes.as_slice()) {
        Ok(m) => words_of(&m),
        Err(_) => {
            proof {
                assert(false);
            }
            Vec::new()
        },
    }
}

/// A fresh phrase of the given length, from entropy that the operating
/// system provides; `None` where no secure entropy can be had.
pub fn generate(length: GenSeedLength) -> (r: Option<Vec<String>>)
    ensures
        r is Some ==> r->Some_0@.len() == length.spec_word_count(),
        r is Some ==> phrase_valid(words_view(r->Some_0@)),
{
    match os_seeded_rng() {
        Ok(rng) => {
            let entropy = rng_seed(&rng);
            Some(generate_from_entropy(length, &entropy))
        },
        Err(_) => None,
    }
}

/// Failure to derive a master secret.
#[derive(Clone, Copy, Debug, PartialEq, Eq, Structural)]
pub enum DeriveError {
    /// The phrase has a bad word count, an unknown word or a bad checksum.
    InvalidMnemonic,
}

/// Whether two lists hold the same words in the same order.
pub fn same_words(a: &Vec<String>, b: &Vec<String>) -> (r: bool)
    ensures
        r == (words_view(a@) == words_view(b@)),
{
    if a.len() != b.len() {
        proof {
            assert(words_view(a@).len() != words_view(b@).len());
        }
        return false;
    }
    let n = a.len();
    for i in 0..n
        invariant
            n == a@.len(),
            n == b@.len(),
            forall|j: int| 0 <= j < i ==> a@[j]@ == b@[j]@,
    {
        if a[i] != b[i] {
            proof {
                assert(words_view(a@)[i as int] != words_view(b@)[i as int]);
            }
            return false;
        }
    }
    assert(words_view(a@) =~= words_view(b@));
    true
}

/// The master secret of a phrase under a passphrase. The list must be a
/// valid phrase as it stands: each item one word of the list, in order.
pub fn derive_secret(words: &Vec<String>, passphrase: &str) -> (r: Result<[u8; 32], DeriveError>)
    ensures
        match r {
            Ok(secret) => derive_outcome(words_view(words@), passphrase@) == Some(secret@),
            Err(_) => derive_outcome(words_view(words@), passphrase@) is None,
        },
{
    let phrase = join_phrase(words);
    match parse_mnemonic(phrase.as_str()) {
        Err(_) => Err(DeriveError::InvalidMnemonic),
        Ok(m) => {
            let parsed = words_of(&m);
            if !same_words(&parsed, words) {
                return Err(DeriveError::InvalidMnemonic);
            }
            let mut seed = mnemonic_seed(&m, passphrase);
            let ghost full = seed@;
            let mut secret = [0u8; 32];
            for i in 0..32
                invariant
                    seed@ == full,
                    full.len() == 64,
                    forall|j: int| 0 <= j < i ==> secret@[j] == full[j],
            {
                secret[i] = seed[i];
            }
            assert(secret@ =~= full.take(32));
            for i in 0..64
                invariant
                    seed@.len() == 64,
            {
                seed[i] = 0;
            }
            Ok(secret)
        },
    }
}

/// Derivation is deterministic: the same phrase and passphrase give the same
/// outcome, byte for byte, on every call.
pub proof fn lemma_derive_deterministic(
    words1: Seq<String>,
    words2: Seq<String>,
    passphrase: Seq<char>,
    r1: Result<[u8; 32], DeriveError>,
    r2: Result<[u8; 32], DeriveError>,
)
    requires
        words_view(words1) == words_view(words2),
        match r1 {
            Ok(secret) => derive_outcome(words_view(words1), passphrase) == Some(secret@),
            Err(_) => derive_outcome(words_view(words1), passphrase) is None,
        },
        match r2 {
            Ok(secret) => derive_outcome(words_view(words2), passphrase) == Some(secret@),
            Err(_) => derive_outcome(words_view(words2), passphrase) is None,
        },
    ensures
        r1 == r2,
{
    match r1 {
        Ok(s1) => match r2 {
            Ok(s2) => {
                assert(s1@ == s2@);
                assert(s1 =~= s2);
            },
            Err(_) => {},
        },
        Err(e1) => match r2 {
            Ok(_) => {},
            Err(e2) => {
                assert(e1 == e2);
            },
        },
    }
}

} // verus!
