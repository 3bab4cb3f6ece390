//! PKCE: a random code verifier drawn from the unreserved URL alphabet,
//! and its plain or SHA-256 code challenge.

use vstd::prelude::*;

use vstd::string::StrSliceExecFns;
use vstd::utf8::is_ascii_chars;

verus! {

/// The unreserved URL character set, as byte values: `A`–`Z`, `a`–`z`,
/// `0`–`9`, `-`, `.`, `_` and `~`.
pub open spec fn is_unreserved_byte(b: u8) -> bool {
    (0x41 <= b && b <= 0x5A) || (0x61 <= b && b <= 0x7A) || (0x30 <= b && b <= 0x39) || b == 0x2D
        || b == 0x2E || b == 0x5F || b == 0x7E
}

/// The characters a padded base64url encoding can produce: its 64 symbols
/// plus the padding character.
pub open spec fn is_base64url_char(c: char) -> bool {
    ('A' <= c && c <= 'Z') || ('a' <= c && c <= 'z') || ('0' <= c && c <= '9') || c == '-'
        || c == '_' || c == '='
}

/// The bytes of an ASCII character sequence, one per character.
pub open spec fn ascii_bytes_of(s: Seq<char>) -> Seq<u8> {
    Seq::new(s.len(), |i: int| s[i] as u8)
}

/// Relies on rand::random for one uniformly random byte.
#[verifier::external_body]
fn random_u8() -> u8 {
    rand::random::<u8>()
}

/// What data_encoding::BASE64URL.encode returns: a pure function of the
/// input bytes.
pub uninterp spec fn base64url_of(bytes: Seq<u8>) -> Seq<char>;

/// Relies on data_encoding::BASE64URL.encode: padded base64url, a pure
/// function of the input bytes; the output holds 4 characters for every
/// started block of 3 input bytes, each a base64url symbol or `=`, all
/// ASCII.
#[verifier::external_body]
fn base64url_encode(data: &Vec<u8>) -> (r: String)
    ensures
        r@ == base64url_of(data@),
        r@.len() == 4 * ((data@.len() + 2) as int / 3),
        forall|i: int| 0 <= i < r@.len() ==> is_base64url_char(#[trigger] r@[i]),
        is_ascii_chars(r@),
{
    data_encoding::BASE64URL.encode(data.as_slice())
}

/// What crypto_hash::digest returns for the SHA-256 algorithm: a pure
/// function of the input bytes.
pub uninterp spec fn sha256_of(bytes: Seq<u8>) -> Seq<u8>;

/// Relies on crypto_hash::digest with Algorithm::SHA256: the digest is a
/// pure function of the input bytes.
#[verifier::external_body]
fn sha256_digest(data: &Vec<u8>) -> (r: Vec<u8>)
    ensures
        r@ == sha256_of(data@),
{
    crypto_hash::digest(crypto_hash::Algorithm::SHA256, data.as_slice())
}

/// The unreserved alphabet as a drawing table: random bytes map onto its
/// 66 symbols.
pub struct Unreserved;

impl Unreserved {
    /// The table itself.
    pub fn new() -> Self {
        Unreserved
    }

    /// Whether `b` is one of the 66 unreserved bytes.
    pub fn contains(&self, b: u8) -> (r: bool)
        ensures
            r == is_unreserved_byte(b),
    {
        (0x41 <= b && b <= 0x5A) || (0x61 <= b && b <= 0x7A) || (0x30 <= b && b <= 0x39)
            || b == 0x2D || b == 0x2E || b == 0x5F || b == 0x7E
    }

    /// The unreserved byte at a table index: `A`–`Z`, then `a`–`z`, then
    /// `0`–`9`, then `-`, `.`, `_`, `~`.
    fn byte_at(idx: u8) -> (r: u8)
        requires
            idx < 66,
        ensures
            is_unreserved_byte(r),
    {
        if idx < 26 {
            0x41 + idx
        } else if idx < 52 {
            0x61 + (idx - 26)
        } else if idx < 62 {
            0x30 + (idx - 52)
        } else if idx == 62 {
            0x2D
        } else if idx == 63 {
            0x2E
        } else if idx == 64 {
            0x5F
        } else {
            0x7E
        }
    }

    /// Draws `len` random bytes, each mapped into the unreserved
    /// alphabet. The values are random; what is certain is the length and
    /// that every byte is unreserved.
    pub fn get_octet_sequence(&self, len: u8) -> (r: Vec<u8>)
        ensures
            r@.len() == len as nat,
            forall|i: int| 0 <= i < r@.len() ==> is_unreserved_byte(#[trigger] r@[i]),
    {
        let mut r: Vec<u8> = Vec::new();
        let mut i: u8 = 0;
        while i < len
            invariant
                i <= len,
                r@.len() == i as nat,
                forall|k: int| 0 <= k < r@.len() ==> is_unreserved_byte(#[trigger] r@[k]),
            decreases len - i,
        {
            let b = random_u8();
            r.push(Self::byte_at(b % 66));
            i = i + 1;
        }
        r
    }
}

/// How a code challenge is derived from the verifier.
#[derive(Clone, Copy, Debug)]
pub enum ChallengMethod {
    Plain,
    Sha256,
}

/// The challenge a verifier yields under each method: itself for plain,
/// the base64url-encoded SHA-256 digest of its bytes otherwise.
pub open spec fn spec_code_challenge(v: Seq<char>, m: ChallengMethod) -> Seq<char> {
    match m {
        ChallengMethod::Plain => v,
        ChallengMethod::Sha256 => base64url_of(sha256_of(ascii_bytes_of(v))),
    }
}

/// A PKCE code verifier: 32 random unreserved octets, base64url-encoded
/// at construction and immutable afterwards.
pub struct CodeVerifier(String);

impl View for CodeVerifier {
    type V = Seq<char>;

    closed spec fn view(&self) -> Seq<char> {
        self.0@
    }
}

impl CodeVerifier {
    /// Every character of a verifier is ASCII; all but the base64url
    /// padding lie in the unreserved alphabet.
    #[verifier::type_invariant]
    closed spec fn wf(&self) -> bool {
        is_ascii_chars(self.0@) && forall|i: int|
            0 <= i < self.0@.len() ==> is_base64url_char(#[trigger] self.0@[i])
    }

    /// A fresh random verifier: 44 characters, each unreserved or the
    /// base64url padding `=`.
    pub fn new() -> (r: Self)
        ensures
            r@.len() == 44,
            forall|i: int|
                0 <= i < r@.len() ==> is_unreserved_byte(#[trigger] r@[i] as u8) || r@[i] == '=',
    {
        let unreserved = Unreserved::new();
        let octet_seq = unreserved.get_octet_sequence(32);
        let encoded = base64url_encode(&octet_seq);
        let r = CodeVerifier(encoded);
        proof {
            assert forall|i: int| 0 <= i < r@.len() implies is_unreserved_byte(
                #[trigger] r@[i] as u8,
            ) || r@[i] == '=' by {
                assert(is_base64url_char(r@[i]));
            }
        }
        r
    }

    /// The verifier string itself.
    pub fn get_code_verifier(&self) -> (r: String)
        ensures
            r@ == self@,
    {
        self.0.clone()
    }

    /// The code challenge under the chosen method: the verifier itself
    /// for plain, the base64url-encoded SHA-256 digest of its bytes for
    /// S256.
    pub fn get_code_challange(&self, challenge_method: ChallengMethod) -> (r: String)
        ensures
            r@ == spec_code_challenge(self@, challenge_method),
    {
        match challenge_method {
            ChallengMethod::Plain => self.0.clone(),
            ChallengMethod::Sha256 => {
                proof {
                    use_type_invariant(self);
                }
                let s = self.0.as_str();
                let bytes = s.as_bytes_vec();
                proof {
                    vstd::string::is_ascii_spec_bytes(s);
                    assert(bytes@ =~= ascii_bytes_of(self.0@));
                }
                let hash = sha256_digest(&bytes);
                let encoded = base64url_encode(&hash);
                encoded
            },
        }
    }
}

/// The challenge derivation is deterministic: two verifiers with the same
/// characters yield the same challenge under the same method.
pub proof fn lemma_code_challenge_deterministic(a: CodeVerifier, b: CodeVerifier, m: ChallengMethod)
    requires
        a@ == b@,
    ensures
        spec_code_challenge(a@, m) == spec_code_challenge(b@, m),
{
}

} // verus!
