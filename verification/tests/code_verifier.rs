use oauth_client::ChallengMethod;
use oauth_client::CodeVerifier;
use oauth_client::Unreserved;

fn char_is_unreserved(c: char) -> bool {
    c.is_ascii_alphanumeric() || c == '-' || c == '.' || c == '_' || c == '~'
}

#[test]
fn test_get_octect_sequence() {
    let unreserved = Unreserved::new();
    let res = unreserved.get_octet_sequence(43);
    println!("{res:?}");
    assert_eq!(res.len(), 43);
    res.iter().for_each(|v| assert!(unreserved.contains(*v)));
}

#[test]
fn test_get_code_verifier() {
    let verifier = CodeVerifier::new();
    let code_verifier = verifier.get_code_verifier();
    println!("{code_verifier}");
    assert_eq!(code_verifier.len(), 44);
}

#[test]
fn test_get_code_challenge_plain() {
    let verifier = CodeVerifier::new();
    let challenge = verifier.get_code_challange(ChallengMethod::Plain);
    println!("{challenge}");
}

#[test]
fn test_get_code_challenge_sha256() {
    let verifier = CodeVerifier::new();
    let challenge = verifier.get_code_challange(ChallengMethod::Sha256);
    println!("{challenge}");
}

#[test]
fn test_code_verifier_charset() {
    let verifier = CodeVerifier::new();
    let code_verifier = verifier.get_code_verifier();
    assert!(code_verifier
        .chars()
        .all(|c| char_is_unreserved(c) || c == '='));
}

#[test]
fn test_code_challenge_plain_is_verifier() {
    let verifier = CodeVerifier::new();
    assert_eq!(
        verifier.get_code_challange(ChallengMethod::Plain),
        verifier.get_code_verifier()
    );
}

#[test]
fn test_code_challenge_deterministic_and_differs_from_plain() {
    let verifier = CodeVerifier::new();
    let c1 = verifier.get_code_challange(ChallengMethod::Sha256);
    let c2 = verifier.get_code_challange(ChallengMethod::Sha256);
    assert_eq!(c1, c2);
    let plain = verifier.get_code_challange(ChallengMethod::Plain);
    assert_ne!(c1, plain);
    assert_eq!(c1.len(), 44);
}
