use spotify_auth::pkce::{build_authorize_url, generate_pkce, join_scopes, pkce_from_bytes};
use spotify_auth::types::PkceData;

#[test]
fn pkce_matches_published_example() {
    let verifier_bytes: [u8; 32] = [
        116, 24, 223, 180, 151, 153, 224, 37, 79, 250, 96, 125, 216, 173, 187, 186, 22, 212, 37,
        77, 105, 214, 191, 240, 91, 88, 5, 88, 83, 132, 141, 121,
    ];
    let p = pkce_from_bytes(&verifier_bytes, &[0xff, 0xfe]);
    assert_eq!(p.verifier, "dBjftJeZ4CVP-mB92K27uhbUJU1p1r_wW1gFWFOEjXk");
    assert_eq!(p.challenge, "E9Melhoa2OwvFrEMTJguCHaoeK1t8URWbuGJSstw-cM");
    assert_eq!(p.state, "__4");
}

#[test]
fn generated_pkce_has_valid_lengths() {
    let p = generate_pkce();
    assert_eq!(p.verifier.len(), 86);
    assert!(p.verifier.len() >= 43 && p.verifier.len() <= 128);
    assert_eq!(p.challenge.len(), 43);
    assert_eq!(p.state.len(), 43);
    assert!(p
        .verifier
        .chars()
        .all(|c| c.is_ascii_alphanumeric() || c == '-' || c == '_'));
}

#[test]
fn generated_pkce_is_fresh() {
    let a = generate_pkce();
    let b = generate_pkce();
    assert_ne!(a.verifier, b.verifier);
    assert_ne!(a.state, b.state);
    assert_ne!(a.state, a.verifier);
}

#[test]
fn scopes_join_with_spaces() {
    let none: Vec<String> = vec![];
    assert_eq!(join_scopes(&none), "");
    assert_eq!(join_scopes(&vec!["a".to_string()]), "a");
    assert_eq!(
        join_scopes(&vec!["a".to_string(), "b".to_string(), "c".to_string()]),
        "a b c"
    );
}

#[test]
fn authorize_url_is_encoded() {
    let pkce = PkceData {
        verifier: "v".to_string(),
        challenge: "ch-_.~".to_string(),
        state: "s t".to_string(),
    };
    let url = build_authorize_url(
        "cid",
        "http://127.0.0.1:8888/callback",
        &vec!["user-read-private".to_string(), "streaming".to_string()],
        &pkce,
    );
    assert_eq!(
        url,
        "https://accounts.spotify.com/authorize?client_id=cid&response_type=code\
         &redirect_uri=http%3A%2F%2F127.0.0.1%3A8888%2Fcallback\
         &scope=user-read-private%20streaming&code_challenge_method=S256\
         &code_challenge=ch-_.~&state=s%20t"
    );
}

#[test]
fn authorize_url_encodes_utf8_bytes() {
    let pkce = PkceData {
        verifier: "v".to_string(),
        challenge: "c".to_string(),
        state: "é".to_string(),
    };
    let url = build_authorize_url("id", "r", &vec![], &pkce);
    assert!(url.ends_with("&state=%C3%A9"));
    assert!(url.contains("&scope=&"));
}
