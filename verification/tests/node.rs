use interop_proof::node::{
    default_jwt_secret, jwt_secret, DefaultJwtSecretChoice, JwtSecretChoice,
};

const HEX: &str = "f79ae8046bc11c9927afe911db7143c51a806c4a537cc08e0d37140b0192f430";

fn secret_bytes() -> Vec<u8> {
    (0..32).map(|i| u8::from_str_radix(&HEX[2 * i..2 * i + 2], 16).unwrap()).collect()
}

#[test]
fn configured_secret_is_parsed() {
    assert_eq!(
        jwt_secret(Some(HEX.to_string())),
        JwtSecretChoice::Resolved(Some(secret_bytes()))
    );
    assert_eq!(secret_bytes()[0], 0xf7);
    assert_eq!(secret_bytes()[31], 0x30);
}

#[test]
fn configured_secret_may_have_a_prefix_and_blanks() {
    assert_eq!(
        jwt_secret(Some(format!("0x{HEX}"))),
        JwtSecretChoice::Resolved(Some(secret_bytes()))
    );
    assert_eq!(
        jwt_secret(Some(format!("  {HEX}\n"))),
        JwtSecretChoice::Resolved(Some(secret_bytes()))
    );
    assert_eq!(
        jwt_secret(Some(HEX.to_uppercase())),
        JwtSecretChoice::Resolved(Some(secret_bytes()))
    );
}

#[test]
fn configured_text_without_a_secret_ends_the_search() {
    assert_eq!(jwt_secret(Some("not a secret".to_string())), JwtSecretChoice::Resolved(None));
    assert_eq!(jwt_secret(Some(String::new())), JwtSecretChoice::Resolved(None));
    assert_eq!(jwt_secret(Some(HEX[2..].to_string())), JwtSecretChoice::Resolved(None));
    assert_eq!(jwt_secret(Some(format!("{HEX}00"))), JwtSecretChoice::Resolved(None));
    assert_eq!(
        jwt_secret(Some(format!("{}zz", &HEX[2..]))),
        JwtSecretChoice::Resolved(None)
    );
}

#[test]
fn missing_configured_file_falls_back_to_the_default() {
    assert_eq!(jwt_secret(None), JwtSecretChoice::UseDefault);
}

#[test]
fn default_without_current_directory_has_no_secret() {
    assert_eq!(default_jwt_secret(false, None), DefaultJwtSecretChoice::Resolved(None));
    assert_eq!(
        default_jwt_secret(false, Some(HEX.to_string())),
        DefaultJwtSecretChoice::Resolved(None)
    );
}

#[test]
fn default_with_a_stored_secret_parses_it() {
    assert_eq!(
        default_jwt_secret(true, Some(HEX.to_string())),
        DefaultJwtSecretChoice::Resolved(Some(secret_bytes()))
    );
    assert_eq!(
        default_jwt_secret(true, Some("garbage".to_string())),
        DefaultJwtSecretChoice::Resolved(None)
    );
}

#[test]
fn default_without_a_stored_secret_generates_one() {
    assert_eq!(default_jwt_secret(true, None), DefaultJwtSecretChoice::Generate);
}
