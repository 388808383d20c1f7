use base64::Engine;
use battlemon_ethereum::address::{Address, ToHex};
use battlemon_ethereum::config::SecretsConfig;
use battlemon_ethereum::jwt::{Jwt, TokenError};
use battlemon_ethereum::nonce::{Nonce, NotFound};
use battlemon_ethereum::routes::auth::{
    authenticate_at, web3_auth, web3_auth_at, AuthError, AuthSuccess, Payload, User,
    ValidatedPayload,
};
use battlemon_ethereum::routes::users::set_nonce_for_address;
use battlemon_ethereum::routes::{JsonResponse, NoncePolicy, SharedState};
use battlemon_ethereum::signature::Signature;
use ethers::signers::{LocalWallet, Signer};
use ethers::utils::hash_message;
use jsonwebtoken::{Algorithm, DecodingKey};

const KEY_PAIR: &str = "MC4CAQAwBQYDK2VwBCIEIJ1hsZ3v/VpguoRK9JLsLMREScVpezJpGXA7rAMcrn9g";
const OTHER_KEY_PAIR: &str = "MC4CAQAwBQYDK2VwBCIEIEzNCJso/5banbbDRuwRTg9bijGfNaumJNqM9u1PuKb7";
const NOW: i64 = 1_700_000_000;

fn jwt_of(key_pair: &str) -> Jwt {
    let secrets = SecretsConfig {
        key_pair: key_pair.to_owned(),
    };
    match secrets.jwt() {
        Ok(jwt) => jwt,
        Err(error) => panic!("the key pair was turned down: {error:?}"),
    }
}

fn jwt() -> Jwt {
    jwt_of(KEY_PAIR)
}

fn state(policy: NoncePolicy) -> SharedState {
    SharedState::new(jwt(), policy)
}

fn wallet() -> LocalWallet {
    "ac0974bec39a17e36ba4a6b4d238ff944bacb478cbed5efcae784d7bf4f2ff80"
        .parse()
        .unwrap()
}

fn other_wallet() -> LocalWallet {
    "59c6995e998f97a5a0044966f0945389dc9e86dae88c7a8412f4603b6b78690d"
        .parse()
        .unwrap()
}

fn user_address(wallet: &LocalWallet) -> String {
    Address::new(wallet.address().0).to_hex()
}

fn sign(wallet: &LocalWallet, message: &str) -> String {
    wallet
        .sign_hash(hash_message(message))
        .unwrap()
        .to_string()
}

fn get_nonce_for_user(state: &mut SharedState, user_id: &str) -> Nonce {
    match set_nonce_for_address(state, user_id).unwrap() {
        JsonResponse::Success(nonce) => nonce,
        JsonResponse::Error(_) => panic!("a nonce was expected"),
    }
}

fn payload(user_id: &str, signature: &str) -> Payload {
    Payload {
        user_id: user_id.to_owned(),
        signature: signature.to_owned(),
    }
}

fn status_of(res: Result<AuthSuccess, AuthError>) -> u16 {
    match res {
        Ok(_) => 200,
        Err(error) => error.status_code(),
    }
}

#[test]
fn web3_auth_works_correctly() {
    let mut app = state(NoncePolicy::Keep);
    let wallet = wallet();
    let user_address = user_address(&wallet);
    let nonce = get_nonce_for_user(&mut app, &user_address);
    let signature = sign(&wallet, nonce.to_string().as_str());

    let auth_json = web3_auth(&mut app, payload(&user_address, signature.as_str())).unwrap();

    let jwt = auth_json.jwt.as_str();
    let public_key_base64 = auth_json.jwk.x.as_str();
    let public_key_bytes = base64::engine::general_purpose::URL_SAFE_NO_PAD
        .decode(public_key_base64)
        .unwrap();
    let decoding_key = DecodingKey::from_ed_der(&public_key_bytes);
    let _ = jsonwebtoken::decode::<serde_json::Value>(
        jwt,
        &decoding_key,
        &jsonwebtoken::Validation::new(Algorithm::EdDSA),
    )
    .unwrap();
}

#[test]
fn token_of_an_accepted_submission_names_the_identity() {
    let mut app = state(NoncePolicy::Keep);
    let wallet = wallet();
    let user_address = user_address(&wallet);
    assert_eq!(user_address, "0xf39fd6e51aad88f6f4ce6ab8827279cfffb92266");
    let nonce = get_nonce_for_user(&mut app, &user_address);
    let signature = sign(&wallet, &nonce.to_string());
    let success = web3_auth_at(&mut app, payload(&user_address, &signature), NOW).unwrap();
    assert_eq!(success.jwk.x, "11qYAYKxCrfVS_7TyWQHOg7hcvPapiMlrwIaaPcHURo");
    let claims = app.jwt.validate_at(&success.jwt, NOW + 1).unwrap();
    assert_eq!(claims.sub, "0xf39fd6e51aad88f6f4ce6ab8827279cfffb92266");
    assert_eq!(claims.iat, NOW);
    assert_eq!(claims.exp, NOW + 3600);
    assert_eq!(
        success.jwt,
        app.jwt.encode_at(user_address.clone(), NOW).unwrap()
    );
}

#[test]
fn submission_in_upper_case_finds_the_nonce() {
    let mut app = state(NoncePolicy::Keep);
    let wallet = wallet();
    let lower = user_address(&wallet);
    let upper = format!("0x{}", lower[2..].to_uppercase());
    let nonce = get_nonce_for_user(&mut app, &lower);
    let signature = sign(&wallet, &nonce.to_string());
    let success = web3_auth_at(&mut app, payload(&upper, &signature), NOW).unwrap();
    let claims = app.jwt.validate_at(&success.jwt, NOW).unwrap();
    assert_eq!(claims.sub, lower);
}

#[test]
fn same_signature_twice_is_turned_down_once_the_nonce_is_consumed() {
    let mut app = state(NoncePolicy::ConsumeOnSuccess);
    let wallet = wallet();
    let user_address = user_address(&wallet);
    let nonce = get_nonce_for_user(&mut app, &user_address);
    let signature = sign(&wallet, &nonce.to_string());

    let first = web3_auth_at(&mut app, payload(&user_address, &signature), NOW);
    assert!(!first.as_ref().unwrap().jwt.is_empty());
    assert_eq!(status_of(first), 200);

    let second = web3_auth_at(&mut app, payload(&user_address, &signature), NOW);
    assert!(matches!(second, Err(AuthError::NoChallengeIssued)));
    assert_eq!(status_of(second), 401);
}

#[test]
fn same_signature_twice_is_accepted_while_the_nonce_is_kept() {
    let mut app = state(NoncePolicy::Keep);
    let wallet = wallet();
    let user_address = user_address(&wallet);
    let nonce = get_nonce_for_user(&mut app, &user_address);
    let signature = sign(&wallet, &nonce.to_string());

    assert!(web3_auth_at(&mut app, payload(&user_address, &signature), NOW).is_ok());
    assert!(web3_auth_at(&mut app, payload(&user_address, &signature), NOW + 5).is_ok());
    assert_eq!(
        app.nonces
            .current(&Address::parse(&user_address).unwrap()),
        Ok(nonce)
    );
}

#[test]
fn signature_of_another_wallet_is_turned_down() {
    let mut app = state(NoncePolicy::Keep);
    let wallet = wallet();
    let user_address = user_address(&wallet);
    let nonce = get_nonce_for_user(&mut app, &user_address);
    let signature = sign(&other_wallet(), &nonce.to_string());

    let res = web3_auth_at(&mut app, payload(&user_address, &signature), NOW);
    assert!(matches!(res, Err(AuthError::SignatureVerification)));
    let (status, body) = res.unwrap_err().into_response();
    assert_eq!(status, 401);
    assert_eq!(
        body,
        JsonResponse::Error("Signature verification error".to_owned())
    );
}

#[test]
fn signature_over_a_replaced_nonce_is_turned_down() {
    for policy in [NoncePolicy::Keep, NoncePolicy::ConsumeOnSuccess] {
        let mut app = state(policy);
        let wallet = wallet();
        let user_address = user_address(&wallet);
        let first = get_nonce_for_user(&mut app, &user_address);
        let signature = sign(&wallet, &first.to_string());
        let second = get_nonce_for_user(&mut app, &user_address);
        assert_ne!(first, second);

        let res = web3_auth_at(&mut app, payload(&user_address, &signature), NOW);
        assert!(matches!(res, Err(AuthError::SignatureVerification)));
        assert_eq!(status_of(res), 401);

        let fresh = sign(&wallet, &second.to_string());
        assert!(web3_auth_at(&mut app, payload(&user_address, &fresh), NOW).is_ok());
    }
}

#[test]
fn failure_changes_nothing() {
    let mut app = state(NoncePolicy::ConsumeOnSuccess);
    let wallet = wallet();
    let user_address = user_address(&wallet);
    let nonce = get_nonce_for_user(&mut app, &user_address);
    let wrong = sign(&other_wallet(), &nonce.to_string());
    assert!(web3_auth_at(&mut app, payload(&user_address, &wrong), NOW).is_err());
    assert!(web3_auth_at(&mut app, payload("nonsense", &wrong), NOW).is_err());
    assert_eq!(
        app.nonces
            .current(&Address::parse(&user_address).unwrap()),
        Ok(nonce)
    );
    let right = sign(&wallet, &nonce.to_string());
    assert!(web3_auth_at(&mut app, payload(&user_address, &right), NOW).is_ok());
    assert_eq!(
        app.nonces
            .current(&Address::parse(&user_address).unwrap()),
        Err(NotFound)
    );
}

#[test]
fn submission_without_a_nonce_is_turned_down() {
    let mut app = state(NoncePolicy::Keep);
    let wallet = wallet();
    let user_address = user_address(&wallet);
    let signature = sign(&wallet, "a1a2a3a4-b1b2-41c2-91d2-d3d4d5d6d7d8");
    let res = web3_auth_at(&mut app, payload(&user_address, &signature), NOW);
    assert!(matches!(res, Err(AuthError::NoChallengeIssued)));
    let (status, body) = res.unwrap_err().into_response();
    assert_eq!(status, 401);
    assert_eq!(
        body,
        JsonResponse::Error("No nonce was issued for this address".to_owned())
    );
}

#[test]
fn nonce_of_one_identity_does_not_serve_another() {
    let mut app = state(NoncePolicy::Keep);
    let owner = wallet();
    let stranger = other_wallet();
    let nonce = get_nonce_for_user(&mut app, &user_address(&owner));
    let signature = sign(&stranger, &nonce.to_string());
    let res = web3_auth_at(
        &mut app,
        payload(&user_address(&stranger), &signature),
        NOW,
    );
    assert!(matches!(res, Err(AuthError::NoChallengeIssued)));
}

#[test]
fn malformed_address_is_a_validation_error() {
    let mut app = state(NoncePolicy::Keep);
    let signature = sign(&wallet(), "x");
    let res = web3_auth_at(&mut app, payload("0x1234", &signature), NOW);
    let error = res.unwrap_err();
    match &error {
        AuthError::Validation(message) => {
            assert!(message.starts_with("Failed to validate user_id: "));
            assert!(message.len() > "Failed to validate user_id: ".len());
        }
        _ => panic!("a validation error was expected"),
    }
    assert_eq!(error.status_code(), 400);
    assert!(error
        .to_string()
        .starts_with("Validation error: Failed to validate user_id: "));
}

#[test]
fn malformed_signature_is_a_validation_error() {
    let mut app = state(NoncePolicy::Keep);
    let user_address = user_address(&wallet());
    let res = web3_auth_at(&mut app, payload(&user_address, "0xabcd"), NOW);
    let error = res.unwrap_err();
    match &error {
        AuthError::Validation(message) => assert_eq!(
            message,
            "Failed to validate signature: invalid signature length, got 2, expected 65"
        ),
        _ => panic!("a validation error was expected"),
    }
    let (status, body) = error.into_response();
    assert_eq!(status, 400);
    assert_eq!(
        body,
        JsonResponse::Error(
            "Validation error: Failed to validate signature: invalid signature length, got 2, expected 65"
                .to_owned()
        )
    );
}

#[test]
fn address_is_validated_before_the_signature() {
    let res = ValidatedPayload::try_from(payload("zz", "zz"));
    assert!(res
        .unwrap_err()
        .starts_with("Failed to validate user_id: "));
}

#[test]
fn try_from_parses_both_texts() {
    let wallet = wallet();
    let signature = sign(&wallet, "hello");
    let valid = ValidatedPayload::try_from(payload(&user_address(&wallet), &signature)).unwrap();
    assert_eq!(valid.user_id.bytes, wallet.address().0);
    assert_eq!(
        valid.signature.bytes,
        Signature::parse(&signature).unwrap().bytes
    );
}

#[test]
fn authenticate_at_decides_by_the_nonce_that_it_is_given() {
    let jwt = jwt();
    let wallet = wallet();
    let nonce = Nonce(0xa1a2a3a4b1b241c291d2d3d4d5d6d7d8u128);
    let signature = sign(&wallet, "a1a2a3a4-b1b2-41c2-91d2-d3d4d5d6d7d8");
    let valid = ValidatedPayload::try_from(payload(&user_address(&wallet), &signature)).unwrap();

    let accepted = authenticate_at(&jwt, &valid, Ok(nonce), NOW).unwrap();
    assert_eq!(
        accepted.jwt,
        jwt.encode_at(user_address(&wallet), NOW).unwrap()
    );
    assert_eq!(accepted.jwk.x, jwt.jwk.x);

    let other = authenticate_at(&jwt, &valid, Ok(Nonce(nonce.0 + 1)), NOW);
    assert!(matches!(other, Err(AuthError::SignatureVerification)));
    let none = authenticate_at(&jwt, &valid, Err(NotFound), NOW);
    assert!(matches!(none, Err(AuthError::NoChallengeIssued)));
}

#[test]
fn authenticate_at_reports_a_fault_of_the_key_as_unexpected() {
    let made = jwt();
    let broken = Jwt::new(vec![0u8; 4], made.public_key.clone(), made.jwk.clone());
    let wallet = wallet();
    let nonce = Nonce(7);
    let signature = sign(&wallet, &nonce.to_string());
    let valid = ValidatedPayload::try_from(payload(&user_address(&wallet), &signature)).unwrap();
    let res = authenticate_at(&broken, &valid, Ok(nonce), NOW);
    match res.unwrap_err() {
        AuthError::Unexpected(detail) => {
            assert_eq!(detail, "Failed to encode claims");
            let (status, body) = AuthError::Unexpected(detail).into_response();
            assert_eq!(status, 500);
            assert_eq!(body, JsonResponse::Error("Unexpected error".to_owned()));
        }
        _ => panic!("an unexpected error was expected"),
    }
}

#[test]
fn every_failure_has_its_status_and_its_text() {
    let cases = [
        (
            AuthError::Validation("bad input".to_owned()),
            400,
            "Validation error: bad input",
        ),
        (
            AuthError::NoChallengeIssued,
            401,
            "No nonce was issued for this address",
        ),
        (
            AuthError::SignatureVerification,
            401,
            "Signature verification error",
        ),
        (
            AuthError::InvalidAuthToken,
            401,
            "Header doesn't contain correct type of auth token",
        ),
        (AuthError::ExpiredAuthToken, 401, "Expired auth token"),
        (AuthError::MalformedAuthToken, 401, "Malformed auth token"),
        (
            AuthError::ForgedAuthToken,
            401,
            "Auth token signature is invalid",
        ),
        (
            AuthError::Unexpected("the pool is closed".to_owned()),
            500,
            "Unexpected error",
        ),
    ];
    for (error, status, text) in cases {
        assert_eq!(error.status_code(), status);
        assert_eq!(error.to_string(), text);
        let (reported, body) = error.into_response();
        assert_eq!(reported, status);
        assert_eq!(body, JsonResponse::Error(text.to_owned()));
    }
}

#[test]
fn token_failures_become_failures_of_authentication() {
    assert!(matches!(
        AuthError::from_token_error(TokenError::Expired),
        AuthError::ExpiredAuthToken
    ));
    assert!(matches!(
        AuthError::from_token_error(TokenError::Malformed),
        AuthError::MalformedAuthToken
    ));
    assert!(matches!(
        AuthError::from_token_error(TokenError::SignatureInvalid),
        AuthError::ForgedAuthToken
    ));
    match AuthError::from_token_error(TokenError::Unexpected) {
        AuthError::Unexpected(detail) => assert_eq!(detail, "Failed to decode token"),
        _ => panic!("an unexpected error was expected"),
    }
}

#[test]
fn bearer_token_names_the_user() {
    let jwt = jwt();
    let token = jwt
        .encode_at("0xf39fd6e51aad88f6f4ce6ab8827279cfffb92266".to_owned(), NOW)
        .unwrap();
    let user = User::from_bearer_at(&jwt, Some(&token), NOW + 60).unwrap();
    assert_eq!(user.0, "0xf39fd6e51aad88f6f4ce6ab8827279cfffb92266");
}

#[test]
fn request_without_a_bearer_token_is_turned_down() {
    let res = User::from_bearer_at(&jwt(), None, NOW);
    assert!(matches!(res, Err(AuthError::InvalidAuthToken)));
    assert_eq!(res.unwrap_err().status_code(), 401);
    assert!(matches!(
        User::from_request_parts(&jwt(), None),
        Err(AuthError::InvalidAuthToken)
    ));
}

#[test]
fn expired_token_is_told_apart_from_a_malformed_one() {
    let jwt = jwt();
    let token = jwt.encode_at("0xabc".to_owned(), NOW).unwrap();
    let expired = User::from_bearer_at(&jwt, Some(&token), NOW + 3601).unwrap_err();
    let malformed = User::from_bearer_at(&jwt, Some("not.a.token"), NOW).unwrap_err();
    assert!(matches!(expired, AuthError::ExpiredAuthToken));
    assert!(matches!(malformed, AuthError::MalformedAuthToken));
    assert_eq!(expired.status_code(), 401);
    assert_eq!(malformed.status_code(), 401);
    assert_eq!(expired.to_string(), "Expired auth token");
    assert_eq!(malformed.to_string(), "Malformed auth token");
    assert_ne!(expired.to_string(), malformed.to_string());
}

#[test]
fn token_of_another_issuer_is_forged() {
    let other = jwt_of(OTHER_KEY_PAIR);
    let token = other.encode_at("0xabc".to_owned(), NOW).unwrap();
    let res = User::from_bearer_at(&jwt(), Some(&token), NOW);
    assert!(matches!(res, Err(AuthError::ForgedAuthToken)));
}

#[test]
fn bearer_token_goes_by_the_clock() {
    let jwt = jwt();
    let fresh = jwt.encode("0xabc".to_owned()).unwrap();
    assert_eq!(
        User::from_request_parts(&jwt, Some(&fresh)).unwrap().0,
        "0xabc"
    );
    let old = jwt.encode_at("0xabc".to_owned(), NOW).unwrap();
    assert!(matches!(
        User::from_request_parts(&jwt, Some(&old)),
        Err(AuthError::ExpiredAuthToken)
    ));
}

#[test]
fn shared_state_starts_without_nonces() {
    let app = state(NoncePolicy::ConsumeOnSuccess);
    assert_eq!(app.policy, NoncePolicy::ConsumeOnSuccess);
    assert_eq!(app.jwt.jwk.x, jwt().jwk.x);
    assert_eq!(
        app.nonces.current(&Address::new([0u8; 20])),
        Err(NotFound)
    );
}
