use validium_proxy::auth::erc1271::{erc1271_call_data, is_erc1271_magic, ERC1271_MAGIC_VALUE};
use validium_proxy::auth::jwt::{JwtSigner, JwtSignerKeyConfig};
use validium_proxy::auth::siwe::{
    classify_account, expiry, AccountType, SignIn, SignInAction, SignInEvent, SignInState, Verdict,
};
use validium_proxy::auth::SiweAuthRpcImpl;
use validium_proxy::{Address, RpcError};

const SIGNER: [u8; 20] = [
    0x6d, 0xa0, 0x16, 0x70, 0xd8, 0xfc, 0x84, 0x4e, 0x73, 0x60, 0x95, 0x91, 0x8b, 0xbe, 0x11, 0xfe,
    0x8d, 0x56, 0x41, 0x63,
];

fn message(nonce: &str) -> String {
    format!(
        "localhost:4361 wants you to sign in with your Ethereum account:\n\
         0x6Da01670d8fc844e736095918bbE11fE8D564163\n\
         \n\
         SIWE Notepad Example\n\
         \n\
         URI: http://localhost:4361\n\
         Version: 1\n\
         Chain ID: 1\n\
         Nonce: {}\n\
         Issued At: 2021-12-07T18:28:18.807Z",
        nonce
    )
}

fn jwt() -> JwtSigner {
    JwtSigner::from_config(
        &[JwtSignerKeyConfig { kid: "test".to_string(), secret: "test_secret".to_string() }],
        "test",
    )
    .unwrap()
}

fn service() -> SiweAuthRpcImpl {
    SiweAuthRpcImpl::new(jwt(), 3600)
}

fn invalid(detail: &str) -> RpcError {
    RpcError { code: -32602, message: "Invalid params".to_string(), data: Some(detail.to_string()) }
}

fn internal(detail: &str) -> RpcError {
    RpcError { code: -32603, message: "Internal error".to_string(), data: Some(detail.to_string()) }
}

fn response(action: SignInAction) -> Result<String, RpcError> {
    match action {
        SignInAction::Respond(res) => res,
        other => panic!("no response yet: {:?}", other),
    }
}

fn contract_code() -> Vec<u8> {
    vec![0x60, 0x80, 0x60, 0x40]
}

fn delegated_code() -> Vec<u8> {
    let mut code = vec![0xef, 0x01, 0x00];
    code.extend_from_slice(&[0x44; 20]);
    code
}

#[test]
fn test_account_classification_with_different_code_patterns() {
    let account_type = classify_account(&[]);
    assert_eq!(account_type, AccountType::Eoa);

    let account_type = classify_account(&[0x60, 0x80, 0x60, 0x40]);
    assert_eq!(account_type, AccountType::Contract);

    let mut code = vec![0xef, 0x01, 0x00];
    code.extend_from_slice(&[0x44; 20]);
    let account_type = classify_account(&code);
    assert_eq!(account_type, AccountType::Eip7702);
}

#[test]
fn only_23_bytes_with_the_prefix_are_delegated() {
    let mut code = delegated_code();
    assert_eq!(classify_account(&code), AccountType::Eip7702);
    code.push(0);
    assert_eq!(classify_account(&code), AccountType::Contract);
    code.truncate(22);
    assert_eq!(classify_account(&code), AccountType::Contract);
    assert_eq!(classify_account(&[0xef, 0x01, 0x00]), AccountType::Contract);
    assert_eq!(classify_account(&[0xef]), AccountType::Contract);
    let mut other = delegated_code();
    other[2] = 0x01;
    assert_eq!(classify_account(&other), AccountType::Contract);
    let mut other = delegated_code();
    other[0] = 0xee;
    assert_eq!(classify_account(&other), AccountType::Contract);
    assert_eq!(classify_account(&[0u8; 23]), AccountType::Contract);
    assert_eq!(classify_account(&[0u8]), AccountType::Contract);
}

#[test]
fn the_magic_value_is_the_first_four_bytes() {
    assert_eq!(ERC1271_MAGIC_VALUE, [0x16, 0x26, 0xba, 0x7e]);
    assert!(is_erc1271_magic(&[0x16, 0x26, 0xba, 0x7e]));
    let mut padded = vec![0x16, 0x26, 0xba, 0x7e];
    padded.extend_from_slice(&[0u8; 28]);
    assert!(is_erc1271_magic(&padded));
    assert!(!is_erc1271_magic(&[]));
    assert!(!is_erc1271_magic(&[0x16, 0x26, 0xba]));
    assert!(!is_erc1271_magic(&[0x16, 0x26, 0xba, 0x7f]));
    assert!(!is_erc1271_magic(&[0x00, 0x16, 0x26, 0xba, 0x7e]));
    assert!(!is_erc1271_magic(&[0xff; 32]));
}

#[test]
fn call_data_is_the_abi_encoding_of_the_call() {
    let hash = [0x11u8; 32];
    let signature = [0xaau8; 65];
    let mut expected = vec![0x16, 0x26, 0xba, 0x7e];
    expected.extend_from_slice(&hash);
    expected.extend_from_slice(&[0u8; 31]);
    expected.push(0x40);
    expected.extend_from_slice(&[0u8; 31]);
    expected.push(0x41);
    expected.extend_from_slice(&signature);
    expected.extend_from_slice(&[0u8; 31]);
    assert_eq!(expected.len(), 196);
    assert_eq!(erc1271_call_data(&hash, &signature), expected);

    // No padding for a multiple of 32, none for the empty string.
    let data = erc1271_call_data(&hash, &[0xbb; 64]);
    assert_eq!(data.len(), 4 + 32 + 32 + 32 + 64);
    assert_eq!(data[99], 0x40);
    assert_eq!(&data[100..], &[0xbb; 64][..]);
    let data = erc1271_call_data(&hash, &[]);
    assert_eq!(data.len(), 100);
    assert_eq!(&data[68..100], &[0u8; 32][..]);

    // A length of more than one byte.
    let data = erc1271_call_data(&hash, &vec![1u8; 0x1234]);
    assert_eq!(&data[68..98], &[0u8; 30][..]);
    assert_eq!(data[98], 0x12);
    assert_eq!(data[99], 0x34);
    assert_eq!(data.len(), 100 + 0x1234 + 12);
}

#[test]
fn expiry_is_now_plus_the_configured_seconds() {
    assert_eq!(expiry(1_000, 3_600), Some(4_600));
    assert_eq!(expiry(0, 0), Some(0));
    assert_eq!(expiry(1, usize::MAX), None);
    assert_eq!(expiry(u64::MAX, 1), None);
}

#[test]
fn sign_in_happy_path_for_an_externally_owned_account() {
    let mut siwe = service();
    let nonce = siwe.get_nonce_at(1_000).unwrap();
    assert_eq!(nonce.len(), 64);
    assert!(nonce.chars().all(|c| c.is_ascii_alphanumeric()));

    let text = message(&nonce);
    let mut session = siwe.sign_in_at(&text, &[7u8; 65], 1_100).unwrap();
    assert_eq!(session.address(), Address::new(SIGNER));
    assert_eq!(session.message(), text);
    assert_eq!(session.signature(), &[7u8; 65][..]);
    assert_eq!(session.state(), SignInState::AwaitingCode);
    assert!(matches!(session.begin(), SignInAction::GetCode { address } if address == Address::new(SIGNER)));

    let action = siwe.resume_at(&mut session, SignInEvent::Code(vec![]), 1_100);
    assert!(matches!(action, SignInAction::VerifyEoa));
    assert_eq!(session.state(), SignInState::AwaitingEoa);

    let action = siwe.resume_at(&mut session, SignInEvent::EoaVerified(true), 1_100);
    assert_eq!(session.state(), SignInState::Finished);
    let token = response(action).unwrap();
    let claims = jwt().decode_token_at(&token, 1_100).unwrap();
    assert_eq!(claims.address, Address::new(SIGNER));
    assert_eq!(claims.exp, 1_100 + 3_600);
}

#[test]
fn sign_in_replay_is_refused() {
    let mut siwe = service();
    let nonce = siwe.get_nonce_at(1_000).unwrap();
    let text = message(&nonce);
    assert!(siwe.sign_in_at(&text, &[7u8; 65], 1_001).is_ok());
    let second = siwe.sign_in_at(&text, &[7u8; 65], 1_002).unwrap_err();
    assert_eq!(second, invalid(&format!("invalid message nonce: {}", nonce)));
}

#[test]
fn sign_in_with_a_nonce_that_was_not_issued_is_refused() {
    let mut siwe = service();
    let text = message("kEWepMt9knR6lWJ6A");
    let err = siwe.sign_in(&text, &[7u8; 65]).unwrap_err();
    assert_eq!(err, invalid("invalid message nonce: kEWepMt9knR6lWJ6A"));
}

#[test]
fn sign_in_with_a_stale_nonce_is_refused_and_burns_it() {
    let mut siwe = service();
    let nonce = siwe.get_nonce_at(1_000).unwrap();
    let text = message(&nonce);
    let err = siwe.sign_in_at(&text, &[], 1_301).unwrap_err();
    assert_eq!(err, invalid(&format!("invalid message nonce: {}", nonce)));
    assert!(siwe.sign_in_at(&text, &[], 1_001).is_err());
}

#[test]
fn sign_in_with_a_text_that_is_no_message_is_refused() {
    let mut siwe = service();
    let nonce = siwe.get_nonce_at(1_000).unwrap();
    let err = siwe.sign_in_at("hello", &[], 1_001).unwrap_err();
    assert_eq!(err, invalid("invalid message: Formatting Error: Missing Preamble Line"));
    // Nothing was consumed.
    assert!(siwe.sign_in_at(&message(&nonce), &[], 1_001).is_ok());
}

#[test]
fn a_forged_signature_still_burns_the_nonce() {
    let mut siwe = service();
    let nonce = siwe.get_nonce_at(1_000).unwrap();
    let text = message(&nonce);
    let mut session = siwe.sign_in_at(&text, &[0u8; 65], 1_001).unwrap();
    siwe.resume_at(&mut session, SignInEvent::Code(vec![]), 1_001);
    let action = siwe.resume_at(&mut session, SignInEvent::EoaVerified(false), 1_001);
    assert_eq!(response(action), Err(invalid("invalid message or signature")));
    assert_eq!(
        siwe.sign_in_at(&text, &[0u8; 65], 1_002).unwrap_err(),
        invalid(&format!("invalid message nonce: {}", nonce))
    );
}

fn expected_call_data(text: &str, signature: &[u8]) -> Vec<u8> {
    let prefixed = format!("\x19Ethereum Signed Message:\n{}{}", text.len(), text);
    let hash = alloy::primitives::keccak256(prefixed.as_bytes());
    erc1271_call_data(&hash.0, signature)
}

#[test]
fn sign_in_of_a_contract_account() {
    let mut siwe = service();
    let nonce = siwe.get_nonce_at(5).unwrap();
    let text = message(&nonce);
    let signature = vec![9u8; 70];
    let mut session = siwe.sign_in_at(&text, &signature, 6).unwrap();

    let action = siwe.resume_at(&mut session, SignInEvent::Code(contract_code()), 6);
    assert_eq!(session.state(), SignInState::AwaitingContract { fallback: false });
    match action {
        SignInAction::CallContract { to, data } => {
            assert_eq!(to, Address::new(SIGNER));
            assert_eq!(data, expected_call_data(&text, &signature));
            assert_eq!(&data[..4], &[0x16, 0x26, 0xba, 0x7e]);
        }
        other => panic!("unexpected: {:?}", other),
    }

    let mut answer = vec![0x16, 0x26, 0xba, 0x7e];
    answer.extend_from_slice(&[0u8; 28]);
    let action = siwe.resume_at(&mut session, SignInEvent::ContractReturned(answer), 7);
    let token = response(action).unwrap();
    let claims = jwt().decode_token_at(&token, 7).unwrap();
    assert_eq!(claims.address, Address::new(SIGNER));
    assert_eq!(claims.exp, 3_607);
}

fn run(code: SignInEvent, contract: SignInEvent, eoa: bool) -> (Result<String, RpcError>, usize) {
    let mut siwe = service();
    let nonce = siwe.get_nonce_at(5).unwrap();
    let mut session = siwe.sign_in_at(&message(&nonce), &[9u8; 65], 6).unwrap();
    let mut steps = 1;
    let mut action = siwe.resume_at(&mut session, code, 6);
    loop {
        let event = match action {
            SignInAction::Respond(res) => {
                assert_eq!(session.state(), SignInState::Finished);
                return (res, steps);
            }
            SignInAction::CallContract { .. } => contract.clone(),
            SignInAction::VerifyEoa => SignInEvent::EoaVerified(eoa),
            SignInAction::GetCode { .. } => panic!("the code was fetched already"),
        };
        steps += 1;
        action = siwe.resume_at(&mut session, event, 6);
    }
}

fn magic() -> SignInEvent {
    SignInEvent::ContractReturned(vec![0x16, 0x26, 0xba, 0x7e])
}

fn no_magic() -> SignInEvent {
    SignInEvent::ContractReturned(vec![0u8; 32])
}

#[test]
fn verdicts_by_account_type() {
    let bad_signature = Err(invalid("invalid message or signature"));
    let failure = Err(internal("signature verification failed"));

    // The code cannot be fetched.
    assert_eq!(run(SignInEvent::CodeFailed, magic(), true), (failure.clone(), 1));

    // Externally owned: ECDSA alone.
    assert!(run(SignInEvent::Code(vec![]), no_magic(), true).0.is_ok());
    assert_eq!(run(SignInEvent::Code(vec![]), magic(), false), (bad_signature.clone(), 2));

    // Contract: the call alone; a failed call is a failure.
    let code = SignInEvent::Code(contract_code());
    assert!(run(code.clone(), magic(), false).0.is_ok());
    assert_eq!(run(code.clone(), no_magic(), true), (bad_signature.clone(), 2));
    assert_eq!(run(code.clone(), SignInEvent::ContractFailed, true), (failure.clone(), 2));

    // Delegated: the call first, then ECDSA.
    let code = SignInEvent::Code(delegated_code());
    let (res, steps) = run(code.clone(), magic(), false);
    assert!(res.is_ok());
    assert_eq!(steps, 2);
    let (res, steps) = run(code.clone(), no_magic(), true);
    assert!(res.is_ok());
    assert_eq!(steps, 3);
    let (res, steps) = run(code.clone(), SignInEvent::ContractFailed, true);
    assert!(res.is_ok());
    assert_eq!(steps, 3);
    assert_eq!(run(code.clone(), no_magic(), false), (bad_signature.clone(), 3));
    assert_eq!(run(code, SignInEvent::ContractFailed, false), (bad_signature, 3));
}

#[test]
fn an_answer_that_was_not_asked_for_ends_the_sign_in() {
    let failure = Err(internal("signature verification failed"));
    let mut siwe = service();
    let nonce = siwe.get_nonce_at(5).unwrap();
    let mut session = siwe.sign_in_at(&message(&nonce), &[9u8; 65], 6).unwrap();
    let action = siwe.resume_at(&mut session, SignInEvent::EoaVerified(true), 6);
    assert_eq!(response(action), failure);
    assert_eq!(session.state(), SignInState::Finished);
    let action = siwe.resume(&mut session, SignInEvent::Code(vec![]));
    assert_eq!(response(action), failure);
}

#[test]
fn responses_by_verdict() {
    let siwe = service();
    let who = Address::new(SIGNER);
    assert_eq!(
        siwe.respond_at(who, Verdict::Invalid, 0),
        Err(invalid("invalid message or signature"))
    );
    assert_eq!(
        siwe.respond_at(who, Verdict::Failed, 0),
        Err(internal("signature verification failed"))
    );
    assert_eq!(
        siwe.respond_at(who, Verdict::Valid, 10),
        Ok(jwt().create_token(who, 3_610).unwrap())
    );
    let endless = SiweAuthRpcImpl::new(jwt(), usize::MAX);
    assert_eq!(endless.respond_at(who, Verdict::Valid, 1), Err(internal("unable to issue token")));
}

#[test]
fn get_nonce_hands_out_distinct_nonces() {
    let mut siwe = service();
    let a = siwe.get_nonce().unwrap();
    let b = siwe.get_nonce().unwrap();
    assert_ne!(a, b);
    assert_eq!(a.len(), 64);
    assert!(siwe.sign_in(&message(&a), &[]).is_ok());
    assert!(siwe.sign_in(&message(&a), &[]).is_err());
    assert!(siwe.sign_in(&message(&b), &[]).is_ok());
}

#[test]
fn a_sign_in_starts_by_what_the_store_gave_back() {
    let who = Address::new(SIGNER);
    let refused = Err(invalid("invalid message nonce: abc"));

    let session = SignIn::start("text", &[1, 2, 3], who, "abc", Some(1_000), 1_300).unwrap();
    assert_eq!(session.message(), "text");
    assert_eq!(session.signature(), &[1u8, 2, 3][..]);
    assert_eq!(session.address(), who);
    assert_eq!(session.state(), SignInState::AwaitingCode);

    assert!(SignIn::start("text", &[], who, "abc", Some(1_000), 1_000).is_ok());
    assert!(SignIn::start("text", &[], who, "abc", Some(1_000), 0).is_ok());
    assert_eq!(
        SignIn::start("text", &[], who, "abc", Some(1_000), 1_301).map(|s| s.state()),
        refused
    );
    assert_eq!(SignIn::start("text", &[], who, "abc", None, 0).map(|s| s.state()), refused);
    assert_eq!(
        SignIn::start("text", &[], who, "", None, 5).map(|s| s.state()),
        Err(invalid("invalid message nonce: "))
    );
}

#[test]
fn a_valid_signature_always_earns_the_token() {
    let siwe = service();
    for byte in [0x00u8, 0x01, 0x7f, 0xff] {
        let who = Address::new([byte; 20]);
        for now in [0u64, 1, 1_750_000_000] {
            let token = siwe.respond_at(who, Verdict::Valid, now).unwrap();
            let claims = jwt().decode_token_at(&token, now).unwrap();
            assert_eq!(claims.address, who);
            assert_eq!(claims.exp as u64, now + 3600);
        }
    }
}
