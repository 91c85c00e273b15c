use payment_engine::handlers::payment_engine_handler::{
    buy_energy_answer, confirm_buying_answer, confirm_selling_answer, confirmation_signature,
    keypair_failed, sell_energy_answer, trade_signature, user_lookup_failed, BuyEnergyRequest,
    ConfirmRequest, SellEnergyRequest,
};
use payment_engine::handlers::users_handler::{
    authenticate, internal_error, judge_login, prepare_sign_up, requested_user_id, unknown_user,
    DeleteUserResponse, GetUserResponse, LoginRequest, LoginResponse, SignUpRequest, SignUpResponse,
    UpdateUserRequest, UpdateUserResponse,
};
use payment_engine::handlers::{ErrorResponse, StatusCode};
use payment_engine::middleware::auth::{hash_password_with_salt, verify_password};
use payment_engine::models::users::User;
use payment_engine::signature::Signature;
use payment_engine::solana::SettlementOutcome;

const COUNTING: &str =
    "2Ana1pUpv2ZbMVkwF5FXapYeBEjdxDatLn7nvJkhgTSXbs59SyZSx866bXirPgj8QQVB57uxHJBG1YFvkRbFj4T";

fn counting_signature() -> Signature {
    let mut bytes = [0u8; 64];
    for (i, byte) in bytes.iter_mut().enumerate() {
        *byte = i as u8 + 1;
    }
    Signature { bytes }
}

fn user(password_hash: &str) -> User {
    User {
        id: "u1".to_string(),
        name: "Ada".to_string(),
        email: "ada@example.com".to_string(),
        password_hash: password_hash.to_string(),
        public_key: "PublicKey".to_string(),
        private_key: vec![1, 2, 3],
    }
}

fn engine_error() -> ErrorResponse {
    ErrorResponse::new(StatusCode::InternalServerError, "Payment engine returned an error")
}

fn expect_refusal<T>(answer: Result<T, (StatusCode, ErrorResponse)>, message: &str) {
    match answer {
        Ok(_) => panic!("expected the refusal: {}", message),
        Err((status, body)) => {
            assert_eq!(status, StatusCode::InternalServerError);
            assert_eq!(body.status_code, 500);
            assert_eq!(body.error, message);
        }
    }
}

#[test]
fn error_response_carries_status_and_message() {
    let bad = ErrorResponse::new(StatusCode::BadRequest, "no");
    assert_eq!((bad.status_code, bad.error.as_str()), (400, "no"));
    let denied = ErrorResponse::new(StatusCode::Unauthorized, "");
    assert_eq!((denied.status_code, denied.error.as_str()), (401, ""));
}

#[test]
fn signatures_are_answered_in_base58() {
    assert_eq!(
        trade_signature(Ok((counting_signature(), "E1".to_string()))).unwrap(),
        COUNTING
    );
    assert_eq!(
        confirmation_signature(SettlementOutcome::Confirmed(counting_signature())).unwrap(),
        COUNTING
    );
    assert_eq!(
        confirmation_signature(SettlementOutcome::Refunded(Signature { bytes: [0u8; 64] }))
            .unwrap(),
        "1".repeat(64)
    );
    let passed = trade_signature(Err(engine_error())).unwrap_err();
    assert_eq!((passed.status_code, passed.error.as_str()), (500, "Payment engine returned an error"));
    let failed = confirmation_signature(SettlementOutcome::Failed("x".to_string())).unwrap_err();
    assert_eq!((failed.status_code, failed.error.as_str()), (500, "x"));
}

#[test]
fn trade_answers_carry_the_signature() {
    assert_eq!(sell_energy_answer(Ok("sig-1".to_string())).unwrap().signature, "sig-1");
    assert_eq!(buy_energy_answer(Ok("sig-2".to_string())).unwrap().signature, "sig-2");
    assert_eq!(confirm_selling_answer(Ok("sig-3".to_string())).unwrap().signature, "sig-3");
    assert_eq!(confirm_buying_answer(Ok(String::new())).unwrap().signature, "");
}

#[test]
fn failed_trades_are_refused_with_status_500() {
    expect_refusal(sell_energy_answer(Err(engine_error())), "Failed to sell energy");
    expect_refusal(buy_energy_answer(Err(engine_error())), "Failed to buy energy");
    expect_refusal(confirm_selling_answer(Err(engine_error())), "Failed to confirm selling");
    expect_refusal(confirm_buying_answer(Err(engine_error())), "Failed to confirm buying");
}

#[test]
fn failures_before_the_trade_are_refused_with_status_500() {
    expect_refusal(Err::<(), _>(user_lookup_failed()), "Failed to retrieve user by ID");
    expect_refusal(
        Err::<(), _>(keypair_failed()),
        "Failed to create keypair from user's private key",
    );
}

#[test]
fn requests_hold_what_was_asked() {
    assert_eq!(SellEnergyRequest { usdc_amount: 5 }.usdc_amount, 5);
    assert_eq!(BuyEnergyRequest { energy_amount: 6 }.energy_amount, 6);
    assert_eq!(ConfirmRequest { escrow_public_key: "E".to_string() }.escrow_public_key, "E");
    let login = LoginRequest { email: "a@b".to_string(), password: "p".to_string() };
    assert_eq!((login.email.as_str(), login.password.as_str()), ("a@b", "p"));
    let update = UpdateUserRequest { name: Some("Ada".to_string()), email: None };
    assert_eq!(update.name.as_deref(), Some("Ada"));
    assert!(update.email.is_none());
}

#[test]
fn user_asked_for_is_the_one_named_or_the_one_asking() {
    assert_eq!(requested_user_id("u7", "u1"), "u7");
    assert_eq!(requested_user_id("", "u1"), "u1");
    assert_eq!(requested_user_id("", ""), "");
    assert_eq!(requested_user_id("u7", ""), "u7");
    assert_eq!(requested_user_id(" ", "u1"), " ");
}

#[test]
fn answers_about_a_user_leave_the_password_out() {
    let shown = GetUserResponse::of(user("salt:mac"));
    assert_eq!(shown.id, "u1");
    assert_eq!(shown.name, "Ada");
    assert_eq!(shown.email, "ada@example.com");
    assert_eq!(shown.public_key, "PublicKey");
    assert_eq!(shown.private_key, vec![1, 2, 3]);
    let signed_up = SignUpResponse::of(user("salt:mac"));
    assert_eq!(
        (signed_up.id.as_str(), signed_up.name.as_str(), signed_up.email.as_str(), signed_up.public_key.as_str()),
        ("u1", "Ada", "ada@example.com", "PublicKey")
    );
    let updated = UpdateUserResponse::of(user("salt:mac"));
    assert_eq!(
        (updated.id.as_str(), updated.name.as_str(), updated.email.as_str(), updated.public_key.as_str()),
        ("u1", "Ada", "ada@example.com", "PublicKey")
    );
    let logged_in = LoginResponse::of(user("salt:mac"), "token".to_string());
    assert_eq!(logged_in.token, "token");
    assert_eq!(logged_in.user.id, "u1");
    assert_eq!(logged_in.user.private_key, vec![1, 2, 3]);
    assert_eq!(DeleteUserResponse::done().message, "User successfully deleted");
}

#[test]
fn errors_carry_the_reason_they_were_given() {
    let internal = internal_error("no such table".to_string());
    assert_eq!((internal.status_code, internal.error.as_str()), (500, "no such table"));
    let unknown = unknown_user("no rows returned".to_string());
    assert_eq!((unknown.status_code, unknown.error.as_str()), (401, "no rows returned"));
}

#[test]
fn sign_up_with_a_registered_email_is_a_bad_request() {
    let payload = SignUpRequest {
        name: "Ada".to_string(),
        email: "ada@example.com".to_string(),
        password: "s3cret".to_string(),
    };
    let refused = prepare_sign_up(true, &payload).unwrap_err();
    assert_eq!(refused.status_code, 400);
    assert_eq!(refused.error, "Email is already registered");
}

#[test]
fn sign_up_stores_a_password_that_verifies() {
    let payload = SignUpRequest {
        name: "Ada".to_string(),
        email: "ada@example.com".to_string(),
        password: "s3cret".to_string(),
    };
    let stored = prepare_sign_up(false, &payload).unwrap();
    assert_eq!(verify_password("s3cret", &stored), Ok(true));
    assert_eq!(verify_password("other", &stored), Ok(false));
    assert_eq!(stored.len(), 129);
}

#[test]
fn login_is_judged_by_the_verdict_on_the_password() {
    assert!(judge_login(Ok(true)).is_ok());
    let wrong = judge_login(Ok(false)).unwrap_err();
    assert_eq!((wrong.status_code, wrong.error.as_str()), (401, "Invalid credentials"));
    let broken = judge_login(Err(StatusCode::Unauthorized)).unwrap_err();
    assert_eq!((broken.status_code, broken.error.as_str()), (500, "Password verification failed"));
}

#[test]
fn user_is_let_in_with_the_right_password_only() {
    let stored = hash_password_with_salt("s3cret", &[7u8; 32]).unwrap();
    assert!(authenticate(&user(&stored), "s3cret").is_ok());
    let wrong = authenticate(&user(&stored), "S3cret").unwrap_err();
    assert_eq!((wrong.status_code, wrong.error.as_str()), (401, "Invalid credentials"));
    let broken = authenticate(&user("not a stored password"), "s3cret").unwrap_err();
    assert_eq!((broken.status_code, broken.error.as_str()), (500, "Password verification failed"));
}
