//! Requests and answers of the trading endpoints, and how the outcome of a
//! call to the payment engine service becomes an answer.

use super::{ErrorResponse, StatusCode};
use crate::signature::{signature_base58, Signature};
use crate::solana::SettlementOutcome;
use vstd::prelude::*;

verus! {

/// A producer offers energy for this many USDC.
#[derive(Debug)]
pub struct SellEnergyRequest {
    pub usdc_amount: u64,
}

#[derive(Debug)]
pub struct SellEnergyResponse {
    pub signature: String,
}

/// A consumer asks for this many units of energy.
#[derive(Debug)]
pub struct BuyEnergyRequest {
    pub energy_amount: u64,
}

#[derive(Debug)]
pub struct BuyEnergyResponse {
    pub signature: String,
}

/// Names the escrow to settle.
#[derive(Debug)]
pub struct ConfirmRequest {
    pub escrow_public_key: String,
}

#[derive(Debug)]
pub struct ConfirmResponse {
    pub signature: String,
}

pub open spec fn user_lookup_message() -> Seq<char> {
    "Failed to retrieve user by ID"@
}

pub open spec fn keypair_message() -> Seq<char> {
    "Failed to create keypair from user's private key"@
}

pub open spec fn sell_failed_message() -> Seq<char> {
    "Failed to sell energy"@
}

pub open spec fn buy_failed_message() -> Seq<char> {
    "Failed to buy energy"@
}

pub open spec fn confirm_selling_failed_message() -> Seq<char> {
    "Failed to confirm selling"@
}

pub open spec fn confirm_buying_failed_message() -> Seq<char> {
    "Failed to confirm buying"@
}

/// A refusal with status 500 and the given message, both as the status of
/// the answer and in its body.
pub open spec fn is_refusal(refusal: (StatusCode, ErrorResponse), message: Seq<char>) -> bool {
    refusal.0 == StatusCode::InternalServerError && refusal.1.says(
        StatusCode::InternalServerError,
        message,
    )
}

fn refusal(message: &str) -> (refusal: (StatusCode, ErrorResponse))
    ensures
        is_refusal(refusal, message@),
{
    (
        StatusCode::InternalServerError,
        ErrorResponse::new(StatusCode::InternalServerError, message),
    )
}

/// The answer when the user who asks cannot be read from the store.
pub fn user_lookup_failed() -> (refused: (StatusCode, ErrorResponse))
    ensures
        is_refusal(refused, user_lookup_message()),
{
    refusal("Failed to retrieve user by ID")
}

/// The answer when the user's stored key is no key pair.
pub fn keypair_failed() -> (refused: (StatusCode, ErrorResponse))
    ensures
        is_refusal(refused, keypair_message()),
{
    refusal("Failed to create keypair from user's private key")
}

/// The signature of a trade that was opened, in base58. An error is passed
/// on as it is.
pub fn trade_signature(outcome: Result<(Signature, String), ErrorResponse>) -> (text: Result<
    String,
    ErrorResponse,
>)
    ensures
        match outcome {
            Ok((signature, _)) => text matches Ok(written) && written@ == signature_base58(
                signature@,
            ),
            Err(error) => text matches Err(passed) && passed == error,
        },
{
    match outcome {
        Ok((signature, _)) => Ok(signature.to_string()),
        Err(error) => Err(error),
    }
}

/// The signature of a settlement that took effect, by confirmation or by
/// refund, in base58; for one that failed, an error with the reason.
pub fn confirmation_signature(outcome: SettlementOutcome) -> (text: Result<String, ErrorResponse>)
    ensures
        match outcome {
            SettlementOutcome::Confirmed(signature) | SettlementOutcome::Refunded(signature) => {
                text matches Ok(written) && written@ == signature_base58(signature@)
            },
            SettlementOutcome::Failed(reason) => text matches Err(error) && error.status_code
                == StatusCode::InternalServerError.code() && error.error == reason,
        },
{
    match outcome {
        SettlementOutcome::Confirmed(signature) => Ok(signature.to_string()),
        SettlementOutcome::Refunded(signature) => Ok(signature.to_string()),
        SettlementOutcome::Failed(reason) => Err(
            ErrorResponse { status_code: StatusCode::InternalServerError.as_u16(), error: reason },
        ),
    }
}

/// The answer to a request to sell: the signature of the transaction that
/// opened the sale, or a refusal.
pub fn sell_energy_answer(signature: Result<String, ErrorResponse>) -> (answer: Result<
    SellEnergyResponse,
    (StatusCode, ErrorResponse),
>)
    ensures
        match signature {
            Ok(text) => answer matches Ok(response) && response.signature == text,
            Err(_) => answer matches Err(refused) && is_refusal(refused, sell_failed_message()),
        },
{
    match signature {
        Ok(text) => Ok(SellEnergyResponse { signature: text }),
        Err(_) => Err(refusal("Failed to sell energy")),
    }
}

/// The answer to a request to buy.
pub fn buy_energy_answer(signature: Result<String, ErrorResponse>) -> (answer: Result<
    BuyEnergyResponse,
    (StatusCode, ErrorResponse),
>)
    ensures
        match signature {
            Ok(text) => answer matches Ok(response) && response.signature == text,
            Err(_) => answer matches Err(refused) && is_refusal(refused, buy_failed_message()),
        },
{
    match signature {
        Ok(text) => Ok(BuyEnergyResponse { signature: text }),
        Err(_) => Err(refusal("Failed to buy energy")),
    }
}

/// The answer to a request to settle a sale.
pub fn confirm_selling_answer(signature: Result<String, ErrorResponse>) -> (answer: Result<
    ConfirmResponse,
    (StatusCode, ErrorResponse),
>)
    ensures
        match signature {
            Ok(text) => answer matches Ok(response) && response.signature == text,
            Err(_) => answer matches Err(refused) && is_refusal(
                refused,
                confirm_selling_failed_message(),
            ),
        },
{
    match signature {
        Ok(text) => Ok(ConfirmResponse { signature: text }),
        Err(_) => Err(refusal("Failed to confirm selling")),
    }
}

/// The answer to a request to settle a purchase.
pub fn confirm_buying_answer(signature: Result<String, ErrorResponse>) -> (answer: Result<
    ConfirmResponse,
    (StatusCode, ErrorResponse),
>)
    ensures
        match signature {
            Ok(text) => answer matches Ok(response) && response.signature == text,
            Err(_) => answer matches Err(refused) && is_refusal(
                refused,
                confirm_buying_failed_message(),
            ),
        },
{
    match signature {
        Ok(text) => Ok(ConfirmResponse { signature: text }),
        Err(_) => Err(refusal("Failed to confirm buying")),
    }
}

} // verus!
