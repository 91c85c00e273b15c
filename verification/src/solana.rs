//! The settlement client: what is asked of the payment engine service, and
//! what its answers mean. Sending and receiving is left to the caller.

use crate::handlers::payment_engine_handler::{BuyEnergyRequest, SellEnergyRequest};
use crate::handlers::{ErrorResponse, StatusCode};
use crate::signature::{base58_signature, Signature};
use crate::state::DeVoltError;
use vstd::prelude::*;

verus! {

/// Seconds after which a request to the service is given up, unless the
/// deployment sets another bound.
pub const DEFAULT_TIMEOUT_SECS: u64 = 12000;

/// Parameters of a `sell_energy` request.
#[derive(Debug)]
pub struct SellEnergy {
    pub seed: u64,
    pub usdc_amount: u64,
    pub producer_keypair_bytes: Vec<u8>,
}

/// Parameters of a `buy_energy` request.
#[derive(Debug)]
pub struct BuyEnergy {
    pub seed: u64,
    pub energy_amount: u64,
    pub consumer_keypair_bytes: Vec<u8>,
}

/// Parameters of a `confirm_selling` request.
#[derive(Debug)]
pub struct ConfirmSellingPayload {
    pub escrow_public_key: String,
}

/// Parameters of a `confirm_buying` request.
#[derive(Debug)]
pub struct ConfirmBuyingPayload {
    pub escrow_public_key: String,
}

/// The parameters of a request, by method.
#[derive(Debug)]
pub enum Params {
    SellEnergy(SellEnergy),
    BuyEnergy(BuyEnergy),
    ConfirmSelling(ConfirmSellingPayload),
    ConfirmBuying(ConfirmBuyingPayload),
}

impl Params {
    /// The method name that goes with these parameters.
    pub open spec fn method(&self) -> Seq<char> {
        match self {
            Params::SellEnergy(_) => "sell_energy"@,
            Params::BuyEnergy(_) => "buy_energy"@,
            Params::ConfirmSelling(_) => "confirm_selling"@,
            Params::ConfirmBuying(_) => "confirm_buying"@,
        }
    }
}

/// One JSON-RPC request to the service.
#[derive(Debug)]
pub struct Payload {
    pub jsonrpc: String,
    pub method: String,
    pub params: Params,
    pub id: u64,
}

impl Payload {
    /// A request as the service expects it: protocol version 2.0, the method
    /// that belongs to the parameters, request id 1.
    pub open spec fn well_formed(&self) -> bool {
        &&& self.jsonrpc@ == "2.0"@
        &&& self.method@ == self.params.method()
        &&& self.id == 1
    }
}

/// The `result` member of an answer.
#[derive(Debug)]
pub struct ResponseResult {
    pub transaction_id: String,
    pub escrow_public_key: Option<String>,
    /// How a settlement ended: set where the ledger called the escrow off
    /// and made the maker whole, unset where it settled the escrow as
    /// agreed. Unset in the answer to a request that opens a trade.
    pub refunded: bool,
}

/// The `error` member of an answer: its `message`, where it has one that is
/// text.
#[derive(Debug)]
pub struct RpcError {
    pub message: Option<String>,
}

/// One JSON-RPC answer of the service.
#[derive(Debug)]
pub struct ApiResponse {
    pub jsonrpc: String,
    pub result: Option<ResponseResult>,
    pub error: Option<RpcError>,
    pub id: u64,
}

/// How an attempt to talk to the service ended.
#[derive(Debug)]
pub enum Exchange {
    /// The request did not go out, or no answer came within the time bound.
    SendFailed,
    /// An answer came that is no JSON-RPC answer.
    Unreadable,
    /// The service answered.
    Answered(ApiResponse),
}

pub open spec fn send_failed_message() -> Seq<char> {
    "Failed to send request to payment engine"@
}

pub open spec fn unreadable_message() -> Seq<char> {
    "Failed to parse response from payment engine"@
}

pub open spec fn bad_signature_message() -> Seq<char> {
    "Failed to parse transaction signature"@
}

pub open spec fn engine_error_message() -> Seq<char> {
    "Payment engine returned an error"@
}

pub open spec fn invalid_response_message() -> Seq<char> {
    "Invalid response from payment engine"@
}

/// The escrow key that an answer names, or the empty text where it names none.
pub open spec fn escrow_key_of(result: ResponseResult) -> Seq<char> {
    match result.escrow_public_key {
        Some(key) => key@,
        None => Seq::empty(),
    }
}

/// What an exchange amounts to, given what the transaction id in it decodes
/// to: the signature bytes and the escrow key, or the message of the error.
/// A `result` wins over an `error`; an answer with neither is invalid.
pub open spec fn exchange_meaning(exchange: Exchange, decoded: Option<Seq<u8>>) -> Result<
    (Seq<u8>, Seq<char>),
    Seq<char>,
> {
    match exchange {
        Exchange::SendFailed => Err(send_failed_message()),
        Exchange::Unreadable => Err(unreadable_message()),
        Exchange::Answered(response) => match response.result {
            Some(result) => match decoded {
                Some(bytes) => Ok((bytes, escrow_key_of(result))),
                None => Err(bad_signature_message()),
            },
            None => if response.error is Some {
                Err(engine_error_message())
            } else {
                Err(invalid_response_message())
            },
        },
    }
}

/// The transaction id that an exchange carries, if it carries a result.
pub open spec fn transaction_id_of(exchange: Exchange) -> Option<Seq<char>> {
    match exchange {
        Exchange::Answered(response) => match response.result {
            Some(result) => Some(result.transaction_id@),
            None => None,
        },
        _ => None,
    }
}

/// What the transaction id of an exchange decodes to as a base58 signature.
pub open spec fn decoded_transaction_id(exchange: Exchange) -> Option<Seq<u8>> {
    match transaction_id_of(exchange) {
        Some(text) => base58_signature(text),
        None => None,
    }
}

/// An outcome agrees with a meaning: the same signature and key, or an error
/// answer with status 500 and the same message.
pub open spec fn trade_agrees(
    outcome: Result<(Signature, String), ErrorResponse>,
    meaning: Result<(Seq<u8>, Seq<char>), Seq<char>>,
) -> bool {
    match (outcome, meaning) {
        (Ok((signature, key)), Ok((bytes, escrow))) => signature@ == bytes && key@ == escrow,
        (Err(error), Err(message)) => error.says(StatusCode::InternalServerError, message),
        _ => false,
    }
}

/// Whether an exchange reports that the ledger refunded the escrow.
pub open spec fn refund_reported(exchange: Exchange) -> bool {
    match exchange {
        Exchange::Answered(response) => match response.result {
            Some(result) => result.refunded,
            None => false,
        },
        _ => false,
    }
}

/// How a settlement attempt ended.
#[derive(Debug)]
pub enum SettlementOutcome {
    /// The escrow was settled as agreed; the ledger's reference follows.
    Confirmed(Signature),
    /// The escrow was called off and the maker made whole; the ledger's
    /// reference follows.
    Refunded(Signature),
    /// The attempt did not reach a result; the reason follows.
    Failed(String),
}

/// The outcome of a settlement agrees with what its exchange means:
/// `Refunded` with the signature where the answer carries one and reports a
/// refund, `Confirmed` with the signature where it carries one and reports
/// none, `Failed` with the message where the exchange is an error.
pub open spec fn settlement_agrees(
    outcome: SettlementOutcome,
    meaning: Result<(Seq<u8>, Seq<char>), Seq<char>>,
    refunded: bool,
) -> bool {
    match (outcome, meaning) {
        (SettlementOutcome::Refunded(signature), Ok((bytes, _))) => refunded && signature@
            == bytes,
        (SettlementOutcome::Confirmed(signature), Ok((bytes, _))) => !refunded && signature@
            == bytes,
        (SettlementOutcome::Failed(reason), Err(message)) => reason@ == message,
        _ => false,
    }
}

impl SettlementOutcome {
    /// Whether the attempt came to nothing. The escrow is then as it was, and
    /// a later poll that still lists it as pending starts a new attempt.
    pub open spec fn failed(&self) -> bool {
        self is Failed
    }

    /// What a ledger operation's own report amounts to, `signature` being the
    /// reference of the transaction that carried it.
    pub fn of_ledger(report: Result<(), DeVoltError>, signature: Signature) -> (outcome:
        SettlementOutcome)
        ensures
            match report {
                Ok(_) => outcome == SettlementOutcome::Confirmed(signature),
                Err(DeVoltError::Refunded) => outcome == SettlementOutcome::Refunded(signature),
                Err(error) => outcome matches SettlementOutcome::Failed(reason) && reason@
                    == error.text(),
            },
    {
        match report {
            Ok(_) => SettlementOutcome::Confirmed(signature),
            Err(DeVoltError::Refunded) => SettlementOutcome::Refunded(signature),
            Err(error) => SettlementOutcome::Failed(error.message()),
        }
    }

    /// Whether the attempt came to nothing.
    pub fn is_failed(&self) -> (failed: bool)
        ensures
            failed == self.failed(),
    {
        match self {
            SettlementOutcome::Failed(_) => true,
            _ => false,
        }
    }
}

/// The message of an error that the service reported, or "Unknown error".
pub fn error_message(error: &RpcError) -> (message: String)
    ensures
        message@ == match error.message {
            Some(text) => text@,
            None => "Unknown error"@,
        },
{
    match &error.message {
        Some(text) => text.clone(),
        None => "Unknown error".to_owned(),
    }
}

/// The answer to a caller when talking to the service failed in the given way.
fn failure(message: &str) -> (error: ErrorResponse)
    ensures
        error.says(StatusCode::InternalServerError, message@),
{
    ErrorResponse::new(StatusCode::InternalServerError, message)
}

/// Reads an exchange, given the signature that its transaction id was parsed
/// to (`None` where it did not parse, or where there is no transaction id).
pub fn read_exchange(exchange: Exchange, parsed: Option<Signature>) -> (outcome: Result<
    (Signature, String),
    ErrorResponse,
>)
    ensures
        trade_agrees(
            outcome,
            exchange_meaning(
                exchange,
                match parsed {
                    Some(signature) => Some(signature@),
                    None => None,
                },
            ),
        ),
{
    match exchange {
        Exchange::SendFailed => Err(failure("Failed to send request to payment engine")),
        Exchange::Unreadable => Err(failure("Failed to parse response from payment engine")),
        Exchange::Answered(response) => match response.result {
            Some(result) => match parsed {
                Some(signature) => {
                    let escrow_public_key = match result.escrow_public_key {
                        Some(key) => key,
                        None => String::new(),
                    };
                    Ok((signature, escrow_public_key))
                },
                None => Err(failure("Failed to parse transaction signature")),
            },
            None => match response.error {
                Some(_) => Err(failure("Payment engine returned an error")),
                None => Err(failure("Invalid response from payment engine")),
            },
        },
    }
}

/// Reads the exchange of a settlement, given the signature that its
/// transaction id was parsed to (`None` where it did not parse, or where
/// there is no transaction id).
pub fn read_settlement(exchange: Exchange, parsed: Option<Signature>) -> (outcome:
    SettlementOutcome)
    ensures
        settlement_agrees(
            outcome,
            exchange_meaning(
                exchange,
                match parsed {
                    Some(signature) => Some(signature@),
                    None => None,
                },
            ),
            refund_reported(exchange),
        ),
{
    let refunded = match &exchange {
        Exchange::Answered(response) => match &response.result {
            Some(result) => result.refunded,
            None => false,
        },
        _ => false,
    };
    match read_exchange(exchange, parsed) {
        Ok((signature, _)) => if refunded {
            SettlementOutcome::Refunded(signature)
        } else {
            SettlementOutcome::Confirmed(signature)
        },
        Err(error) => SettlementOutcome::Failed(error.error),
    }
}

/// Parses the transaction id of an exchange, where it carries one.
pub fn parse_transaction_id(exchange: &Exchange) -> (parsed: Option<Signature>)
    ensures
        match parsed {
            Some(signature) => decoded_transaction_id(*exchange) == Some(signature@),
            None => decoded_transaction_id(*exchange) is None,
        },
{
    match exchange {
        Exchange::Answered(response) => match &response.result {
            Some(result) => Signature::parse(result.transaction_id.as_str()),
            None => None,
        },
        _ => None,
    }
}

/// The client of the payment engine service.
#[derive(Debug)]
pub struct PaymentEngineService {
    pub url: String,
    pub timeout_secs: u64,
}

impl PaymentEngineService {
    /// A client for the service at `url`, with the default time bound.
    pub fn new(url: &str) -> (service: PaymentEngineService)
        ensures
            service.url@ == url@,
            service.timeout_secs == DEFAULT_TIMEOUT_SECS,
    {
        PaymentEngineService { url: url.to_owned(), timeout_secs: DEFAULT_TIMEOUT_SECS }
    }

    /// A client for the service at `url` that gives a request up after
    /// `timeout_secs` seconds.
    pub fn with_timeout(url: &str, timeout_secs: u64) -> (service: PaymentEngineService)
        ensures
            service.url@ == url@,
            service.timeout_secs == timeout_secs,
    {
        PaymentEngineService { url: url.to_owned(), timeout_secs }
    }

    fn payload(method: &str, params: Params) -> (payload: Payload)
        requires
            method@ == params.method(),
        ensures
            payload.well_formed(),
            payload.params == params,
    {
        Payload { jsonrpc: "2.0".to_owned(), method: method.to_owned(), params, id: 1 }
    }

    /// The request that opens a sale: `seed` names the escrow to be (the
    /// caller takes it from the clock, in seconds), the amount comes from the
    /// user's request and the key is the producer's.
    pub fn sell_energy_payload(
        seed: u64,
        producer_keypair_bytes: Vec<u8>,
        params: &SellEnergyRequest,
    ) -> (payload: Payload)
        ensures
            payload.well_formed(),
            payload.params == Params::SellEnergy(
                SellEnergy { seed, usdc_amount: params.usdc_amount, producer_keypair_bytes },
            ),
    {
        Self::payload(
            "sell_energy",
            Params::SellEnergy(
                SellEnergy { seed, usdc_amount: params.usdc_amount, producer_keypair_bytes },
            ),
        )
    }

    /// The request that opens a purchase.
    pub fn buy_energy_payload(
        seed: u64,
        consumer_keypair_bytes: Vec<u8>,
        params: &BuyEnergyRequest,
    ) -> (payload: Payload)
        ensures
            payload.well_formed(),
            payload.params == Params::BuyEnergy(
                BuyEnergy { seed, energy_amount: params.energy_amount, consumer_keypair_bytes },
            ),
    {
        Self::payload(
            "buy_energy",
            Params::BuyEnergy(
                BuyEnergy { seed, energy_amount: params.energy_amount, consumer_keypair_bytes },
            ),
        )
    }

    /// The request that asks the ledger to settle a sale.
    pub fn confirm_selling_payload(escrow_public_key: String) -> (payload: Payload)
        ensures
            payload.well_formed(),
            payload.params == Params::ConfirmSelling(ConfirmSellingPayload { escrow_public_key }),
    {
        Self::payload(
            "confirm_selling",
            Params::ConfirmSelling(ConfirmSellingPayload { escrow_public_key }),
        )
    }

    /// The request that asks the ledger to settle a purchase.
    pub fn confirm_buying_payload(escrow_public_key: String) -> (payload: Payload)
        ensures
            payload.well_formed(),
            payload.params == Params::ConfirmBuying(ConfirmBuyingPayload { escrow_public_key }),
    {
        Self::payload(
            "confirm_buying",
            Params::ConfirmBuying(ConfirmBuyingPayload { escrow_public_key }),
        )
    }

    /// What a `sell_energy` exchange amounts to: the transaction's signature
    /// and the key of the new escrow, or the error to answer with.
    pub fn sell_energy(exchange: Exchange) -> (outcome: Result<(Signature, String), ErrorResponse>)
        ensures
            trade_agrees(outcome, exchange_meaning(exchange, decoded_transaction_id(exchange))),
    {
        let parsed = parse_transaction_id(&exchange);
        read_exchange(exchange, parsed)
    }

    /// What a `buy_energy` exchange amounts to.
    pub fn buy_energy(exchange: Exchange) -> (outcome: Result<(Signature, String), ErrorResponse>)
        ensures
            trade_agrees(outcome, exchange_meaning(exchange, decoded_transaction_id(exchange))),
    {
        let parsed = parse_transaction_id(&exchange);
        read_exchange(exchange, parsed)
    }

    /// What a `confirm_selling` exchange amounts to: the escrow was
    /// confirmed or refunded, with the signature of the settlement, or the
    /// attempt failed, with the reason.
    pub fn confirm_selling(exchange: Exchange) -> (outcome: SettlementOutcome)
        ensures
            settlement_agrees(
                outcome,
                exchange_meaning(exchange, decoded_transaction_id(exchange)),
                refund_reported(exchange),
            ),
    {
        let parsed = parse_transaction_id(&exchange);
        read_settlement(exchange, parsed)
    }

    /// What a `confirm_buying` exchange amounts to.
    pub fn confirm_buying(exchange: Exchange) -> (outcome: SettlementOutcome)
        ensures
            settlement_agrees(
                outcome,
                exchange_meaning(exchange, decoded_transaction_id(exchange)),
                refund_reported(exchange),
            ),
    {
        let parsed = parse_transaction_id(&exchange);
        read_settlement(exchange, parsed)
    }
}

} // verus!
