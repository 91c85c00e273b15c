use payment_engine::handlers::payment_engine_handler::{BuyEnergyRequest, SellEnergyRequest};
use payment_engine::signature::{Signature, SIGNATURE_BYTES};
use payment_engine::solana::{
    error_message, parse_transaction_id, read_exchange, read_settlement, ApiResponse, Exchange, Params,
    PaymentEngineService, ResponseResult, RpcError, SettlementOutcome, DEFAULT_TIMEOUT_SECS,
};

const COUNTING: &str =
    "2Ana1pUpv2ZbMVkwF5FXapYeBEjdxDatLn7nvJkhgTSXbs59SyZSx866bXirPgj8QQVB57uxHJBG1YFvkRbFj4T";
const ALL_ONES: &str =
    "67rpwLCuS5DGA8KGZXKsVQ7dnPb9goRLoKfgGbLfQg9WoLUgNY77E2jT11fem3coV9nAkguBACzrU1iyZM4B8roQ";
const ALL_ZEROS: &str = "1111111111111111111111111111111111111111111111111111111111111111";

fn counting_bytes() -> [u8; 64] {
    let mut bytes = [0u8; 64];
    for (i, byte) in bytes.iter_mut().enumerate() {
        *byte = i as u8 + 1;
    }
    bytes
}

fn answered(transaction_id: &str, escrow_public_key: Option<&str>) -> Exchange {
    Exchange::Answered(ApiResponse {
        jsonrpc: "2.0".to_string(),
        result: Some(ResponseResult {
            transaction_id: transaction_id.to_string(),
            escrow_public_key: escrow_public_key.map(|key| key.to_string()),
            refunded: false,
        }),
        error: None,
        id: 1,
    })
}

fn refunded(transaction_id: &str) -> Exchange {
    Exchange::Answered(ApiResponse {
        jsonrpc: "2.0".to_string(),
        result: Some(ResponseResult {
            transaction_id: transaction_id.to_string(),
            escrow_public_key: None,
            refunded: true,
        }),
        error: None,
        id: 1,
    })
}

fn expect_failed(outcome: SettlementOutcome, message: &str) {
    match outcome {
        SettlementOutcome::Failed(reason) => assert_eq!(reason, message),
        other => panic!("expected the failure {}: {:?}", message, other),
    }
}

fn reported(message: Option<&str>) -> Exchange {
    Exchange::Answered(ApiResponse {
        jsonrpc: "2.0".to_string(),
        result: None,
        error: Some(RpcError { message: message.map(|text| text.to_string()) }),
        id: 1,
    })
}

fn neither() -> Exchange {
    Exchange::Answered(ApiResponse { jsonrpc: "2.0".to_string(), result: None, error: None, id: 1 })
}

#[test]
fn signature_has_64_bytes() {
    assert_eq!(SIGNATURE_BYTES, 64);
}

#[test]
fn signature_is_read_from_base58() {
    assert_eq!(Signature::parse(COUNTING).map(|signature| signature.bytes), Some(counting_bytes()));
    assert_eq!(Signature::parse(ALL_ONES).map(|signature| signature.bytes), Some([255u8; 64]));
    assert_eq!(Signature::parse(ALL_ZEROS).map(|signature| signature.bytes), Some([0u8; 64]));
}

#[test]
fn what_is_no_signature_is_not_read() {
    assert!(Signature::parse("").is_none());
    assert!(Signature::parse("abc").is_none());
    assert!(Signature::parse("not a signature").is_none());
    assert!(Signature::parse(&ALL_ZEROS[1..]).is_none());
    assert!(Signature::parse(&format!("{}1", ALL_ZEROS)).is_none());
    assert!(Signature::parse(&COUNTING.replace('2', "0")).is_none());
    assert!(Signature::parse(&format!("{}{}", ALL_ONES, ALL_ONES)).is_none());
}

#[test]
fn signature_is_written_in_base58() {
    assert_eq!(Signature { bytes: counting_bytes() }.to_string(), COUNTING);
    assert_eq!(Signature { bytes: [255u8; 64] }.to_string(), ALL_ONES);
    assert_eq!(Signature { bytes: [0u8; 64] }.to_string(), ALL_ZEROS);
}

#[test]
fn new_service_keeps_the_url_and_the_default_time_bound() {
    let service = PaymentEngineService::new("http://localhost:3000/rpc");
    assert_eq!(service.url, "http://localhost:3000/rpc");
    assert_eq!(service.timeout_secs, 12000);
    assert_eq!(DEFAULT_TIMEOUT_SECS, 12000);
    let quick = PaymentEngineService::with_timeout("http://engine", 30);
    assert_eq!(quick.url, "http://engine");
    assert_eq!(quick.timeout_secs, 30);
}

#[test]
fn sell_energy_request_names_seed_amount_and_key() {
    let payload = PaymentEngineService::sell_energy_payload(
        1_700_000_000,
        vec![1, 2, 3],
        &SellEnergyRequest { usdc_amount: 500 },
    );
    assert_eq!(payload.jsonrpc, "2.0");
    assert_eq!(payload.method, "sell_energy");
    assert_eq!(payload.id, 1);
    match payload.params {
        Params::SellEnergy(params) => {
            assert_eq!(params.seed, 1_700_000_000);
            assert_eq!(params.usdc_amount, 500);
            assert_eq!(params.producer_keypair_bytes, vec![1, 2, 3]);
        }
        _ => panic!("a sale is opened by sell_energy"),
    }
}

#[test]
fn buy_energy_request_names_seed_amount_and_key() {
    let payload = PaymentEngineService::buy_energy_payload(
        1_700_000_001,
        vec![4, 5],
        &BuyEnergyRequest { energy_amount: 700 },
    );
    assert_eq!(payload.jsonrpc, "2.0");
    assert_eq!(payload.method, "buy_energy");
    assert_eq!(payload.id, 1);
    match payload.params {
        Params::BuyEnergy(params) => {
            assert_eq!(params.seed, 1_700_000_001);
            assert_eq!(params.energy_amount, 700);
            assert_eq!(params.consumer_keypair_bytes, vec![4, 5]);
        }
        _ => panic!("a purchase is opened by buy_energy"),
    }
}

#[test]
fn confirm_requests_name_the_escrow() {
    let selling = PaymentEngineService::confirm_selling_payload("E1".to_string());
    assert_eq!(selling.jsonrpc, "2.0");
    assert_eq!(selling.method, "confirm_selling");
    assert_eq!(selling.id, 1);
    match selling.params {
        Params::ConfirmSelling(params) => assert_eq!(params.escrow_public_key, "E1"),
        _ => panic!("a sale is settled by confirm_selling"),
    }
    let buying = PaymentEngineService::confirm_buying_payload("E2".to_string());
    assert_eq!(buying.method, "confirm_buying");
    match buying.params {
        Params::ConfirmBuying(params) => assert_eq!(params.escrow_public_key, "E2"),
        _ => panic!("a purchase is settled by confirm_buying"),
    }
}

#[test]
fn answered_trade_gives_signature_and_escrow_key() {
    let (signature, key) =
        PaymentEngineService::sell_energy(answered(COUNTING, Some("EscrowKey"))).unwrap();
    assert_eq!(signature.bytes, counting_bytes());
    assert_eq!(key, "EscrowKey");
    let (signature, key) = PaymentEngineService::buy_energy(answered(ALL_ONES, None)).unwrap();
    assert_eq!(signature.bytes, [255u8; 64]);
    assert_eq!(key, "");
}

#[test]
fn confirmed_settlement_gives_confirmed_with_the_signature() {
    match PaymentEngineService::confirm_selling(answered(COUNTING, None)) {
        SettlementOutcome::Confirmed(signature) => assert_eq!(signature.bytes, counting_bytes()),
        other => panic!("expected a confirmation: {:?}", other),
    }
    match PaymentEngineService::confirm_buying(answered(ALL_ZEROS, Some("E"))) {
        SettlementOutcome::Confirmed(signature) => assert_eq!(signature.bytes, [0u8; 64]),
        other => panic!("expected a confirmation: {:?}", other),
    }
}

#[test]
fn refunded_settlement_gives_refunded_with_the_signature() {
    match PaymentEngineService::confirm_selling(refunded(COUNTING)) {
        SettlementOutcome::Refunded(signature) => assert_eq!(signature.bytes, counting_bytes()),
        other => panic!("expected a refund: {:?}", other),
    }
    match PaymentEngineService::confirm_buying(refunded(ALL_ONES)) {
        SettlementOutcome::Refunded(signature) => assert_eq!(signature.bytes, [255u8; 64]),
        other => panic!("expected a refund: {:?}", other),
    }
}

#[test]
fn refund_without_a_signature_is_a_failure() {
    expect_failed(
        PaymentEngineService::confirm_selling(refunded("tx-1")),
        "Failed to parse transaction signature",
    );
    expect_failed(
        PaymentEngineService::confirm_buying(refunded("")),
        "Failed to parse transaction signature",
    );
}

#[test]
fn failed_settlement_gives_the_reason() {
    expect_failed(
        PaymentEngineService::confirm_selling(Exchange::SendFailed),
        "Failed to send request to payment engine",
    );
    expect_failed(
        PaymentEngineService::confirm_buying(Exchange::Unreadable),
        "Failed to parse response from payment engine",
    );
    expect_failed(
        PaymentEngineService::confirm_selling(answered("0OIl", None)),
        "Failed to parse transaction signature",
    );
    expect_failed(
        PaymentEngineService::confirm_buying(reported(Some("Invalid state"))),
        "Payment engine returned an error",
    );
    expect_failed(
        PaymentEngineService::confirm_selling(neither()),
        "Invalid response from payment engine",
    );
}

#[test]
fn refund_mark_means_nothing_to_a_trade() {
    let (signature, key) = PaymentEngineService::sell_energy(refunded(COUNTING)).unwrap();
    assert_eq!(signature.bytes, counting_bytes());
    assert_eq!(key, "");
}

#[test]
fn settlement_is_read_with_the_signature_it_was_parsed_to() {
    let one = Signature { bytes: [1u8; 64] };
    match read_settlement(refunded("anything"), Some(one)) {
        SettlementOutcome::Refunded(signature) => assert_eq!(signature.bytes, [1u8; 64]),
        other => panic!("expected a refund: {:?}", other),
    }
    match read_settlement(answered("anything", None), Some(one)) {
        SettlementOutcome::Confirmed(signature) => assert_eq!(signature.bytes, [1u8; 64]),
        other => panic!("expected a confirmation: {:?}", other),
    }
    expect_failed(read_settlement(refunded(COUNTING), None), "Failed to parse transaction signature");
    expect_failed(
        read_settlement(Exchange::SendFailed, Some(one)),
        "Failed to send request to payment engine",
    );
    expect_failed(read_settlement(reported(None), Some(one)), "Payment engine returned an error");
}

fn expect_error<T>(outcome: Result<T, payment_engine::handlers::ErrorResponse>, message: &str) {
    match outcome {
        Ok(_) => panic!("expected the error: {}", message),
        Err(error) => {
            assert_eq!(error.status_code, 500);
            assert_eq!(error.error, message);
        }
    }
}

#[test]
fn request_that_was_not_sent_is_an_error() {
    let message = "Failed to send request to payment engine";
    expect_error(PaymentEngineService::sell_energy(Exchange::SendFailed), message);
    expect_error(PaymentEngineService::buy_energy(Exchange::SendFailed), message);
    expect_failed(PaymentEngineService::confirm_selling(Exchange::SendFailed), message);
    expect_failed(PaymentEngineService::confirm_buying(Exchange::SendFailed), message);
}

#[test]
fn answer_that_cannot_be_read_is_an_error() {
    let message = "Failed to parse response from payment engine";
    expect_error(PaymentEngineService::sell_energy(Exchange::Unreadable), message);
    expect_error(PaymentEngineService::buy_energy(Exchange::Unreadable), message);
    expect_failed(PaymentEngineService::confirm_selling(Exchange::Unreadable), message);
    expect_failed(PaymentEngineService::confirm_buying(Exchange::Unreadable), message);
}

#[test]
fn transaction_id_that_is_no_signature_is_an_error() {
    let message = "Failed to parse transaction signature";
    expect_error(PaymentEngineService::sell_energy(answered("tx-1", Some("E"))), message);
    expect_error(PaymentEngineService::buy_energy(answered("", None)), message);
    expect_failed(PaymentEngineService::confirm_selling(answered("0OIl", None)), message);
    expect_failed(PaymentEngineService::confirm_buying(answered(&ALL_ZEROS[2..], None)), message);
}

#[test]
fn error_of_the_service_is_an_error() {
    let message = "Payment engine returned an error";
    expect_error(PaymentEngineService::sell_energy(reported(Some("Transaction refunded"))), message);
    expect_error(PaymentEngineService::buy_energy(reported(None)), message);
    expect_failed(PaymentEngineService::confirm_selling(reported(Some("Invalid state"))), message);
    expect_failed(PaymentEngineService::confirm_buying(reported(Some(""))), message);
}

#[test]
fn answer_with_neither_result_nor_error_is_invalid() {
    let message = "Invalid response from payment engine";
    expect_error(PaymentEngineService::sell_energy(neither()), message);
    expect_error(PaymentEngineService::buy_energy(neither()), message);
    expect_failed(PaymentEngineService::confirm_selling(neither()), message);
    expect_failed(PaymentEngineService::confirm_buying(neither()), message);
}

#[test]
fn result_wins_over_error() {
    let both = Exchange::Answered(ApiResponse {
        jsonrpc: "2.0".to_string(),
        result: Some(ResponseResult {
            transaction_id: COUNTING.to_string(),
            escrow_public_key: None,
            refunded: false,
        }),
        error: Some(RpcError { message: Some("ignored".to_string()) }),
        id: 7,
    });
    let (signature, _) = PaymentEngineService::sell_energy(both).unwrap();
    assert_eq!(signature.bytes, counting_bytes());
}

#[test]
fn error_message_is_the_message_or_unknown() {
    assert_eq!(error_message(&RpcError { message: Some("Invalid state".to_string()) }), "Invalid state");
    assert_eq!(error_message(&RpcError { message: Some(String::new()) }), "");
    assert_eq!(error_message(&RpcError { message: None }), "Unknown error");
}

#[test]
fn exchange_is_read_with_the_signature_it_was_parsed_to() {
    let exchange = answered(COUNTING, Some("E"));
    let parsed = parse_transaction_id(&exchange);
    assert_eq!(parsed.map(|signature| signature.bytes), Some(counting_bytes()));
    let (signature, key) = read_exchange(exchange, parsed).unwrap();
    assert_eq!(signature.bytes, counting_bytes());
    assert_eq!(key, "E");
    assert!(parse_transaction_id(&Exchange::SendFailed).is_none());
    assert!(parse_transaction_id(&Exchange::Unreadable).is_none());
    assert!(parse_transaction_id(&neither()).is_none());
    assert!(parse_transaction_id(&answered("tx", None)).is_none());
    expect_error(
        read_exchange(answered(COUNTING, None), None),
        "Failed to parse transaction signature",
    );
    expect_error(
        read_exchange(Exchange::SendFailed, Some(Signature { bytes: [1u8; 64] })),
        "Failed to send request to payment engine",
    );
    let (carried, _) =
        read_exchange(answered("anything", None), Some(Signature { bytes: [1u8; 64] })).unwrap();
    assert_eq!(carried.bytes, [1u8; 64]);
}
