use std::sync::Arc;

use grin_util::secp::key::SecretKey;
use grin_util::secp::pedersen::Commitment as SecpCommitment;
use grin_util::secp::rand::thread_rng;
use grin_util::secp::{ContextFlag, Secp256k1};
use jsonrpc_core::{Error, ErrorCode as WireCode, IoHandler, Params, Value};
use swap_rpc::commitment::Commitment;
use swap_rpc::endpoint::{run_round, submit, submit_params, swap_response};
use swap_rpc::engine::SwapServer;
use swap_rpc::error::{ErrorCode, RpcError, SwapError};
use swap_rpc::request::{SwapParams, SwapReq};
use swap_rpc::server::{RPCSwapServer, SwapAPI, SWAP_METHOD};

type JsonObject = serde_json::Map<String, Value>;

/// An engine that accepts every swap but those it was told to refuse.
struct MockSwapServer {
    errors: Vec<(Value, SwapError)>,
    swaps: usize,
    rounds: usize,
}

impl MockSwapServer {
    fn new() -> MockSwapServer {
        MockSwapServer { errors: Vec::new(), swaps: 0, rounds: 0 }
    }

    fn set_response(&mut self, onion: &Value, e: SwapError) {
        self.errors.push((onion.clone(), e));
    }
}

impl SwapServer for MockSwapServer {
    type Onion = Value;
    type ComSig = Value;

    fn swap(&mut self, onion: &Value, _comsig: &Value) -> Result<(), SwapError> {
        self.swaps += 1;
        for (refused, e) in self.errors.iter() {
            if refused == onion {
                return Err(e.clone());
            }
        }
        Ok(())
    }

    fn execute_round(&mut self) -> Result<(), SwapError> {
        self.rounds += 1;
        Ok(())
    }
}

fn random_commit(value: u64) -> SecpCommitment {
    let secp = Secp256k1::with_caps(ContextFlag::Commit);
    let blind = SecretKey::new(&secp, &mut thread_rng());
    secp.commit(value, blind).unwrap()
}

fn hex(bytes: &[u8]) -> String {
    let mut text = String::new();
    for b in bytes {
        text.push_str(&format!("{:02x}", b));
    }
    text
}

/// An onion with no hops left for the given commitment, as it goes over the wire.
fn create_onion(commit: &SecpCommitment) -> Value {
    let mut onion = JsonObject::new();
    onion.insert("pubkey".to_string(), Value::String(hex(&[2u8; 33])));
    onion.insert("commit".to_string(), Value::String(hex(&commit.0)));
    onion.insert("data".to_string(), Value::Array(Vec::new()));
    Value::Object(onion)
}

/// A commitment signature as it goes over the wire: the nonce commitment and
/// two scalars, in hexadecimal.
fn sign(value: u64) -> Value {
    let nonce = random_commit(value);
    let mut sig = hex(&nonce.0);
    sig.push_str(&hex(&[7u8; 64]));
    Value::String(sig)
}

fn to_json(swap: &SwapReq<Value, Value>) -> Value {
    let mut fields = JsonObject::new();
    fields.insert("onion".to_string(), swap.onion.clone());
    fields.insert("comsig".to_string(), swap.comsig.clone());
    Value::Object(fields)
}

fn to_wire(e: RpcError) -> Error {
    let code = match e.code {
        ErrorCode::InvalidParams => WireCode::InvalidParams,
        ErrorCode::InternalError => WireCode::InternalError,
    };
    Error { code, message: e.message, data: None }
}

fn swap_params(params: Params) -> Result<SwapParams<Value, Value>, Error> {
    let (first,): (JsonObject,) = params.parse()?;
    Ok(SwapParams { onion: first.get("onion").cloned(), comsig: first.get("comsig").cloned() })
}

/// Dispatches one JSON-RPC request to the endpoint and returns the response
/// as the HTTP transport would send it.
fn make_request(
    server: Arc<RPCSwapServer<MockSwapServer>>,
    req: String,
) -> Result<String, Box<dyn std::error::Error>> {
    let mut io = IoHandler::new();
    let rpc = server.clone();
    io.add_sync_method(SWAP_METHOD, move |params: Params| {
        let params = swap_params(params)?;
        match rpc.call_swap(params) {
            Ok(marker) => Ok(Value::String(marker)),
            Err(e) => Err(to_wire(e)),
        }
    });

    let response = io.handle_request_sync(&req).ok_or("no response")?;

    // Execute one round
    server.execute_round();

    Ok(format!("{}\n", response))
}

/// Demonstrates a successful swap response
#[test]
fn swap_success() -> Result<(), Box<dyn std::error::Error>> {
    let commitment = random_commit(1234);
    let onion = create_onion(&commitment);
    let comsig = sign(1234);
    let swap = SwapReq { onion: onion.clone(), comsig };

    let server = Arc::new(RPCSwapServer::new(MockSwapServer::new()));

    let req = format!(
        "{{\"jsonrpc\": \"2.0\", \"method\": \"swap\", \"params\": [{}], \"id\": \"1\"}}",
        to_json(&swap)
    );
    let response = make_request(server.clone(), req)?;
    let expected = "{\"jsonrpc\":\"2.0\",\"result\":\"success\",\"id\":\"1\"}\n";
    assert_eq!(response, expected);
    assert_eq!(server.server.lock().unwrap().swaps, 1);
    assert_eq!(server.server.lock().unwrap().rounds, 1);

    Ok(())
}

#[test]
fn swap_bad_request() -> Result<(), Box<dyn std::error::Error>> {
    let server = Arc::new(RPCSwapServer::new(MockSwapServer::new()));

    let params = "{ \"param\": \"Not a valid Swap request\" }";
    let req = format!(
        "{{\"jsonrpc\": \"2.0\", \"method\": \"swap\", \"params\": [{}], \"id\": \"1\"}}",
        params
    );
    let response = make_request(server.clone(), req)?;
    let expected = "{\"jsonrpc\":\"2.0\",\"error\":{\"code\":-32602,\"message\":\"Invalid params: missing field `onion`.\"},\"id\":\"1\"}\n";
    assert_eq!(response, expected);
    assert_eq!(server.server.lock().unwrap().swaps, 0);
    Ok(())
}

/// Returns "Commitment not found" when there's no matching output in the UTXO set.
#[test]
fn swap_utxo_missing() -> Result<(), Box<dyn std::error::Error>> {
    let commitment = random_commit(1234);
    let onion = create_onion(&commitment);
    let comsig = sign(1234);
    let swap = SwapReq { onion: onion.clone(), comsig };

    let mut server = MockSwapServer::new();
    server.set_response(&onion, SwapError::CoinNotFound { commit: Commitment(commitment.0) });
    let server = Arc::new(RPCSwapServer::new(server));

    let req = format!(
        "{{\"jsonrpc\": \"2.0\", \"method\": \"swap\", \"params\": [{}], \"id\": \"1\"}}",
        to_json(&swap)
    );
    let response = make_request(server, req)?;
    let expected = format!(
        "{{\"jsonrpc\":\"2.0\",\"error\":{{\"code\":-32602,\"message\":\"Output {:?} does not exist, or is already spent.\"}},\"id\":\"1\"}}\n",
        commitment
    );
    assert_eq!(response, expected);
    Ok(())
}

#[test]
fn swap_missing_comsig_names_comsig() -> Result<(), Box<dyn std::error::Error>> {
    let server = Arc::new(RPCSwapServer::new(MockSwapServer::new()));
    let onion = create_onion(&random_commit(7));
    let req = format!(
        "{{\"jsonrpc\": \"2.0\", \"method\": \"swap\", \"params\": [{{\"onion\": {}}}], \"id\": \"1\"}}",
        onion
    );
    let response = make_request(server.clone(), req)?;
    let expected = "{\"jsonrpc\":\"2.0\",\"error\":{\"code\":-32602,\"message\":\"Invalid params: missing field `comsig`.\"},\"id\":\"1\"}\n";
    assert_eq!(response, expected);
    assert_eq!(server.server.lock().unwrap().swaps, 0);
    Ok(())
}

#[test]
fn swap_unknown_error_is_internal() -> Result<(), Box<dyn std::error::Error>> {
    let onion = create_onion(&random_commit(5));
    let comsig = sign(5);
    let swap = SwapReq { onion: onion.clone(), comsig };

    let mut server = MockSwapServer::new();
    server.set_response(&onion, SwapError::UnknownError("store is down".to_string()));
    let server = Arc::new(RPCSwapServer::new(server));

    let req = format!(
        "{{\"jsonrpc\": \"2.0\", \"method\": \"swap\", \"params\": [{}], \"id\": \"1\"}}",
        to_json(&swap)
    );
    let response = make_request(server, req)?;
    let expected = "{\"jsonrpc\":\"2.0\",\"error\":{\"code\":-32603,\"message\":\"store is down\"},\"id\":\"1\"}\n";
    assert_eq!(response, expected);
    Ok(())
}

#[test]
fn swap_through_the_trait_reaches_the_engine_once() {
    let rpc = RPCSwapServer::new(MockSwapServer::new());
    let onion = Value::String("onion".to_string());
    let comsig = Value::String("comsig".to_string());
    let response = rpc.swap(SwapReq { onion, comsig });
    assert_eq!(response, Ok("success".to_string()));
    assert_eq!(rpc.server.lock().unwrap().swaps, 1);
    assert_eq!(rpc.server.lock().unwrap().rounds, 0);
}

#[test]
fn refused_swap_is_reported_in_the_engines_words() {
    let onion = Value::String("onion".to_string());
    let mut server = MockSwapServer::new();
    server.set_response(&onion, SwapError::InvalidComSignature);
    let rpc = RPCSwapServer::new(server);
    let response = rpc.swap(SwapReq { onion, comsig: Value::Null });
    assert_eq!(
        response,
        Err(RpcError {
            code: ErrorCode::InvalidParams,
            message: "Commitment Signature is invalid".to_string(),
        })
    );
    let other = rpc.swap(SwapReq { onion: Value::Bool(true), comsig: Value::Null });
    assert_eq!(other, Ok("success".to_string()));
    assert_eq!(rpc.server.lock().unwrap().swaps, 2);
}

#[test]
fn call_with_both_fields_absent_names_onion_first() {
    let rpc = RPCSwapServer::new(MockSwapServer::new());
    let response = rpc.call_swap(SwapParams { onion: None, comsig: None });
    assert_eq!(
        response,
        Err(RpcError {
            code: ErrorCode::InvalidParams,
            message: "Invalid params: missing field `onion`.".to_string(),
        })
    );
    assert_eq!(rpc.server.lock().unwrap().swaps, 0);
}

#[test]
fn the_lock_is_free_again_after_every_call() {
    let rpc = RPCSwapServer::new(MockSwapServer::new());
    for i in 0..3 {
        let params = SwapParams { onion: Some(Value::from(i)), comsig: Some(Value::Null) };
        assert_eq!(rpc.call_swap(params), Ok("success".to_string()));
        assert!(rpc.server.try_lock().is_ok());
        rpc.execute_round();
        assert!(rpc.server.try_lock().is_ok());
        let absent = SwapParams { onion: None, comsig: Some(Value::Null) };
        assert!(rpc.call_swap(absent).is_err());
        assert!(rpc.server.try_lock().is_ok());
    }
    assert_eq!(rpc.server.lock().unwrap().swaps, 3);
    assert_eq!(rpc.server.lock().unwrap().rounds, 3);
}

/// An engine whose rounds fail.
struct Failing {
    rounds: usize,
}

impl SwapServer for Failing {
    type Onion = u8;
    type ComSig = u8;

    fn swap(&mut self, _onion: &u8, _comsig: &u8) -> Result<(), SwapError> {
        Ok(())
    }

    fn execute_round(&mut self) -> Result<(), SwapError> {
        self.rounds += 1;
        Err(SwapError::UnknownError("round failed".to_string()))
    }
}

#[test]
fn execute_round_runs_one_round_and_hides_failure() {
    let rpc = RPCSwapServer::new(Failing { rounds: 0 });
    rpc.execute_round();
    rpc.execute_round();
    assert_eq!(rpc.server.lock().unwrap().rounds, 2);
    assert_eq!(rpc.swap(SwapReq { onion: 1, comsig: 2 }), Ok("success".to_string()));
}

#[test]
fn run_round_asks_the_engine_for_one_round() {
    let mut engine = Failing { rounds: 0 };
    run_round(&mut engine);
    assert_eq!(engine.rounds, 1);
}

#[test]
fn submit_hands_the_request_to_the_engine() {
    let onion = Value::String("refused".to_string());
    let mut engine = MockSwapServer::new();
    engine.set_response(&onion, SwapError::AlreadySwapped { commit: Commitment([4u8; 33]) });
    let refused = submit(&mut engine, SwapReq { onion, comsig: Value::Null });
    assert_eq!(
        refused,
        Err(RpcError {
            code: ErrorCode::InvalidParams,
            message: format!("Output Commitment({}) is already in the swap list.", "04".repeat(33)),
        })
    );
    let taken = submit(&mut engine, SwapReq { onion: Value::Null, comsig: Value::Null });
    assert_eq!(taken, Ok("success".to_string()));
    assert_eq!(engine.swaps, 2);
}

#[test]
fn submit_params_keeps_an_incomplete_call_from_the_engine() {
    let mut engine = MockSwapServer::new();
    let absent = SwapParams { onion: Some(Value::Null), comsig: None };
    assert_eq!(
        submit_params(&mut engine, absent),
        Err(RpcError {
            code: ErrorCode::InvalidParams,
            message: "Invalid params: missing field `comsig`.".to_string(),
        })
    );
    assert_eq!(engine.swaps, 0);
    let complete = SwapParams { onion: Some(Value::Null), comsig: Some(Value::Null) };
    assert_eq!(submit_params(&mut engine, complete), Ok("success".to_string()));
    assert_eq!(engine.swaps, 1);
}

#[test]
fn swap_response_maps_each_answer() {
    assert_eq!(swap_response(Ok(())), Ok("success".to_string()));
    assert_eq!(
        swap_response(Err(SwapError::InvalidRangeproof)),
        Err(RpcError {
            code: ErrorCode::InvalidParams,
            message: "Rangeproof is invalid".to_string(),
        })
    );
    assert_eq!(
        swap_response(Err(SwapError::UnknownError("oops".to_string()))),
        Err(RpcError { code: ErrorCode::InternalError, message: "oops".to_string() })
    );
}

#[test]
fn the_method_is_called_swap() {
    assert_eq!(SWAP_METHOD, "swap");
    let server = Arc::new(RPCSwapServer::new(MockSwapServer::new()));
    let req = "{\"jsonrpc\": \"2.0\", \"method\": \"Swap\", \"params\": [{}], \"id\": \"1\"}";
    let response = make_request(server.clone(), req.to_string()).unwrap();
    assert_eq!(
        response,
        "{\"jsonrpc\":\"2.0\",\"error\":{\"code\":-32601,\"message\":\"Method not found\"},\"id\":\"1\"}\n"
    );
    assert_eq!(server.server.lock().unwrap().swaps, 0);
}
