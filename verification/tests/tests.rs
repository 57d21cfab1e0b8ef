use fhevm_decryptions_db::app_state::AppState;
use fhevm_decryptions_db::build_and_configure_rocket;
use fhevm_decryptions_db::config::Config;
use fhevm_decryptions_db::db::MemoryStore;
use fhevm_decryptions_db::db::StoreError;
use fhevm_decryptions_db::routes::answer_get;
use fhevm_decryptions_db::routes::answer_put;
use fhevm_decryptions_db::routes::prepare_put;
use fhevm_decryptions_db::routes::Key;
use fhevm_decryptions_db::routes::finish_get;
use fhevm_decryptions_db::routes::Decryption;
use fhevm_decryptions_db::routes::GetStep;
use fhevm_decryptions_db::routes::Status;

const KEY_A: &str = "aaaaaaaaaaaaaaaaaaaaaaaaaaaaaaaaaaaaaaaaaaaaaaaaaaaaaaaaaaaaaaaa";
const KEY_B: &str = "bbbbbbbbbbbbbbbbbbbbbbbbbbbbbbbbbbbbbbbbbbbbbbbbbbbbbbbbbbbbbbbb";

fn setup() -> AppState<MemoryStore> {
    let rocket = build_and_configure_rocket(config(), MemoryStore::new());
    rocket.state.expect("configured service")
}

fn record(value: u64, signature: &str) -> Option<Decryption> {
    Some(Decryption {
        value,
        signature: String::from(signature),
    })
}

fn expect_record(step: GetStep) -> Decryption {
    match step {
        GetStep::Done(Ok(decryption)) => decryption,
        other => panic!("expected a record, got {:?}", other),
    }
}

fn expect_status(step: GetStep) -> Status {
    match step {
        GetStep::Done(Err(status)) => status,
        other => panic!("expected a status, got {:?}", other),
    }
}

#[test]
fn get_invalid_key_size() {
    let client = setup();
    let response = client.get("ab");
    assert_eq!(expect_status(response), Status::BadRequest);
}

#[test]
fn get_invalid_key_format() {
    let client = setup();
    let response =
        client.get("aaaaaaaaaaaaaaaaaaaaaaaaaaaaaaaaaaaaaaaaaaaaaaaaaaaaaaaaaaaXaaaa");
    assert_eq!(expect_status(response), Status::BadRequest);
}

#[test]
fn get_unknown_key() {
    let client = setup();
    let response = client.get(KEY_A);
    match response {
        GetStep::Wait { key, timeout_ms } => {
            assert_eq!(key, vec![0xaa_u8; 32]);
            assert_eq!(timeout_ms, 1000);
        }
        other => panic!("expected a wait, got {:?}", other),
    }
    let response = finish_get(None);
    assert_eq!(response.unwrap_err(), Status::NotFound);
}

#[test]
fn put_and_get_success() {
    let mut client = setup();

    let response = client.put(KEY_A, record(42, "YmJiYg=="));
    assert_eq!(response, Ok(()));

    let decryption = expect_record(client.get(KEY_A));
    assert_eq!(decryption.value, 42);
    assert_eq!(decryption.signature, "YmJiYg==");
}

#[test]
fn put_updates() {
    let mut client = setup();

    let response = client.put(KEY_A, record(42, "YmJiYg=="));
    assert_eq!(response, Ok(()));

    let decryption = expect_record(client.get(KEY_A));
    assert_eq!(decryption.value, 42);
    assert_eq!(decryption.signature, "YmJiYg==");

    let response = client.put(KEY_A, record(77, "Yg=="));
    assert_eq!(response, Ok(()));

    let decryption = expect_record(client.get(KEY_A));
    assert_eq!(decryption.value, 77);
    assert_eq!(decryption.signature, "Yg==");
}

#[test]
fn put_invalid_does_not_update() {
    let mut client = setup();

    let response = client.put(KEY_A, record(42, "YmJiYg=="));
    assert_eq!(response, Ok(()));

    // A body that did not parse.
    let response = client.put(KEY_A, None);
    assert_eq!(response, Err(Status::BadRequest));

    let decryption = expect_record(client.get(KEY_A));
    assert_eq!(decryption.value, 42);
    assert_eq!(decryption.signature, "YmJiYg==");
}

#[test]
fn put_invalid_json() {
    let mut client = setup();
    let response = client.put(KEY_A, None);
    assert_eq!(response, Err(Status::BadRequest));
}

#[test]
fn put_invalid_signature() {
    let mut client = setup();
    let response = client.put(KEY_A, record(11, "YmJiY"));
    assert_eq!(response, Err(Status::BadRequest));
}

#[test]
fn put_invalid_signature_does_not_update() {
    let mut client = setup();
    assert_eq!(client.put(KEY_A, record(42, "YmJiYg==")), Ok(()));
    assert_eq!(client.put(KEY_A, record(78, "YmJiY")), Err(Status::BadRequest));
    let decryption = expect_record(client.get(KEY_A));
    assert_eq!(decryption.value, 42);
    assert_eq!(decryption.signature, "YmJiYg==");
}

#[test]
fn put_invalid_key() {
    let mut client = setup();
    assert_eq!(client.put("ab", record(42, "YmJiYg==")), Err(Status::BadRequest));
    let bad = "aaaaaaaaaaaaaaaaaaaaaaaaaaaaaaaaaaaaaaaaaaaaaaaaaaaaaaaaaaaXaaaa";
    assert_eq!(client.put(bad, record(42, "YmJiYg==")), Err(Status::BadRequest));
    match client.get(KEY_A) {
        GetStep::Wait { .. } => {}
        other => panic!("expected a wait, got {:?}", other),
    }
}

#[test]
fn put_on_one_key_leaves_the_other() {
    let mut client = setup();
    assert_eq!(client.put(KEY_A, record(1, "YmJiYg==")), Ok(()));
    match client.get(KEY_B) {
        GetStep::Wait { key, timeout_ms } => {
            assert_eq!(key, vec![0xbb_u8; 32]);
            assert_eq!(timeout_ms, 1000);
        }
        other => panic!("expected a wait, got {:?}", other),
    }
    assert_eq!(client.put(KEY_B, record(2, "Yg==")), Ok(()));
    assert_eq!(expect_record(client.get(KEY_A)).value, 1);
    assert_eq!(expect_record(client.get(KEY_B)).value, 2);
}

#[test]
fn last_put_of_many_wins() {
    let mut client = setup();
    let mut value: u64 = 0;
    while value < 20 {
        assert_eq!(client.put(KEY_A, record(value, "YmJiYg==")), Ok(()));
        value += 1;
    }
    assert_eq!(client.put(KEY_A, record(u64::MAX, "")), Ok(()));
    let decryption = expect_record(client.get(KEY_A));
    assert_eq!(decryption.value, u64::MAX);
    assert_eq!(decryption.signature, "");
}

#[test]
fn upper_case_key_names_the_same_record() {
    let mut client = setup();
    let upper = KEY_A.to_uppercase();
    assert_eq!(client.put(&upper, record(5, "Yg==")), Ok(()));
    assert_eq!(expect_record(client.get(KEY_A)).value, 5);
}

#[test]
fn waited_record_is_answered_in_wire_form() {
    let mut client = setup();
    assert_eq!(client.put(KEY_A, record(9, "YmJiYg==")), Ok(()));
    let mut waiter = client.cache.waiter(vec![0xaa_u8; 32]);
    let waker = std::task::Waker::noop();
    let mut context = std::task::Context::from_waker(waker);
    let polled = std::future::Future::poll(std::pin::Pin::new(&mut waiter), &mut context);
    let waited = match polled {
        std::task::Poll::Ready(stored) => Some(stored),
        std::task::Poll::Pending => None,
    };
    let decryption = finish_get(waited).expect("a record");
    assert_eq!(decryption.value, 9);
    assert_eq!(decryption.signature, "YmJiYg==");
}

#[test]
fn status_codes() {
    assert_eq!(Status::BadRequest.code(), 400);
    assert_eq!(Status::NotFound.code(), 404);
    assert_eq!(Status::InternalServerError.code(), 500);
    assert_eq!(Status::ServiceUnavailable.code(), 503);
}

fn key_a() -> Key {
    Key::from_param(KEY_A).expect("a key")
}

fn config() -> Config {
    Config {
        db_path: String::from("decryptions"),
        max_expected_oracle_delay_ms: 1000,
    }
}

#[test]
fn store_failure_is_an_internal_error() {
    assert_eq!(
        answer_put(Err(StoreError::Failed)),
        Err(Status::InternalServerError)
    );
    let step = answer_get(&config(), key_a(), Err(StoreError::Failed));
    assert_eq!(expect_status(step), Status::InternalServerError);
}

#[test]
fn missing_worker_is_service_unavailable() {
    assert_eq!(
        answer_put(Err(StoreError::Unavailable)),
        Err(Status::ServiceUnavailable)
    );
    let step = answer_get(&config(), key_a(), Err(StoreError::Unavailable));
    assert_eq!(expect_status(step), Status::ServiceUnavailable);
}

#[test]
fn accepted_put_is_answered_with_success() {
    assert_eq!(answer_put(Ok(())), Ok(()));
}

#[test]
fn put_is_prepared_before_the_store_is_asked() {
    let (stored, bytes) = prepare_put(record(42, "YmJiYg==")).expect("a plan");
    assert_eq!(stored.value, 42);
    assert_eq!(stored.signature, b"bbbb".to_vec());
    assert_eq!(
        bytes,
        vec![42, 0, 0, 0, 0, 0, 0, 0, 4, 0, 0, 0, 0, 0, 0, 0, 0x62, 0x62, 0x62, 0x62]
    );
    assert_eq!(prepare_put(record(42, "YmJiY")).err(), Some(Status::BadRequest));
    assert_eq!(prepare_put(None).err(), Some(Status::BadRequest));
}

#[test]
fn get_answers_with_what_the_store_found() {
    let bytes = vec![77, 0, 0, 0, 0, 0, 0, 0, 1, 0, 0, 0, 0, 0, 0, 0, 0x62];
    let decryption = expect_record(answer_get(&config(), key_a(), Ok(Some(bytes))));
    assert_eq!(decryption.value, 77);
    assert_eq!(decryption.signature, "Yg==");
    match answer_get(&config(), key_a(), Ok(None)) {
        GetStep::Wait { key, timeout_ms } => {
            assert_eq!(key, vec![0xaa_u8; 32]);
            assert_eq!(timeout_ms, 1000);
        }
        other => panic!("expected a wait, got {:?}", other),
    }
    let step = answer_get(&config(), key_a(), Ok(Some(vec![1, 2, 3])));
    assert_eq!(expect_status(step), Status::InternalServerError);
}

#[test]
fn rejected_put_is_not_published() {
    let mut client = setup();
    assert_eq!(client.put(KEY_A, record(42, "YmJiY")), Err(Status::BadRequest));
    assert_eq!(client.put(KEY_A, None), Err(Status::BadRequest));
    let mut waiter = client.cache.waiter(vec![0xaa_u8; 32]);
    let mut context = std::task::Context::from_waker(std::task::Waker::noop());
    let polled = std::future::Future::poll(std::pin::Pin::new(&mut waiter), &mut context);
    assert!(polled.is_pending());
}

#[test]
fn accepted_put_releases_a_reader_that_waits() {
    let mut client = setup();
    let mut waiter = match client.get(KEY_A) {
        GetStep::Wait { key, .. } => client.cache.waiter(key),
        other => panic!("expected a wait, got {:?}", other),
    };
    let mut context = std::task::Context::from_waker(std::task::Waker::noop());
    let polled = std::future::Future::poll(std::pin::Pin::new(&mut waiter), &mut context);
    assert!(polled.is_pending());
    assert_eq!(client.put(KEY_A, record(42, "YmJiYg==")), Ok(()));
    let polled = std::future::Future::poll(std::pin::Pin::new(&mut waiter), &mut context);
    let waited = match polled {
        std::task::Poll::Ready(stored) => Some(stored),
        std::task::Poll::Pending => None,
    };
    let decryption = finish_get(waited).expect("a record");
    assert_eq!(decryption.value, 42);
    assert_eq!(decryption.signature, "YmJiYg==");
}

#[test]
fn configured_cache_lives_for_the_configured_delay() {
    let client = setup();
    assert_eq!(client.cache.time_to_live_ms(), 1000);
    assert_eq!(client.config.max_expected_oracle_delay_ms, 1000);
    assert_eq!(client.config.db_path, "decryptions");
}

#[test]
fn unconfigured_service_has_no_state() {
    let rocket = fhevm_decryptions_db::build_rocket::<MemoryStore>();
    assert!(rocket.state.is_none());
    let config = Config {
        db_path: String::from("x"),
        max_expected_oracle_delay_ms: 7,
    };
    let rocket = fhevm_decryptions_db::configure_rocket(rocket, config, MemoryStore::new());
    let state = rocket.state.expect("configured service");
    assert_eq!(state.cache.time_to_live_ms(), 7);
}
