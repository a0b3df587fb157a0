use graux_sdk::error::GrauxError;
use graux_sdk::provider::{GrauxProvider, RETRY_BASE_DELAY, RETRY_MAX_DELAY};

#[test]
fn every_failure_has_its_words() {
    assert_eq!(
        GrauxError::InvalidNetwork("moon".to_string()).message(),
        "Invalid network: moon"
    );
    assert_eq!(
        GrauxError::InvalidHex("0xzz".to_string()).message(),
        "Invalid hexadecimal text: 0xzz"
    );
    assert_eq!(
        GrauxError::InvalidAddress("nobody".to_string()).message(),
        "Invalid address: nobody"
    );
    assert_eq!(
        GrauxError::Transport("connection reset".to_string()).message(),
        "Transport failure: connection reset"
    );
    assert_eq!(
        GrauxError::Rpc { code: -32000, message: "execution reverted".to_string() }.message(),
        "Node error: execution reverted"
    );
    assert_eq!(
        GrauxError::Decode("expected a string".to_string()).message(),
        "Unexpected response: expected a string"
    );
    assert_eq!(GrauxError::Transport(String::new()).message(), "Transport failure: ");
}

#[test]
fn the_pause_doubles_up_to_the_longest() {
    assert_eq!(RETRY_BASE_DELAY, 1000);
    assert_eq!(RETRY_MAX_DELAY, 30000);
    assert_eq!(GrauxProvider::retry_delay(0), 1000);
    assert_eq!(GrauxProvider::retry_delay(1), 1000);
    assert_eq!(GrauxProvider::retry_delay(2), 2000);
    assert_eq!(GrauxProvider::retry_delay(3), 4000);
    assert_eq!(GrauxProvider::retry_delay(4), 8000);
    assert_eq!(GrauxProvider::retry_delay(5), 16000);
    assert_eq!(GrauxProvider::retry_delay(6), 30000);
    assert_eq!(GrauxProvider::retry_delay(7), 30000);
    assert_eq!(GrauxProvider::retry_delay(1000), 30000);
    assert_eq!(GrauxProvider::retry_delay(u64::MAX), 30000);
}

#[test]
fn the_pause_never_shrinks() {
    let mut before = 0;
    for attempt in 0..40 {
        let pause = GrauxProvider::retry_delay(attempt);
        assert!(pause >= before);
        assert!((RETRY_BASE_DELAY..=RETRY_MAX_DELAY).contains(&pause));
        before = pause;
    }
}
