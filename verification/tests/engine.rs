use phrasedj::engine::{
    check_analysis_input, check_deck, check_result, is_valid_stem, sync_partner, BridgeError,
    EngineConfig, PdjResult,
};
use phrasedj::error::CoreError;

#[test]
fn check_deck_accepts_valid_indices() {
    assert!(check_deck(0).is_ok());
    assert!(check_deck(1).is_ok());
    assert!(check_deck(2).is_err());
    assert!(check_deck(99).is_err());
}

#[test]
fn check_deck_rejects_with_invalid_arg() {
    assert_eq!(check_deck(2), Err(BridgeError::InvalidArg));
    assert_eq!(check_deck(u32::MAX), Err(BridgeError::InvalidArg));
}

#[test]
fn check_result_maps_every_code() {
    assert_eq!(check_result(PdjResult::Success), Ok(()));
    assert_eq!(check_result(PdjResult::InvalidArg), Err(BridgeError::InvalidArg));
    assert_eq!(check_result(PdjResult::Io), Err(BridgeError::Io));
    assert_eq!(check_result(PdjResult::NotReady), Err(BridgeError::Internal));
    assert_eq!(check_result(PdjResult::Internal), Err(BridgeError::Internal));
}

#[test]
fn sync_partner_is_the_other_deck() {
    assert_eq!(sync_partner(0), Ok(1));
    assert_eq!(sync_partner(1), Ok(0));
    assert_eq!(sync_partner(2), Err(BridgeError::InvalidArg));
}

#[test]
fn stem_indices_zero_to_three_are_valid() {
    assert!(is_valid_stem(0));
    assert!(is_valid_stem(3));
    assert!(!is_valid_stem(4));
}

#[test]
fn analysis_needs_two_samples_per_frame() {
    assert!(check_analysis_input(200, 100).is_ok());
    assert!(check_analysis_input(201, 100).is_ok());
    assert_eq!(check_analysis_input(199, 100), Err(BridgeError::InvalidArg));
    assert!(check_analysis_input(0, 0).is_ok());
    // The doubled count saturates instead of overflowing.
    assert_eq!(check_analysis_input(usize::MAX - 1, u64::MAX), Err(BridgeError::InvalidArg));
}

#[test]
fn engine_config_defaults() {
    let c = EngineConfig::default();
    assert_eq!(c.sample_rate, 44_100);
    assert_eq!(c.buffer_size, 128);
    assert_eq!(c.channel_count, 2);
    let n = c.to_native();
    assert_eq!((n.sample_rate, n.buffer_size, n.channel_count), (44_100, 128, 2));
}

#[test]
fn bridge_errors_carry_their_message_into_core_errors() {
    assert_eq!(BridgeError::InvalidArg.message(), "invalid argument");
    assert_eq!(BridgeError::BadPath.message(), "invalid path: contains NUL byte");
    let e: CoreError = BridgeError::CreateFailed.into();
    match e {
        CoreError::Other(m) => assert_eq!(m, "failed to create audio engine"),
        other => panic!("unexpected {other:?}"),
    }
}
