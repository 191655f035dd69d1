use pausetime::audio::{mute_reply, mute_request, set_mute, Platform};

#[test]
fn fallback_bridge_succeeds_for_both_values() {
    assert_eq!(set_mute(true), Ok(()));
    assert_eq!(set_mute(false), Ok(()));
}

#[test]
fn only_windows_can_mute() {
    assert!(Platform::Windows.can_mute());
    assert!(!Platform::Other.can_mute());
}

#[test]
fn unsupported_platform_makes_no_call_and_succeeds() {
    for mute in [true, false] {
        assert_eq!(mute_request(Platform::Other, mute), None);
    }
    assert_eq!(mute_reply(None), Ok(()));
}

#[test]
fn windows_is_handed_the_requested_value() {
    assert_eq!(mute_request(Platform::Windows, true), Some(true));
    assert_eq!(mute_request(Platform::Windows, false), Some(false));
}

#[test]
fn platform_success_is_passed_on() {
    assert_eq!(mute_reply(Some(Ok(()))), Ok(()));
}

#[test]
fn platform_failure_comes_back_as_its_text() {
    let failure = String::from("No audio endpoint (0x80070490)");
    assert_eq!(mute_reply(Some(Err(failure.clone()))), Err(failure));
}
