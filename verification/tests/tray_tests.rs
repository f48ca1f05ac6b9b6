use local_server::tray::{get_tray_flash_state, FlashDecision, TrayState};

#[test]
fn enable_then_enable_leaves_one_timer() {
    let mut state: TrayState<u32> = TrayState::new();
    assert!(matches!(state.flash_tray_icon(true), FlashDecision::SpawnFlasher));
    let prev = state.enable(17);
    assert!(prev.is_none());
    // a second enable with no disable in between decides to do nothing
    assert!(matches!(state.flash_tray_icon(true), FlashDecision::KeepAsIs));
    assert_eq!(state.timer, Some(17), "the first timer is still the only one");
    assert!(get_tray_flash_state(&state));
}

#[test]
fn disable_after_enable_clears_flag_and_handle() {
    let mut state: TrayState<u32> = TrayState::new();
    state.enable(17);
    assert!(matches!(state.flash_tray_icon(false), FlashDecision::RestoreIcon));
    let prev = state.disable();
    assert_eq!(prev, Some(17), "the stored task is handed back for cancellation");
    assert!(!get_tray_flash_state(&state));
    assert!(state.timer.is_none());
}

#[test]
fn disable_while_idle_decides_keep_as_is() {
    let state: TrayState<u32> = TrayState::new();
    assert!(matches!(state.flash_tray_icon(false), FlashDecision::KeepAsIs));
    assert!(!get_tray_flash_state(&state));
}
