use tibia_markers::startup::{
    find_target_window, StartupError, WindowInfo, WINDOW_HEIGHT, WINDOW_WIDTH,
};

fn window(app_name: &str, width: u32, height: u32) -> WindowInfo {
    WindowInfo { app_name: app_name.to_string(), width, height }
}

#[test]
fn expected_window_size_has_its_values() {
    assert_eq!(WINDOW_WIDTH, 1440);
    assert_eq!(WINDOW_HEIGHT, 875);
}

#[test]
fn target_window_of_the_expected_size_is_found() {
    let windows =
        vec![window("Finder", 800, 600), window("Tibia", 1440, 875), window("Safari", 1440, 875)];
    assert_eq!(find_target_window(&windows), Ok(1));
}

#[test]
fn no_window_at_all_means_not_opened() {
    assert_eq!(find_target_window(&Vec::new()), Err(StartupError::NotOpened));
}

#[test]
fn no_target_window_means_not_opened() {
    let windows = vec![window("Finder", 1440, 875), window("tibia", 1440, 875)];
    assert_eq!(find_target_window(&windows), Err(StartupError::NotOpened));
}

#[test]
fn target_window_of_another_size_is_a_mismatch() {
    assert_eq!(
        find_target_window(&vec![window("Tibia", 1441, 875)]),
        Err(StartupError::SizeMismatch)
    );
    assert_eq!(
        find_target_window(&vec![window("Tibia", 1440, 874)]),
        Err(StartupError::SizeMismatch)
    );
    assert_eq!(
        find_target_window(&vec![window("Tibia", 875, 1440)]),
        Err(StartupError::SizeMismatch)
    );
}

#[test]
fn only_the_first_target_window_counts() {
    let windows = vec![window("Tibia", 100, 100), window("Tibia", 1440, 875)];
    assert_eq!(find_target_window(&windows), Err(StartupError::SizeMismatch));
    let windows = vec![window("Tibia", 1440, 875), window("Tibia", 100, 100)];
    assert_eq!(find_target_window(&windows), Ok(0));
}

#[test]
fn startup_errors_name_the_failed_precondition() {
    assert_eq!(StartupError::NotOpened.message(), "tibia not opened");
    assert_eq!(StartupError::SizeMismatch.message(), "mismatch in window size");
}
