use std::path::Path;
use steam_checker::discovery::{DiscoveryState, Phase, MODS_SUBDIRECTORY, NOT_FOUND};
use steam_checker::normalize::normalize_manual_input;
use steam_checker::platform::Platform;
use steam_checker::prober::{candidate_paths, DirectorySnapshot};

fn snapshot_of(dirs: &[&str]) -> DirectorySnapshot {
    let mut snapshot = DirectorySnapshot::new();
    for dir in dirs {
        snapshot.record(dir);
    }
    snapshot
}

/// The six fields of a state, in the order they are declared.
fn fields(state: &DiscoveryState) -> (bool, bool, String, bool, String, bool) {
    (
        state.resolved(),
        state.found(),
        state.path().to_string(),
        state.awaiting_confirmation(),
        state.override_input().to_string(),
        state.override_valid(),
    )
}

fn found_at(path: &str) -> DiscoveryState {
    let mut state = DiscoveryState::new();
    assert!(state.check_manual_path(path, &snapshot_of(&[path])));
    state
}

#[test]
fn state_starts_empty() {
    let expected = (false, false, String::new(), false, String::new(), false);
    assert_eq!(fields(&DiscoveryState::new()), expected);
    assert_eq!(fields(&DiscoveryState::default()), expected);
}

#[test]
fn markers_have_their_texts() {
    assert_eq!(NOT_FOUND, "Not found");
    assert_eq!(MODS_SUBDIRECTORY, "/~mods/");
}

#[test]
fn automatic_discovery_without_any_candidate_on_the_host() {
    for platform in [Platform::Windows, Platform::Macos, Platform::Linux, Platform::Other] {
        let mut state = DiscoveryState::new();
        state.run_automatic_discovery(platform, Some("/home/sol"), &snapshot_of(&["/home/sol"]));
        assert!(!state.found());
        assert_eq!(state.path(), "Not found");
        assert!(state.awaiting_confirmation());
        assert!(state.resolved());
        assert!(!state.override_valid());
        assert_eq!(state.override_input(), "");
    }
}

#[test]
fn automatic_discovery_with_unresolved_home_finds_nothing() {
    let mut state = DiscoveryState::new();
    state.run_automatic_discovery(Platform::Linux, None, &DirectorySnapshot::new());
    assert_eq!(fields(&state), (true, false, "Not found".to_string(), true, String::new(), false));
}

#[test]
fn automatic_discovery_takes_the_first_candidate_that_exists() {
    let paths = candidate_paths(Platform::Linux, Some("/home/sol"));
    let mut both = DiscoveryState::new();
    both.run_automatic_discovery(
        Platform::Linux,
        Some("/home/sol"),
        &snapshot_of(&[&paths[1], &paths[0]]),
    );
    assert_eq!(fields(&both), (true, true, paths[0].clone(), true, String::new(), false));

    let mut second_only = DiscoveryState::new();
    second_only.run_automatic_discovery(
        Platform::Linux,
        Some("/home/sol"),
        &snapshot_of(&[&paths[1]]),
    );
    assert_eq!(fields(&second_only), (true, true, paths[1].clone(), true, String::new(), false));
}

#[test]
fn automatic_discovery_on_windows_finds_the_default() {
    let wanted = r"C:\Program Files\Steam\steamapps\common\GUILTY GEAR STRIVE\RED\Content\Paks\";
    let mut state = DiscoveryState::new();
    state.run_automatic_discovery(Platform::Windows, None, &snapshot_of(&[wanted]));
    assert!(state.found());
    assert_eq!(state.path(), wanted);
}

#[test]
fn automatic_discovery_runs_once() {
    let paths = candidate_paths(Platform::Macos, Some("/Users/may"));
    let mut state = DiscoveryState::new();
    state.run_automatic_discovery(Platform::Macos, Some("/Users/may"), &DirectorySnapshot::new());
    let first = fields(&state);
    state.run_automatic_discovery(Platform::Macos, Some("/Users/may"), &snapshot_of(&[&paths[0]]));
    assert_eq!(fields(&state), first);

    let mut confirmed = found_at("/games/ggst/RED/Content/Paks/");
    confirmed.confirm();
    let before = fields(&confirmed);
    confirmed.run_automatic_discovery(Platform::Linux, None, &DirectorySnapshot::new());
    assert_eq!(fields(&confirmed), before);
}

#[test]
fn manual_input_of_a_game_directory_that_exists() {
    let dirs = snapshot_of(&["/games/ggst/RED/Content/Paks/"]);
    let wanted = normalize_manual_input("/games/ggst");

    let mut checked = DiscoveryState::new();
    assert!(checked.check_manual_path(&wanted, &dirs));
    assert!(checked.override_valid());
    assert_eq!(
        fields(&checked),
        (true, true, "/games/ggst/RED/Content/Paks/".to_string(), true, String::new(), true)
    );

    let mut submitted = DiscoveryState::new();
    assert!(submitted.submit_manual_input("/games/ggst", &dirs));
    assert!(submitted.override_valid());
    assert_eq!(
        fields(&submitted),
        (
            true,
            true,
            "/games/ggst/RED/Content/Paks/".to_string(),
            true,
            "/games/ggst".to_string(),
            true
        )
    );
}

#[test]
fn manual_input_of_a_directory_that_does_not_exist() {
    let dirs = snapshot_of(&["/games/ggst"]);
    let mut state = DiscoveryState::new();
    assert!(!state.submit_manual_input("/games/ggst", &dirs));
    assert_eq!(
        fields(&state),
        (true, false, "Not found".to_string(), true, "/games/ggst".to_string(), false)
    );
}

#[test]
fn manual_check_is_of_the_exact_text() {
    let dirs = snapshot_of(&["/games/ggst/RED/Content/Paks"]);
    let mut state = DiscoveryState::new();
    assert!(!state.check_manual_path("/games/ggst/RED/Content/Paks/", &dirs));
    assert!(!state.override_valid());
    assert!(state.check_manual_path("/games/ggst/RED/Content/Paks", &dirs));
    assert!(state.override_valid());
    assert_eq!(state.path(), "/games/ggst/RED/Content/Paks");
}

#[test]
fn empty_manual_input_fails_the_check() {
    let mut state = DiscoveryState::new();
    assert!(!state.check_manual_path("", &DirectorySnapshot::new()));
    assert_eq!(fields(&state), (true, false, "Not found".to_string(), true, String::new(), false));
    assert!(!state.submit_manual_input("", &snapshot_of(&["/games"])));
    assert_eq!(state.path(), "Not found");
}

#[test]
fn manual_check_starts_a_new_search_after_one_has_completed() {
    let mut state = DiscoveryState::new();
    state.run_automatic_discovery(Platform::Linux, Some("/home/sol"), &DirectorySnapshot::new());
    assert!(!state.found());
    assert!(state.submit_manual_input(
        " /games/ggst/ ",
        &snapshot_of(&["/games/ggst/RED/Content/Paks/"])
    ));
    assert_eq!(
        fields(&state),
        (
            true,
            true,
            "/games/ggst/RED/Content/Paks/".to_string(),
            true,
            " /games/ggst/ ".to_string(),
            true
        )
    );
    assert!(!state.submit_manual_input("/elsewhere", &snapshot_of(&["/games/ggst/RED/Content/Paks/"])));
    assert_eq!(
        fields(&state),
        (true, false, "Not found".to_string(), true, "/elsewhere".to_string(), false)
    );
}

#[test]
fn manual_check_puts_a_confirmed_outcome_back_on_display() {
    let mut state = found_at("/games/ggst/RED/Content/Paks/");
    state.confirm();
    assert!(!state.awaiting_confirmation());
    assert!(state.check_manual_path("/other/RED/Content/Paks/", &snapshot_of(&["/other/RED/Content/Paks/"])));
    assert!(state.awaiting_confirmation());
    assert_eq!(state.path(), "/other/RED/Content/Paks/");
}

#[test]
fn confirm_asks_for_the_mods_directory_below_the_path() {
    let mut state = found_at("/games/ggst/RED/Content/Paks/");
    assert!(state.awaiting_confirmation());
    let request = state.confirm().expect("a path is located");
    assert_eq!(request, "/games/ggst/RED/Content/Paks//~mods/");
    assert_eq!(Path::new(&request), Path::new("/games/ggst/RED/Content/Paks/~mods/"));
    assert!(!state.awaiting_confirmation());
    assert_eq!(
        fields(&state),
        (true, true, "/games/ggst/RED/Content/Paks/".to_string(), false, String::new(), true)
    );
}

#[test]
fn confirm_on_windows_appends_to_the_path_as_it_stands() {
    let path = r"C:\Program Files\Steam\steamapps\common\GUILTY GEAR STRIVE\RED\Content\Paks\";
    let mut state = DiscoveryState::new();
    state.run_automatic_discovery(Platform::Windows, None, &snapshot_of(&[path]));
    assert_eq!(state.confirm(), Some(format!("{}/~mods/", path)));
}

#[test]
fn confirming_twice_asks_for_the_same_directory() {
    let mut state = found_at("/games/ggst/RED/Content/Paks/");
    let mut host = snapshot_of(&["/games/ggst/RED/Content/Paks/"]);

    let first = state.confirm().expect("a path is located");
    host.record(&first);
    let after_first = fields(&state);

    let second = state.confirm().expect("a path is still located");
    host.record(&second);
    assert_eq!(second, first);
    assert_eq!(fields(&state), after_first);
    assert!(host.is_dir("/games/ggst/RED/Content/Paks//~mods/"));
    assert!(host.is_dir("/games/ggst/RED/Content/Paks/"));
    assert!(!host.is_dir("/games/ggst/RED/Content/"));
}

#[test]
fn confirm_without_a_path_asks_for_nothing() {
    let mut state = DiscoveryState::new();
    state.run_automatic_discovery(Platform::Other, None, &DirectorySnapshot::new());
    assert_eq!(state.confirm(), None);
    assert_eq!(fields(&state), (true, false, "Not found".to_string(), false, String::new(), false));

    let mut fresh = DiscoveryState::new();
    assert_eq!(fresh.confirm(), None);
    assert_eq!(fields(&fresh), (false, false, String::new(), false, String::new(), false));
}

#[test]
fn reject_clears_found_and_nothing_else() {
    let mut state = found_at("/games/ggst/RED/Content/Paks/");
    assert!(state.found());
    state.reject();
    assert!(!state.found());
    assert!(state.resolved());
    assert!(state.awaiting_confirmation());
    assert_eq!(
        fields(&state),
        (true, false, "/games/ggst/RED/Content/Paks/".to_string(), true, String::new(), true)
    );
}

#[test]
fn reject_of_an_automatic_find_leads_to_manual_entry() {
    let paths = candidate_paths(Platform::Linux, Some("/home/sol"));
    let mut state = DiscoveryState::new();
    state.run_automatic_discovery(Platform::Linux, Some("/home/sol"), &snapshot_of(&[&paths[0]]));
    assert!(state.found());
    state.reject();
    assert!(!state.found());
    assert!(state.awaiting_confirmation());
    assert_eq!(state.confirm(), None);

    let mut again = DiscoveryState::new();
    again.run_automatic_discovery(Platform::Linux, Some("/home/sol"), &snapshot_of(&[&paths[0]]));
    again.reject();
    assert!(again.submit_manual_input("/mnt/ggst", &snapshot_of(&["/mnt/ggst/RED/Content/Paks/"])));
    assert_eq!(again.confirm(), Some("/mnt/ggst/RED/Content/Paks//~mods/".to_string()));
}

#[test]
fn reject_without_a_path_changes_nothing() {
    let mut state = DiscoveryState::new();
    state.reject();
    assert_eq!(fields(&state), (false, false, String::new(), false, String::new(), false));
}

#[test]
fn a_clone_is_a_state_of_its_own() {
    let state = found_at("/games/ggst/RED/Content/Paks/");
    let mut copy = state.clone();
    copy.reject();
    assert!(state.found());
    assert!(!copy.found());
    assert_eq!(copy.path(), state.path());
}

#[test]
fn phases_of_a_cycle_that_finds_and_confirms() {
    let paths = candidate_paths(Platform::Macos, Some("/Users/may"));
    let mut state = DiscoveryState::new();
    assert_eq!(state.phase(), Phase::Unresolved);
    state.run_automatic_discovery(Platform::Macos, Some("/Users/may"), &snapshot_of(&[&paths[1]]));
    assert_eq!(state.phase(), Phase::FoundAwaiting);
    state.confirm();
    assert_eq!(state.phase(), Phase::Committed);
    state.confirm();
    assert_eq!(state.phase(), Phase::Committed);
    state.run_automatic_discovery(Platform::Macos, Some("/Users/may"), &DirectorySnapshot::new());
    assert_eq!(state.phase(), Phase::Committed);
}

#[test]
fn phases_of_a_cycle_that_rejects_and_retries() {
    let paths = candidate_paths(Platform::Linux, Some("/home/sol"));
    let mut state = DiscoveryState::new();
    state.run_automatic_discovery(Platform::Linux, Some("/home/sol"), &snapshot_of(&[&paths[0]]));
    assert_eq!(state.phase(), Phase::FoundAwaiting);
    state.reject();
    assert_eq!(state.phase(), Phase::NotFoundAwaiting);
    state.submit_manual_input("/nowhere", &DirectorySnapshot::new());
    assert_eq!(state.phase(), Phase::NotFoundAwaiting);
    state.submit_manual_input("/mnt/ggst", &snapshot_of(&["/mnt/ggst/RED/Content/Paks/"]));
    assert_eq!(state.phase(), Phase::FoundAwaiting);
    state.confirm();
    assert_eq!(state.phase(), Phase::Committed);
    state.submit_manual_input("/mnt/ggst", &snapshot_of(&["/mnt/ggst/RED/Content/Paks/"]));
    assert_eq!(state.phase(), Phase::FoundAwaiting);
}

#[test]
fn phase_without_any_candidate_awaits_manual_entry() {
    let mut state = DiscoveryState::new();
    state.run_automatic_discovery(Platform::Other, None, &snapshot_of(&["/"]));
    assert_eq!(state.phase(), Phase::NotFoundAwaiting);
}
