use wado_compositor::control::launch_plan;
use wado_compositor::launch::{program_name, with_ime_flag, IME_FLAG};
use wado_compositor::text::{chars_of, trim};

#[test]
fn chromium_family_gets_the_flag_once() {
    assert_eq!(with_ime_flag("chromium"), "chromium --enable-wayland-ime");
    assert_eq!(
        with_ime_flag("/usr/bin/google-chrome-stable --new-window"),
        "/usr/bin/google-chrome-stable --new-window --enable-wayland-ime"
    );
    let already = "chromium --enable-wayland-ime --new-window";
    assert_eq!(with_ime_flag(already), already);
}

#[test]
fn everything_else_is_left_alone() {
    for cmd in ["foot", "nautilus --new-window", "firefox", ""] {
        assert_eq!(with_ime_flag(cmd), cmd);
    }
}

#[test]
fn only_the_program_name_is_matched() {
    assert_eq!(with_ime_flag("foot -e ./chrome-notes.sh"), "foot -e ./chrome-notes.sh");
}

#[test]
fn every_chromium_family_member_is_recognised() {
    for program in ["brave-browser", "vivaldi-stable", "microsoft-edge", "/opt/google/chrome/chrome"] {
        assert_eq!(with_ime_flag(program), format!("{program} {IME_FLAG}"));
    }
}

#[test]
fn the_program_is_the_file_name_of_the_first_word() {
    let chars = chars_of("  /usr/bin/chromium --incognito");
    let program: String = program_name(&chars).into_iter().collect();
    assert_eq!(program, "chromium");
}

#[test]
fn trimming_cuts_whitespace_at_both_ends_only() {
    assert_eq!(trim("  foot -e  top \n"), "foot -e  top");
    assert_eq!(trim(" \t "), "");
}

#[test]
fn a_blank_launch_runs_nothing() {
    assert!(launch_plan("").is_none());
    assert!(launch_plan("   \t").is_none());
}

#[test]
fn a_launch_is_reported_by_what_was_asked_and_runs_with_the_flag() {
    let plan = launch_plan("  chromium --new-window ").expect("a real command");
    assert_eq!(plan.asked, "chromium --new-window");
    assert_eq!(plan.command, "  chromium --new-window  --enable-wayland-ime");
    let plan = launch_plan("foot").expect("a real command");
    assert_eq!(plan.asked, "foot");
    assert_eq!(plan.command, "foot");
}

#[test]
fn passing_a_command_through_twice_adds_nothing_more() {
    for cmd in ["chromium", "brave --incognito", "foot", "chromium --enable-wayland-ime"] {
        let once = with_ime_flag(cmd);
        assert_eq!(with_ime_flag(&once), once);
    }
}
