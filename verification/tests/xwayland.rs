use wado_compositor::xwayland::{
    display_name, lock_path, free_display, socket_path, socket_path_str, DISPLAY_TRIES, FIRST_DISPLAY,
};

#[test]
fn both_socket_paths_name_the_same_file() {
    assert_eq!(socket_path(21), socket_path_str(":21"));
}

#[test]
fn a_used_display_number_is_skipped() {
    let free = vec![false; DISPLAY_TRIES as usize];
    let first = free_display(&free).expect("some display must be free");
    assert!(first >= FIRST_DISPLAY);

    let mut locked = free.clone();
    locked[(first - FIRST_DISPLAY) as usize] = true;
    assert_eq!(free_display(&locked), Some(first + 1), "a locked number must not be offered");
}

#[test]
fn every_name_of_a_display_spells_its_number() {
    assert_eq!(socket_path(20), "/tmp/.X11-unix/X20");
    assert_eq!(display_name(7), ":7");
    assert_eq!(lock_path(120), "/tmp/.X120-lock");
    assert_eq!(socket_path_str("::5"), "/tmp/.X11-unix/X5");
}

#[test]
fn no_display_is_offered_when_all_are_taken() {
    assert_eq!(free_display(&vec![true; DISPLAY_TRIES as usize]), None);
    assert_eq!(free_display(&Vec::new()), None);
    let mut last = vec![true; DISPLAY_TRIES as usize];
    last[DISPLAY_TRIES as usize - 1] = false;
    assert_eq!(free_display(&last), Some(FIRST_DISPLAY + DISPLAY_TRIES - 1));
}
