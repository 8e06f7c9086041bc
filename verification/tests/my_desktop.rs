use lenzu::my_desktop::{Desktop, Screen, SCREEN_SLOTS};

fn three_in_a_row() -> Vec<Screen> {
    vec![
        Screen::new(7, 100, "primary", 1920, 1080, 0, 0),
        Screen::new(7, 101, "left", 1280, 1024, -1280, 0),
        Screen::new(7, 102, "right", 2560, 1440, 1920, -200),
    ]
}

#[test]
fn screen_is_what_it_was_made_of() {
    let screen = Screen::new(2, 77, "side", 800, 600, -800, 40);
    assert_eq!(screen.index, 2);
    assert_eq!(screen.id, 77);
    assert_eq!(screen.name, "side");
    assert_eq!((screen.width, screen.height), (800, 600));
    assert_eq!((screen.top_x, screen.top_y), (-800, 40));
    let copy = screen.clone();
    assert_eq!(copy.name, "side");
    assert_eq!(copy.top_x, -800);
}

#[test]
fn screen_holds_its_left_and_top_edge_only() {
    let screen = Screen::new(0, 0, "s", 800, 600, -800, 40);
    assert!(screen.contains((-800, 40)));
    assert!(screen.contains((-1, 639)));
    assert!(!screen.contains((0, 40)));
    assert!(!screen.contains((-1, 640)));
    assert!(!screen.contains((-801, 40)));
    assert!(!screen.contains((-800, 39)));
    let huge = Screen::new(0, 0, "h", u32::MAX, u32::MAX, i32::MAX, i32::MAX);
    assert!(huge.contains((i32::MAX, i32::MAX)));
    assert!(!huge.contains((i32::MIN, i32::MAX)));
}

#[test]
fn desktop_numbers_its_screens_and_fills_the_rest() {
    let desktop = Desktop::new(&three_in_a_row());
    let first = desktop.current_screen();
    assert_eq!(first.index, 0);
    assert_eq!(first.id, 100);
    assert_eq!(first.name, "primary");
    assert_eq!(SCREEN_SLOTS, 9);
}

#[test]
fn cursor_picks_the_screen_it_is_on() {
    let mut desktop = Desktop::new(&three_in_a_row());
    let left = desktop.update(Some((-5, 500)));
    assert_eq!((left.index, left.id), (1, 101));
    assert_eq!(left.name, "left");
    assert_eq!(desktop.current_screen().id, 101);
    let right = desktop.update(Some((1920, -200)));
    assert_eq!((right.index, right.id), (2, 102));
    let primary = desktop.update(Some((0, 0)));
    assert_eq!((primary.index, primary.id), (0, 100));
}

#[test]
fn cursor_off_every_screen_changes_nothing() {
    let mut desktop = Desktop::new(&three_in_a_row());
    desktop.update(Some((2000, 0)));
    let still = desktop.update(Some((-5000, 0)));
    assert_eq!(still.id, 102);
    let unread = desktop.update(None);
    assert_eq!(unread.id, 102);
    assert_eq!(desktop.current_screen().id, 102);
}

#[test]
fn last_of_overlapping_screens_wins() {
    let screens = vec![
        Screen::new(0, 1, "under", 1000, 1000, 0, 0),
        Screen::new(0, 2, "over", 500, 500, 250, 250),
    ];
    let mut desktop = Desktop::new(&screens);
    assert_eq!(desktop.update(Some((300, 300))).id, 2);
    assert_eq!(desktop.update(Some((100, 100))).id, 1);
}

#[test]
fn vacant_slots_hold_no_point() {
    let mut desktop = Desktop::new(&[]);
    let vacant = desktop.current_screen();
    assert_eq!((vacant.index, vacant.id), (0, 0));
    assert_eq!(vacant.name, "0");
    assert_eq!((vacant.width, vacant.height), (0, 0));
    assert_eq!(desktop.update(Some((0, 0))).name, "0");
}

#[test]
fn nine_screens_fill_every_slot() {
    let screens: Vec<Screen> =
        (0..9).map(|i| Screen::new(0, 50 + i, "m", 100, 100, 100 * i as i32, 0)).collect();
    let mut desktop = Desktop::new(&screens);
    let last = desktop.update(Some((850, 50)));
    assert_eq!((last.index, last.id), (8, 58));
}
