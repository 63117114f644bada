use binbreak::layout::{Area, BANNER_HEIGHT, LIST_PADDING};

fn area(x: u16, y: u16, width: u16, height: u16) -> Area {
    Area { x, y, width, height }
}

#[test]
fn new_area_is_cut_off_at_the_end_of_the_grid() {
    assert_eq!(Area::new(1, 2, 30, 40), area(1, 2, 30, 40));
    assert_eq!(Area::new(65530, 0, 10, 5), area(65530, 0, 5, 5));
    assert_eq!(Area::new(0, 65535, 10, 5), area(0, 65535, 10, 0));
    assert_eq!(Area::new(65535, 65535, 65535, 65535), area(65535, 65535, 0, 0));
    assert_eq!(Area::new(0, 0, 65535, 65535), area(0, 0, 65535, 65535));
}

#[test]
fn area_holds_its_cells_and_no_others() {
    let a = area(10, 20, 3, 2);
    assert!(a.contains(10, 20));
    assert!(a.contains(12, 21));
    assert!(!a.contains(13, 20));
    assert!(!a.contains(10, 22));
    assert!(!a.contains(9, 20));
    assert!(!a.contains(10, 19));
    assert!(!area(10, 20, 0, 5).contains(10, 20));
    assert!(area(65535, 65535, 1, 1).contains(65535, 65535));
}

#[test]
fn centred_area_has_equal_margins() {
    assert_eq!(area(0, 0, 80, 24).get_centered_area(20, 4), area(30, 10, 20, 4));
    assert_eq!(area(5, 7, 80, 24).get_centered_area(20, 4), area(35, 17, 20, 4));
    // What is left over is odd: the smaller margin comes first.
    assert_eq!(area(0, 0, 81, 25).get_centered_area(20, 4), area(30, 10, 20, 4));
    assert_eq!(area(0, 0, 10, 10).get_centered_area(10, 10), area(0, 0, 10, 10));
}

#[test]
fn area_too_large_to_centre_starts_at_the_corner() {
    assert_eq!(area(3, 4, 10, 5).get_centered_area(20, 9), area(3, 4, 20, 9));
    assert_eq!(area(3, 4, 10, 5).get_centered_area(4, 9), area(6, 4, 4, 9));
}

#[test]
fn centred_area_is_cut_off_at_the_end_of_the_grid() {
    assert_eq!(area(65000, 0, 500, 10).get_centered_area(400, 2), area(65050, 4, 400, 2));
    assert_eq!(area(65000, 0, 535, 10).get_centered_area(600, 2), area(65000, 4, 535, 2));
}

#[test]
fn banner_takes_the_first_ten_rows() {
    assert_eq!(BANNER_HEIGHT, 10);
    assert_eq!(area(2, 3, 80, 24).banner_area(), area(2, 3, 80, 10));
    assert_eq!(area(2, 3, 80, 6).banner_area(), area(2, 3, 80, 6));
    assert_eq!(area(2, 3, 80, 10).banner_area(), area(2, 3, 80, 10));
}

#[test]
fn list_is_centred_under_the_banner() {
    assert_eq!(LIST_PADDING, 4);
    // 80 x 24: the list is 16 + 4 wide, 14 rows are left under the banner.
    assert_eq!(area(0, 0, 80, 24).list_area(16, 4), area(30, 15, 20, 4));
    assert_eq!(area(1, 2, 80, 24).list_area(16, 4), area(31, 17, 20, 4));
}

#[test]
fn list_is_no_larger_than_the_room_it_has() {
    assert_eq!(area(0, 0, 12, 24).list_area(16, 4), area(0, 15, 12, 4));
    assert_eq!(area(0, 0, 80, 12).list_area(16, 4), area(30, 10, 20, 2));
    assert_eq!(area(0, 0, 80, 8).list_area(16, 4), area(30, 10, 20, 0));
    assert_eq!(area(0, 0, 80, 24).list_area(65535, 4), area(0, 15, 80, 4));
}
