use las_bounds::names::{has_las_extension, with_extension};

#[test]
fn las_extension_is_recognised() {
    assert!(has_las_extension("a.las"));
    assert!(has_las_extension("tile.001.las"));
    assert!(has_las_extension("..las"));
}

#[test]
fn other_names_are_not_las() {
    assert!(!has_las_extension("b.txt"));
    assert!(!has_las_extension("a.LAS"));
    assert!(!has_las_extension(".las"));
    assert!(!has_las_extension("las"));
    assert!(!has_las_extension("a.las.txt"));
    assert!(!has_las_extension("a.lass"));
    assert!(!has_las_extension("a.la"));
    assert!(!has_las_extension("a."));
    assert!(!has_las_extension(""));
    assert!(!has_las_extension("."));
    assert!(!has_las_extension(".."));
}

#[test]
fn extension_is_replaced() {
    assert_eq!(with_extension("a.las", "shp"), "a.shp");
    assert_eq!(with_extension("a.las", "txt"), "a.txt");
    assert_eq!(with_extension("a.tar.gz", "shp"), "a.tar.shp");
    assert_eq!(with_extension("tiles", "shp"), "tiles.shp");
    assert_eq!(with_extension(".hidden", "txt"), ".hidden.txt");
    assert_eq!(with_extension("a.", "shp"), "a.shp");
}

#[test]
fn empty_extension_removes_it() {
    assert_eq!(with_extension("a.las", ""), "a");
    assert_eq!(with_extension("a", ""), "a");
}

#[test]
fn no_file_name_is_left_alone() {
    assert_eq!(with_extension("", "shp"), "");
    assert_eq!(with_extension(".", "shp"), ".");
    assert_eq!(with_extension("..", "shp"), "..");
}
