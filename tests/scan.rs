use las_bounds::scan::list_las;

fn strings(v: &[&str]) -> Vec<String> {
    v.iter().map(|s| s.to_string()).collect()
}

#[test]
fn keeps_only_las_entries_in_order() {
    let entries = strings(&["a.las", "b.txt", "c.las", "d", "e.LAS", "sub", "f.las"]);
    assert_eq!(list_las(&entries), strings(&["a.las", "c.las", "f.las"]));
}

#[test]
fn count_matches_whatever_the_order() {
    let one = strings(&["x.las", "notes.txt", "y.las", "z.laz", "w.las"]);
    let two = strings(&["w.las", "z.laz", "y.las", "notes.txt", "x.las"]);
    let mut a = list_las(&one);
    let mut b = list_las(&two);
    assert_eq!(a.len(), 3);
    assert_eq!(b.len(), 3);
    a.sort();
    b.sort();
    assert_eq!(a, b);
    assert_eq!(a, strings(&["w.las", "x.las", "y.las"]));
}

#[test]
fn no_las_entries_gives_nothing() {
    assert!(list_las(&strings(&["b.txt", "c.shp", ".las"])).is_empty());
    assert!(list_las(&Vec::new()).is_empty());
}
