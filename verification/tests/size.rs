use terse::tui::size::{Area, MinSize};

#[test]
fn hmerge_works() {
    let a = MinSize::new(2, 5);
    let b = MinSize::new(8, 3);

    let merged = MinSize::hmerge(vec![a, b]);
    assert_eq!(merged, MinSize::new(10, 5));
}

#[test]
fn vmerge_works() {
    let a = MinSize::new(2, 5);
    let b = MinSize::new(8, 4);

    let merged = MinSize::vmerge(vec![a, b]);
    assert_eq!(merged, MinSize::new(8, 9));
}

#[test]
fn fits_in_works() {
    let s = MinSize::new(5, 15);

    assert!(s.fits_in(Area::new(4, 7, 5, 15)), "Testing that it fits in an equal rect");
    assert!(s.fits_in(Area::new(4, 7, 9, 17)), "Testing that it fits in a larger rect");
    assert!(!s.fits_in(Area::new(4, 7, 3, 15)), "Testing that it doesn't fit in a too thin rect");
    assert!(!s.fits_in(Area::new(4, 7, 5, 12)), "Testing that it doesn't fit in a too short rect");
}

#[test]
fn merging_nothing_needs_no_room() {
    assert_eq!(MinSize::hmerge(vec![]), MinSize::new(0, 0));
    assert_eq!(MinSize::vmerge(vec![]), MinSize::new(0, 0));
    assert_eq!(MinSize::default(), MinSize::new(0, 0));
}

#[test]
fn merged_size_covers_each_part() {
    let parts = vec![MinSize::new(3, 9), MinSize::new(7, 2), MinSize::new(1, 4)];
    let h = MinSize::hmerge(parts.clone());
    let v = MinSize::vmerge(parts.clone());
    assert_eq!(h, MinSize::new(11, 9));
    assert_eq!(v, MinSize::new(7, 15));
    for p in &parts {
        assert!(p.width <= h.width && p.height <= h.height);
        assert!(p.width <= v.width && p.height <= v.height);
    }
}

#[test]
fn merging_halves_is_merging_the_whole() {
    let a = vec![MinSize::new(3, 9), MinSize::new(7, 2)];
    let b = vec![MinSize::new(1, 4), MinSize::new(6, 12)];
    let whole: Vec<MinSize> = a.iter().chain(b.iter()).copied().collect();
    assert_eq!(
        MinSize::hmerge(whole.clone()),
        MinSize::hmerge(vec![MinSize::hmerge(a.clone()), MinSize::hmerge(b.clone())])
    );
    assert_eq!(
        MinSize::vmerge(whole),
        MinSize::vmerge(vec![MinSize::vmerge(a), MinSize::vmerge(b)])
    );
}
