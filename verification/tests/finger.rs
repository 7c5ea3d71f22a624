use enroll::finger::Finger;

#[test]
fn test_page_all() {
    let pages = Finger::all();
    assert_eq!(pages.len(), 11);
    assert_eq!(pages[0], Finger::RightThumb);
    assert_eq!(pages[1], Finger::RightIndex);
    assert_eq!(pages[2], Finger::RightMiddle);
    assert_eq!(pages[3], Finger::RightRing);
    assert_eq!(pages[4], Finger::RightPinky);
    assert_eq!(pages[5], Finger::LeftThumb);
    assert_eq!(pages[6], Finger::LeftIndex);
    assert_eq!(pages[7], Finger::LeftMiddle);
    assert_eq!(pages[8], Finger::LeftRing);
    assert_eq!(pages[9], Finger::LeftPinky);
    assert_eq!(pages[10], Finger::DeleteAllUsersPrints);
}

#[test]
fn test_page_localized_name() {
    // Check that localized names are not empty.
    assert!(!Finger::RightThumb.localized_name().is_empty());
    assert!(!Finger::RightIndex.localized_name().is_empty());
    assert!(!Finger::RightMiddle.localized_name().is_empty());
    assert!(!Finger::RightRing.localized_name().is_empty());
    assert!(!Finger::RightPinky.localized_name().is_empty());
    assert!(!Finger::LeftThumb.localized_name().is_empty());
    assert!(!Finger::LeftIndex.localized_name().is_empty());
    assert!(!Finger::LeftMiddle.localized_name().is_empty());
    assert!(!Finger::LeftRing.localized_name().is_empty());
    assert!(!Finger::LeftPinky.localized_name().is_empty());
    assert!(!Finger::DeleteAllUsersPrints.localized_name().is_empty());
}

#[test]
fn test_page_as_finger_id() {
    assert_eq!(Finger::RightThumb.as_finger_id(), Some("right-thumb"));
    assert_eq!(Finger::RightIndex.as_finger_id(), Some("right-index-finger"));
    assert_eq!(Finger::RightMiddle.as_finger_id(), Some("right-middle-finger"));
    assert_eq!(Finger::RightRing.as_finger_id(), Some("right-ring-finger"));
    assert_eq!(Finger::RightPinky.as_finger_id(), Some("right-little-finger"));
    assert_eq!(Finger::LeftThumb.as_finger_id(), Some("left-thumb"));
    assert_eq!(Finger::LeftIndex.as_finger_id(), Some("left-index-finger"));
    assert_eq!(Finger::LeftMiddle.as_finger_id(), Some("left-middle-finger"));
    assert_eq!(Finger::LeftRing.as_finger_id(), Some("left-ring-finger"));
    assert_eq!(Finger::LeftPinky.as_finger_id(), Some("left-little-finger"));
    assert_eq!(Finger::DeleteAllUsersPrints.as_finger_id(), None);
}

#[test]
fn finger_names_are_distinct() {
    let pages = Finger::all();
    for (i, a) in pages.iter().enumerate() {
        for (j, b) in pages.iter().enumerate() {
            if i != j {
                assert_ne!(a.localized_name(), b.localized_name());
                assert_ne!(a, b);
            }
        }
    }
}

#[test]
fn finger_ids_are_distinct() {
    let ids: Vec<&str> = Finger::all().iter().filter_map(|f| f.as_finger_id()).collect();
    assert_eq!(ids.len(), 10);
    for i in 0..ids.len() {
        for j in 0..ids.len() {
            if i != j {
                assert_ne!(ids[i], ids[j]);
            }
        }
    }
}

#[test]
fn default_finger_is_right_index() {
    assert_eq!(Finger::default(), Finger::RightIndex);
}

#[test]
fn localized_names_exact() {
    assert_eq!(Finger::RightThumb.localized_name(), "Right thumb");
    assert_eq!(Finger::LeftPinky.localized_name(), "Left little finger");
    assert_eq!(Finger::DeleteAllUsersPrints.localized_name(), "Delete all prints of the user");
}
