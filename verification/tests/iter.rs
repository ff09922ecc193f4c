use rotate_enum::cursor::VariantCursor;

#[test]
fn iter_test_shift() {
    let names = ["Up", "Left", "Down", "Right"];

    let mut iter = VariantCursor::starting_at(0, names.len());
    assert!(iter.advance().map(|i| names[i]) == Some("Up"));
    assert!(iter.advance().map(|i| names[i]) == Some("Left"));
    assert!(iter.advance().map(|i| names[i]) == Some("Down"));
    assert!(iter.advance().map(|i| names[i]) == Some("Right"));
    assert!(iter.advance().map(|i| names[i]) == None);

    let mut from_up = VariantCursor::starting_at(0, names.len());
    let collected: Vec<&str> = from_up
        .collect_remaining()
        .into_iter()
        .map(|i| names[i])
        .collect();
    assert_eq!(collected, vec!["Up", "Left", "Down", "Right"]);

    let mut first = VariantCursor::starting_at(0, names.len());
    assert!(first.advance().map(|i| names[i]) == Some("Up"));

    let mut fresh = VariantCursor::new(names.len());
    let from_entry: Vec<&str> = fresh
        .collect_remaining()
        .into_iter()
        .map(|i| names[i])
        .collect();
    assert_eq!(from_entry, vec!["Up", "Left", "Down", "Right"]);
}

#[test]
fn iter_exhaustion_is_absorbing() {
    let mut cursor = VariantCursor::starting_at(1, 2);
    assert_eq!(cursor.advance(), Some(1));
    assert_eq!(cursor.advance(), None);
    assert_eq!(cursor.advance(), None);
    assert_eq!(cursor.advance(), None);
}

#[test]
fn iter_starts_at_receiver() {
    let names = ["Up", "Left", "Down", "Right"];
    let mut from_down = VariantCursor::starting_at(2, names.len());
    let tail: Vec<&str> = from_down
        .collect_remaining()
        .into_iter()
        .map(|i| names[i])
        .collect();
    assert_eq!(tail, vec!["Down", "Right"]);
}
