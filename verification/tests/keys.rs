use ptz_camera::command::CameraCmd;
use ptz_camera::keys::{Key, KeyBinding, KeyBindings, KeySet};

#[test]
fn standard_table_binds_w_and_s() {
    let table = KeyBindings::standard();
    assert_eq!(
        table.lookup(Key::W),
        Some(KeyBinding { key: Key::W, press: CameraCmd::PtzUp, release: CameraCmd::PtzUpStop })
    );
    assert_eq!(
        table.lookup(Key::S),
        Some(KeyBinding { key: Key::S, press: CameraCmd::PtzDown, release: CameraCmd::PtzDownStop })
    );
}

#[test]
fn standard_table_binds_nothing_else() {
    let table = KeyBindings::standard();
    assert_eq!(table.lookup(Key::A), None);
    assert_eq!(table.lookup(Key::D), None);
    assert_eq!(table.lookup(Key::Escape), None);
    assert_eq!(table.lookup(Key::Other(0)), None);
    assert_eq!(table.lookup(Key::Other(87)), None);
}

#[test]
fn empty_table_binds_nothing() {
    let table = KeyBindings::from_entries(Vec::new());
    assert_eq!(table.lookup(Key::W), None);
}

#[test]
fn first_entry_for_a_key_counts() {
    let first = KeyBinding { key: Key::A, press: CameraCmd::PtzLeft, release: CameraCmd::PtzLeftStop };
    let second = KeyBinding { key: Key::A, press: CameraCmd::IrOn, release: CameraCmd::IrOff };
    let other = KeyBinding {
        key: Key::Other(9),
        press: CameraCmd::PtzCenter,
        release: CameraCmd::PtzCenter,
    };
    let table = KeyBindings::from_entries(vec![other, first, second]);
    assert_eq!(table.lookup(Key::A), Some(first));
    assert_eq!(table.lookup(Key::Other(9)), Some(other));
    assert_eq!(table.lookup(Key::Other(8)), None);
}

#[test]
fn duplicate_table_looks_up_alike() {
    let table = KeyBindings::standard();
    let copy = table.duplicate();
    for key in [Key::W, Key::A, Key::S, Key::D, Key::Escape, Key::Other(3)] {
        assert_eq!(copy.lookup(key), table.lookup(key));
    }
}

#[test]
fn key_set_insert_and_remove() {
    let mut held = KeySet::new();
    assert!(!held.contains(Key::W));
    assert!(held.insert(Key::W));
    assert!(held.contains(Key::W));
    assert!(!held.insert(Key::W));
    assert!(held.insert(Key::Other(1)));
    assert!(held.insert(Key::Other(2)));
    assert!(!held.contains(Key::Other(3)));
    assert!(held.remove(Key::W));
    assert!(!held.contains(Key::W));
    assert!(held.contains(Key::Other(1)));
    assert!(held.contains(Key::Other(2)));
    assert!(!held.remove(Key::W));
    assert!(held.remove(Key::Other(2)));
    assert!(held.remove(Key::Other(1)));
    assert!(!held.contains(Key::Other(1)));
}
