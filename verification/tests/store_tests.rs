use mpd_webthing::model::{PropName, PropValue};
use mpd_webthing::store::{
    prop_name_of, Notification, PropertyStore, ValidationError, WriteOp,
};

fn fresh_store() -> PropertyStore {
    PropertyStore::new(
        PropValue::Num(40),
        PropValue::Text(Some("stop".to_owned())),
        PropValue::Flag(false),
        PropValue::Flag(false),
        PropValue::Text(None),
        PropValue::Text(None),
        PropValue::Text(None),
    )
}

fn expect_property(n: &Notification) -> (PropName, PropValue) {
    match n {
        Notification::Property(name, value) => (*name, value.duplicate()),
        Notification::Event(_) => panic!("expected a property notification"),
    }
}

#[test]
fn publish_equal_value_is_silent() {
    let mut store = fresh_store();
    store.diff_and_publish(PropName::Volume, PropValue::Num(40));
    assert_eq!(store.outbox().len(), 0);
}

#[test]
fn publish_changed_value_notifies_once() {
    let mut store = fresh_store();
    store.diff_and_publish(PropName::Volume, PropValue::Num(50));
    let notes = store.take_outbox();
    assert_eq!(notes.len(), 1);
    let (name, value) = expect_property(&notes[0]);
    assert_eq!(name, PropName::Volume);
    assert!(matches!(value, PropValue::Num(50)));
}

#[test]
fn publish_sequence_notifies_iff_changed() {
    let mut store = fresh_store();
    store.diff_and_publish(PropName::Volume, PropValue::Num(50));
    store.diff_and_publish(PropName::Volume, PropValue::Num(50));
    store.diff_and_publish(PropName::Volume, PropValue::Num(60));
    store.diff_and_publish(PropName::Repeat, PropValue::Flag(false));
    store.diff_and_publish(PropName::Repeat, PropValue::Flag(true));
    let notes = store.take_outbox();
    assert_eq!(notes.len(), 3);
    let (n0, v0) = expect_property(&notes[0]);
    assert_eq!(n0, PropName::Volume);
    assert!(matches!(v0, PropValue::Num(50)));
    let (n1, v1) = expect_property(&notes[1]);
    assert_eq!(n1, PropName::Volume);
    assert!(matches!(v1, PropValue::Num(60)));
    let (n2, v2) = expect_property(&notes[2]);
    assert_eq!(n2, PropName::Repeat);
    assert!(matches!(v2, PropValue::Flag(true)));
}

#[test]
fn publish_text_compares_by_value() {
    let mut store = fresh_store();
    store.diff_and_publish(PropName::Artist, PropValue::Text(Some("Ada".to_owned())));
    store.diff_and_publish(PropName::Artist, PropValue::Text(Some("Ada".to_owned())));
    assert_eq!(store.outbox().len(), 1);
    store.diff_and_publish(PropName::Artist, PropValue::Text(None));
    assert_eq!(store.outbox().len(), 2);
}

#[test]
fn read_returns_last_published_value() {
    let mut store = fresh_store();
    assert!(matches!(store.read(PropName::Volume), PropValue::Num(40)));
    store.diff_and_publish(PropName::Volume, PropValue::Num(70));
    assert!(matches!(store.read(PropName::Volume), PropValue::Num(70)));
    assert!(matches!(store.read(PropName::Repeat), PropValue::Flag(false)));
}

#[test]
fn write_volume_out_of_range_is_rejected() {
    let store = fresh_store();
    let r = store.write(PropName::Volume, &PropValue::Num(150));
    assert_eq!(r, Err(ValidationError::OutOfRange));
    let r = store.write(PropName::Volume, &PropValue::Num(-1));
    assert_eq!(r, Err(ValidationError::OutOfRange));
}

#[test]
fn write_volume_in_range_yields_one_device_op() {
    let store = fresh_store();
    let r = store.write(PropName::Volume, &PropValue::Num(50));
    assert_eq!(r, Ok(WriteOp::SetVolume(50)));
}

#[test]
fn write_type_mismatch_is_rejected() {
    let store = fresh_store();
    let r = store.write(PropName::Volume, &PropValue::Flag(true));
    assert_eq!(r, Err(ValidationError::TypeMismatch));
    let r = store.write(PropName::Repeat, &PropValue::Num(1));
    assert_eq!(r, Err(ValidationError::TypeMismatch));
}

#[test]
fn write_flags_forward_the_value() {
    let store = fresh_store();
    assert_eq!(
        store.write(PropName::Repeat, &PropValue::Flag(true)),
        Ok(WriteOp::SetRepeat(true))
    );
    assert_eq!(
        store.write(PropName::Random, &PropValue::Flag(false)),
        Ok(WriteOp::SetRandom(false))
    );
}

#[test]
fn write_read_only_property_is_rejected() {
    let store = fresh_store();
    let r = store.write(PropName::Artist, &PropValue::Text(None));
    assert_eq!(r, Err(ValidationError::NotWritable));
    let r = store.write(PropName::State, &PropValue::Text(None));
    assert_eq!(r, Err(ValidationError::NotWritable));
}

#[test]
fn take_outbox_drains_the_store() {
    let mut store = fresh_store();
    store.diff_and_publish(PropName::Volume, PropValue::Num(90));
    assert_eq!(store.take_outbox().len(), 1);
    assert_eq!(store.outbox().len(), 0);
    assert_eq!(store.take_outbox().len(), 0);
}

#[test]
fn prop_name_resolution() {
    assert_eq!(prop_name_of("volume"), Some(PropName::Volume));
    assert_eq!(prop_name_of("state"), Some(PropName::State));
    assert_eq!(prop_name_of("repeat"), Some(PropName::Repeat));
    assert_eq!(prop_name_of("random"), Some(PropName::Random));
    assert_eq!(prop_name_of("artist"), Some(PropName::Artist));
    assert_eq!(prop_name_of("album"), Some(PropName::Album));
    assert_eq!(prop_name_of("title"), Some(PropName::Title));
    assert_eq!(prop_name_of("loudness"), None);
}
