use vst_host::loader::{AbortReason, LoadAction, LoadError, LoadPhase, PluginLoader};
use vst_host::plugin::{ClassCategory, PluginClassError, PluginError};
use vst_host::text::Utf8Error;

fn c_buffer(text: &[u8], size: usize) -> Vec<u8> {
    let mut buf = vec![0u8; size];
    buf[..text.len()].copy_from_slice(text);
    buf
}

fn loader_with_factory(count: i32) -> (PluginLoader, LoadAction) {
    let (mut l, first) = PluginLoader::new();
    assert_eq!(first, LoadAction::CallEntry);
    assert_eq!(l.entry_returned(true), LoadAction::ReadFactoryInfo);
    let a = l.factory_info_read(
        count,
        &c_buffer(b"https://xferrecords.com", 256),
        &c_buffer(b"info@xferrecords.com", 128),
        &c_buffer(b"Xfer Records", 64),
    );
    (l, a)
}

#[test]
fn loads_every_class_in_order() {
    let (mut l, a) = loader_with_factory(2);
    assert_eq!(a, LoadAction::ReadClassInfo(0));
    let m = l.metadata().unwrap();
    assert_eq!(m.url, "https://xferrecords.com");
    assert_eq!(m.email, "info@xferrecords.com");
    assert_eq!(m.vendor, "Xfer Records");

    assert_eq!(
        l.class_info_read(&c_buffer(b"Audio Module Effect Class", 32), &c_buffer(b"OTT", 64)),
        LoadAction::CreateComponent(0)
    );
    assert_eq!(l.component_created(0, false), LoadAction::SetUpComponent(0));
    assert_eq!(l.edit_controller_created(0, false), LoadAction::CompleteClass { index: 0, next: Some(1) });
    assert_eq!(l.phase(), LoadPhase::AwaitingClassInfo);

    assert_eq!(
        l.class_info_read(&c_buffer(b"Component Controller Class", 32), &c_buffer(b"OTT Ctrl", 64)),
        LoadAction::CreateComponent(1)
    );
    assert_eq!(l.component_created(0, false), LoadAction::SetUpComponent(1));
    assert_eq!(l.edit_controller_created(0, false), LoadAction::CompleteClass { index: 1, next: None });
    assert_eq!(l.phase(), LoadPhase::Loaded);
    assert_eq!(l.class_count(), 2);

    let (meta, classes) = l.into_parts().unwrap();
    assert_eq!(meta.vendor, "Xfer Records");
    assert_eq!(classes.len(), 2);
    assert_eq!(classes[0].name, "OTT");
    assert_eq!(classes[0].category, ClassCategory::VstAudioEffectClass);
    assert_eq!(classes[1].name, "OTT Ctrl");
    assert_eq!(classes[1].category, ClassCategory::VstComponentControllerClass);
}

#[test]
fn entry_failure_fails_the_load() {
    let (mut l, _) = PluginLoader::new();
    let expected = LoadError::Plugin(PluginError::EntryFailed);
    assert_eq!(l.entry_returned(false), LoadAction::Fail(expected.clone()));
    assert_eq!(l.phase(), LoadPhase::Failed);
    assert_eq!(l.error(), Some(&expected));
    assert!(l.into_parts().is_none());
}

#[test]
fn factory_without_classes_finishes() {
    let (l, a) = loader_with_factory(0);
    assert_eq!(a, LoadAction::Finish);
    assert_eq!(l.phase(), LoadPhase::Loaded);
    let (_, classes) = l.into_parts().unwrap();
    assert!(classes.is_empty());

    let (l, a) = loader_with_factory(-3);
    assert_eq!(a, LoadAction::Finish);
    assert_eq!(l.phase(), LoadPhase::Loaded);
}

#[test]
fn invalid_vendor_text_fails_the_load() {
    let (mut l, _) = PluginLoader::new();
    l.entry_returned(true);
    let a = l.factory_info_read(1, b"ok\0", b"\xff\0", b"\xc3\0");
    let e = LoadError::InvalidText(Utf8Error { valid_up_to: 0, error_len: Some(1) });
    assert_eq!(a, LoadAction::Fail(e.clone()));
    assert_eq!(l.error(), Some(&e));
    assert_eq!(l.phase(), LoadPhase::Failed);
    assert!(l.metadata().is_none());
}

#[test]
fn invalid_class_name_fails_the_load() {
    let (mut l, _) = loader_with_factory(1);
    let a = l.class_info_read(b"Audio Module Effect Class\0", b"OT\xc3(\0");
    let e = LoadError::InvalidText(Utf8Error { valid_up_to: 2, error_len: Some(1) });
    assert_eq!(a, LoadAction::Fail(e.clone()));
    assert_eq!(l.error(), Some(&e));
}

#[test]
fn no_interface_refuses_the_class() {
    let (mut l, _) = loader_with_factory(1);
    l.class_info_read(b"Audio Module Effect Class\0", b"OTT\0");
    let a = l.component_created(-1, true);
    let e = LoadError::PluginClass(PluginClassError::ClassInstantiationFailed("OTT".to_string(), -1));
    assert_eq!(a, LoadAction::Fail(e.clone()));
    assert_eq!(l.phase(), LoadPhase::Failed);
    assert_eq!(l.error(), Some(&e));
}

#[test]
fn other_component_codes_go_on() {
    let (mut l, _) = loader_with_factory(1);
    l.class_info_read(b"Audio Module Effect Class\0", b"OTT\0");
    assert_eq!(l.component_created(1, false), LoadAction::SetUpComponent(0));
}

#[test]
fn null_component_aborts() {
    let (mut l, _) = loader_with_factory(1);
    l.class_info_read(b"Audio Module Effect Class\0", b"OTT\0");
    assert_eq!(l.component_created(0, true), LoadAction::Abort(AbortReason::NullComponent));
    assert_eq!(l.phase(), LoadPhase::Aborted);
}

#[test]
fn refused_edit_controller_aborts() {
    let (mut l, _) = loader_with_factory(1);
    l.class_info_read(b"Audio Module Effect Class\0", b"OTT\0");
    l.component_created(0, false);
    assert_eq!(
        l.edit_controller_created(1, false),
        LoadAction::Abort(AbortReason::EditControllerRejected(1))
    );
    assert_eq!(l.phase(), LoadPhase::Aborted);
    assert!(l.classes().is_empty());
}

#[test]
fn null_edit_controller_aborts() {
    let (mut l, _) = loader_with_factory(1);
    l.class_info_read(b"Audio Module Effect Class\0", b"OTT\0");
    l.component_created(0, false);
    assert_eq!(l.edit_controller_created(0, true), LoadAction::Abort(AbortReason::NullEditController));
}

#[test]
fn outcomes_out_of_turn_are_ignored() {
    let (mut l, _) = PluginLoader::new();
    assert_eq!(l.component_created(0, false), LoadAction::Ignore);
    assert_eq!(l.class_info_read(b"\0", b"\0"), LoadAction::Ignore);
    assert_eq!(l.phase(), LoadPhase::AwaitingEntry);
    l.entry_returned(false);
    assert_eq!(l.entry_returned(true), LoadAction::Ignore);
    assert_eq!(l.factory_info_read(1, b"\0", b"\0", b"\0"), LoadAction::Ignore);
    assert_eq!(l.phase(), LoadPhase::Failed);
    assert_eq!(l.error(), Some(&LoadError::Plugin(PluginError::EntryFailed)));
}
