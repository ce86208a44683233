use hot_reload::identity::DynId;
use hot_reload::loader::{check_loadable, DynPlugin, LoadEvent, PluginError, GLUE_SYMBOL};
use std::any::TypeId;

fn load(p: &mut DynPlugin, marker: TypeId, id: DynId) -> Result<Option<DynId>, PluginError> {
    p.record(LoadEvent::MarkerRead(marker))?;
    p.record(LoadEvent::IdentityRead(id))
}

#[test]
fn name_is_final_component() {
    let p = DynPlugin::from_library_path("/tmp/plugins/libanswer.so").unwrap();
    assert_eq!(p.name(), "libanswer.so");
    assert_eq!(p.library_path(), "/tmp/plugins/libanswer.so");
    assert_eq!(p.identity(), None);
    assert_eq!(p.cached(), None);
}

#[test]
fn path_without_file_component_is_invalid() {
    assert_eq!(DynPlugin::from_library_path("").unwrap_err(), PluginError::InvalidName);
    assert_eq!(DynPlugin::from_library_path("/").unwrap_err(), PluginError::InvalidName);
    assert_eq!(DynPlugin::from_library_path("plugins/..").unwrap_err(), PluginError::InvalidName);
}

#[test]
fn matching_marker_loads_once() {
    let mut p = DynPlugin::from_library_path("libanswer.so").unwrap();
    let id = DynId::Extern(3);
    assert!(p.accepts_marker(&TypeId::of::<()>()));
    assert_eq!(p.record(LoadEvent::MarkerRead(TypeId::of::<()>())), Ok(None));
    assert_eq!(p.cached(), None);
    assert_eq!(p.record(LoadEvent::IdentityRead(id)), Ok(Some(id)));
    assert_eq!(p.identity(), Some(id));
    for _ in 0..5 {
        assert_eq!(p.cached(), Some(Ok(id)));
    }
}

#[test]
fn same_identity_observed_again_is_accepted() {
    let mut p = DynPlugin::from_library_path("libanswer.so").unwrap();
    let id = DynId::Extern(3);
    load(&mut p, TypeId::of::<()>(), id).unwrap();
    assert_eq!(load(&mut p, TypeId::of::<()>(), id), Ok(Some(id)));
    assert_eq!(p.identity(), Some(id));
}

#[test]
fn other_identity_observed_again_is_a_violation() {
    let mut p = DynPlugin::from_library_path("libanswer.so").unwrap();
    load(&mut p, TypeId::of::<()>(), DynId::Extern(3)).unwrap();
    assert_eq!(
        load(&mut p, TypeId::of::<()>(), DynId::Extern(4)),
        Err(PluginError::IdentityInvariantViolation)
    );
    assert_eq!(p.identity(), Some(DynId::Extern(3)));
}

#[test]
fn other_marker_is_abi_mismatch() {
    let mut p = DynPlugin::from_library_path("libanswer.so").unwrap();
    assert!(!p.accepts_marker(&TypeId::of::<u8>()));
    let r = p.record(LoadEvent::MarkerRead(TypeId::of::<u8>()));
    assert_eq!(r, Err(PluginError::AbiMismatch));
    assert_eq!(p.identity(), None);
    assert_eq!(p.cached(), Some(Err(PluginError::AbiMismatch)));
    let again = load(&mut p, TypeId::of::<()>(), DynId::Extern(0));
    assert_eq!(again, Err(PluginError::AbiMismatch));
    assert_eq!(p.identity(), None);
}

#[test]
fn identity_before_marker_is_not_trusted() {
    let mut p = DynPlugin::from_library_path("libanswer.so").unwrap();
    assert_eq!(p.record(LoadEvent::IdentityRead(DynId::Extern(1))), Ok(None));
    assert_eq!(p.identity(), None);
    assert_eq!(p.cached(), None);
}

#[test]
fn unopenable_file_is_load_error() {
    let mut p = DynPlugin::from_library_path("/nowhere/libmissing.so").unwrap();
    let r = p.record(LoadEvent::OpenFailed("cannot open shared object file".to_string()));
    assert_eq!(r, Err(PluginError::Load("cannot open shared object file".to_string())));
    assert_eq!(p.identity(), None);
}

#[test]
fn missing_export_is_symbol_not_found() {
    let mut p = DynPlugin::from_library_path("libother.so").unwrap();
    let r = p.record(LoadEvent::SymbolMissing("undefined symbol".to_string()));
    assert_eq!(r, Err(PluginError::SymbolNotFound("undefined symbol".to_string())));
    assert_eq!(p.identity(), None);
    assert_eq!(p.cached(), Some(Err(PluginError::SymbolNotFound("undefined symbol".to_string()))));
}

#[test]
fn text_file_is_rejected_before_loading() {
    let r = check_loadable("plugin.txt", "so");
    assert_eq!(r, Err(PluginError::UnsupportedExtension));
    assert_ne!(r, Err(PluginError::Load(String::new())));
}

#[test]
fn shared_library_extension_is_accepted() {
    assert_eq!(check_loadable("/plugins/libanswer.so", "so"), Ok(()));
    assert_eq!(check_loadable("answer.dll", "dll"), Ok(()));
    assert_eq!(check_loadable("answer.dll", "so"), Err(PluginError::UnsupportedExtension));
    assert_eq!(check_loadable("libanswer", "so"), Err(PluginError::UnsupportedExtension));
    assert_eq!(check_loadable(".so", "so"), Err(PluginError::UnsupportedExtension));
}

#[test]
fn glue_symbol_name() {
    assert_eq!(GLUE_SYMBOL, "__hot_reload_plugin_build_glue");
}
