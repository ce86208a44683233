//! The decisions of a plugin library loader.
//!
//! A [`DynPlugin`] stands for one plugin library on disk. It records where
//! its loading stands: not tried yet, under way with the glue record's
//! marker accepted, loaded with a known plugin identity, or failed for
//! good. The caller opens the library, looks up the glue
//! export and reads the glue record, and reports each thing it found as a
//! [`LoadEvent`]; the plugin decides what that means. The record's marker
//! is reported first, and the rest of the record is read only once the
//! marker was accepted.
use crate::identity::{same_type_identity, type_identity_of, DynId};
use std::any::TypeId;
use std::path::Path;
use vstd::prelude::*;

verus! {

/// What can go wrong while naming, selecting or loading a plugin library.
#[derive(Debug, Clone, PartialEq, Eq)]
pub enum PluginError {
    /// The path has no final component, or it is not plain text.
    InvalidName,
    /// The file does not carry the platform's shared-library extension.
    UnsupportedExtension,
    /// The operating system could not open or map the library.
    Load(String),
    /// The library does not export the glue lookup function.
    SymbolNotFound(String),
    /// The library was built against another version of the glue record.
    AbiMismatch,
    /// A library already loaded declared another plugin identity.
    IdentityInvariantViolation,
}

/// What the caller found, step by step, while loading a plugin library.
#[derive(Debug)]
pub enum LoadEvent {
    /// The library could not be opened; with the system's message.
    OpenFailed(String),
    /// The glue lookup function is missing; with the loader's message.
    SymbolMissing(String),
    /// The glue record's compatibility marker.
    MarkerRead(TypeId),
    /// The plugin identity that the glue record declares.
    IdentityRead(DynId),
}

/// Where the loading of one plugin library stands.
#[derive(Debug)]
pub enum LoadPhase {
    /// Nothing tried yet.
    Unloaded,
    /// The glue record's marker was accepted; its identity is awaited.
    MarkerChecked,
    /// Loaded; the plugin has this identity.
    Loaded(DynId),
    /// The one attempt failed, with this error.
    Failed(PluginError),
}

/// The phase after `event` in phase `phase`, for a host whose compatibility
/// marker is `host_marker`, and what is returned: the plugin identity once
/// known, nothing while loading goes on, or the error.
pub open spec fn load_step(phase: LoadPhase, host_marker: TypeId, event: LoadEvent) -> (
    LoadPhase,
    Result<Option<DynId>, PluginError>,
) {
    match phase {
        LoadPhase::Unloaded | LoadPhase::MarkerChecked => match event {
            LoadEvent::OpenFailed(msg) => (
                LoadPhase::Failed(PluginError::Load(msg)),
                Err(PluginError::Load(msg)),
            ),
            LoadEvent::SymbolMissing(msg) => (
                LoadPhase::Failed(PluginError::SymbolNotFound(msg)),
                Err(PluginError::SymbolNotFound(msg)),
            ),
            LoadEvent::MarkerRead(marker) => if marker != host_marker {
                (LoadPhase::Failed(PluginError::AbiMismatch), Err(PluginError::AbiMismatch))
            } else {
                (LoadPhase::MarkerChecked, Ok(None))
            },
            LoadEvent::IdentityRead(id) => if phase is MarkerChecked {
                (LoadPhase::Loaded(id), Ok(Some(id)))
            } else {
                (phase, Ok(None))
            },
        },
        LoadPhase::Loaded(id) => match event {
            LoadEvent::MarkerRead(marker) => if marker != host_marker {
                (phase, Err(PluginError::AbiMismatch))
            } else {
                (phase, Ok(Some(id)))
            },
            LoadEvent::IdentityRead(seen) => if seen != id {
                (phase, Err(PluginError::IdentityInvariantViolation))
            } else {
                (phase, Ok(Some(id)))
            },
            _ => (phase, Ok(Some(id))),
        },
        LoadPhase::Failed(e) => (phase, Err(e)),
    }
}

/// What a resolution in phase `phase` returns without loading anything:
/// nothing while no attempt was completed.
pub open spec fn cached_resolution(phase: LoadPhase) -> Option<Result<DynId, PluginError>> {
    match phase {
        LoadPhase::Unloaded | LoadPhase::MarkerChecked => None,
        LoadPhase::Loaded(id) => Some(Ok(id)),
        LoadPhase::Failed(e) => Some(Err(e)),
    }
}

/// The phase after each of `events` in turn, starting in `phase`.
pub open spec fn run_events(
    phase: LoadPhase,
    host_marker: TypeId,
    events: Seq<LoadEvent>,
) -> LoadPhase
    decreases events.len(),
{
    if events.len() == 0 {
        phase
    } else {
        run_events(load_step(phase, host_marker, events[0]).0, host_marker, events.drop_first())
    }
}

/// Once loaded, a plugin stays loaded with the same identity, whatever is
/// reported later.
pub proof fn lemma_loaded_is_kept(id: DynId, host_marker: TypeId, events: Seq<LoadEvent>)
    ensures
        run_events(LoadPhase::Loaded(id), host_marker, events) == LoadPhase::Loaded(id),
    decreases events.len(),
{
    if events.len() > 0 {
        lemma_loaded_is_kept(id, host_marker, events.drop_first());
    }
}

/// Once failed, a plugin stays failed with the same error, whatever is
/// reported later.
pub proof fn lemma_failed_is_kept(e: PluginError, host_marker: TypeId, events: Seq<LoadEvent>)
    ensures
        run_events(LoadPhase::Failed(e), host_marker, events) == LoadPhase::Failed(e),
    decreases events.len(),
{
    if events.len() > 0 {
        lemma_failed_is_kept(e, host_marker, events.drop_first());
    }
}

/// A library whose glue record carries the host's marker resolves on the
/// first attempt, to the identity it declares; every resolution after it
/// returns that identity from the cache and asks for no further load.
pub proof fn lemma_compatible_library_resolves(
    host_marker: TypeId,
    marker: TypeId,
    plugin_dyn_id: DynId,
    later: Seq<LoadEvent>,
)
    requires
        marker == host_marker,
    ensures
        load_step(LoadPhase::Unloaded, host_marker, LoadEvent::MarkerRead(marker)) == (
            LoadPhase::MarkerChecked,
            Ok::<Option<DynId>, PluginError>(None),
        ),
        load_step(LoadPhase::MarkerChecked, host_marker, LoadEvent::IdentityRead(plugin_dyn_id))
            == (LoadPhase::Loaded(plugin_dyn_id), Ok::<Option<DynId>, PluginError>(
            Some(plugin_dyn_id),
        )),
        cached_resolution(run_events(LoadPhase::Loaded(plugin_dyn_id), host_marker, later))
            == Some(Ok::<DynId, PluginError>(plugin_dyn_id)),
{
    lemma_loaded_is_kept(plugin_dyn_id, host_marker, later);
}

/// A library whose glue record carries another marker is refused as an ABI
/// mismatch, and no identity is ever cached for it afterwards.
pub proof fn lemma_abi_mismatch_never_caches(
    host_marker: TypeId,
    marker: TypeId,
    later: Seq<LoadEvent>,
)
    requires
        marker != host_marker,
    ensures
        load_step(LoadPhase::Unloaded, host_marker, LoadEvent::MarkerRead(marker)) == (
            LoadPhase::Failed(PluginError::AbiMismatch),
            Err::<Option<DynId>, PluginError>(PluginError::AbiMismatch),
        ),
        !(run_events(LoadPhase::Failed(PluginError::AbiMismatch), host_marker, later) is Loaded),
        run_events(LoadPhase::Failed(PluginError::AbiMismatch), host_marker, later)
            == LoadPhase::Failed(PluginError::AbiMismatch),
{
    lemma_failed_is_kept(PluginError::AbiMismatch, host_marker, later);
}

/// A file that cannot be opened as a library fails with the system's
/// message, and the plugin has no identity afterwards.
pub proof fn lemma_unloadable_file_fails(host_marker: TypeId, msg: String, later: Seq<LoadEvent>)
    ensures
        load_step(LoadPhase::Unloaded, host_marker, LoadEvent::OpenFailed(msg)) == (
            LoadPhase::Failed(PluginError::Load(msg)),
            Err::<Option<DynId>, PluginError>(PluginError::Load(msg)),
        ),
        !(run_events(LoadPhase::Failed(PluginError::Load(msg)), host_marker, later) is Loaded),
{
    lemma_failed_is_kept(PluginError::Load(msg), host_marker, later);
}

/// A library without the glue export fails as not being a plugin.
pub proof fn lemma_missing_export_fails(host_marker: TypeId, msg: String)
    ensures
        load_step(LoadPhase::Unloaded, host_marker, LoadEvent::SymbolMissing(msg)) == (
            LoadPhase::Failed(PluginError::SymbolNotFound(msg)),
            Err::<Option<DynId>, PluginError>(PluginError::SymbolNotFound(msg)),
        ),
{
}

/// The name under which a plugin library exports its glue lookup function.
pub const GLUE_SYMBOL: &'static str = "__hot_reload_plugin_build_glue";

/// The final component of a path, where it has one.
pub uninterp spec fn file_name_of(path: Seq<char>) -> Option<Seq<char>>;

/// The position of the last `.` in `name`, or -1 where it has none.
pub open spec fn last_dot(name: Seq<char>) -> int
    decreases name.len(),
{
    if name.len() == 0 {
        -1
    } else if name.last() == '.' {
        name.len() - 1
    } else {
        last_dot(name.drop_last())
    }
}

/// The extension of a file name: what follows its last `.`, unless it has
/// none or its only `.` comes first.
pub open spec fn extension_in(name: Seq<char>) -> Option<Seq<char>> {
    if last_dot(name) <= 0 {
        None
    } else {
        Some(name.subrange(last_dot(name) + 1, name.len() as int))
    }
}

/// The extension of a path's final component, where it has one.
pub open spec fn extension_of(path: Seq<char>) -> Option<Seq<char>> {
    match file_name_of(path) {
        Some(name) => extension_in(name),
        None => None,
    }
}

/// Relies on `Path::file_name`: the final component of `path`, unless that
/// component is the root, a prefix or `..`, or the path is empty.
#[verifier::external_body]
fn final_component(path: &str) -> (r: Option<String>)
    ensures
        match r {
            Some(name) => file_name_of(path@) == Some(name@),
            None => file_name_of(path@) is None,
        },
{
    Path::new(path).file_name().and_then(|n| n.to_str()).map(|n| n.to_string())
}

/// Relies on `Path::extension`: what follows the last `.` of the file name,
/// unless there is no file name, or it has no `.`, or its only `.` comes
/// first.
#[verifier::external_body]
fn file_extension(path: &str) -> (r: Option<String>)
    ensures
        match r {
            Some(ext) => extension_of(path@) == Some(ext@),
            None => extension_of(path@) is None,
        },
{
    Path::new(path).extension().and_then(|e| e.to_str()).map(|e| e.to_string())
}

/// Accepts `path` as a plugin library only where its extension is
/// `lib_extension`, the platform's extension for shared libraries.
pub fn check_loadable(path: &str, lib_extension: &str) -> (r: Result<(), PluginError>)
    ensures
        r is Ok <==> extension_of(path@) == Some(lib_extension@),
        r is Err ==> r == Err::<(), PluginError>(PluginError::UnsupportedExtension),
{
    match file_extension(path) {
        Some(ext) => {
            let expected = lib_extension.to_owned();
            if ext == expected {
                Ok(())
            } else {
                Err(PluginError::UnsupportedExtension)
            }
        },
        None => Err(PluginError::UnsupportedExtension),
    }
}

impl PluginError {
    /// A copy of this error.
    pub fn duplicate(&self) -> (r: PluginError)
        ensures
            r == *self,
    {
        match self {
            PluginError::InvalidName => PluginError::InvalidName,
            PluginError::UnsupportedExtension => PluginError::UnsupportedExtension,
            PluginError::Load(msg) => PluginError::Load(msg.clone()),
            PluginError::SymbolNotFound(msg) => PluginError::SymbolNotFound(msg.clone()),
            PluginError::AbiMismatch => PluginError::AbiMismatch,
            PluginError::IdentityInvariantViolation => PluginError::IdentityInvariantViolation,
        }
    }
}

/// One plugin library on disk, and where its loading stands.
#[derive(Debug)]
pub struct DynPlugin {
    name: String,
    library_path: String,
    host_marker: TypeId,
    phase: LoadPhase,
}

impl DynPlugin {
    /// The display name: the final component of the library's path.
    pub closed spec fn spec_name(&self) -> Seq<char> {
        self.name@
    }

    /// The path of the library.
    pub closed spec fn spec_library_path(&self) -> Seq<char> {
        self.library_path@
    }

    /// The marker that a compatible glue record carries.
    pub closed spec fn spec_host_marker(&self) -> TypeId {
        self.host_marker
    }

    /// Where loading stands.
    pub closed spec fn spec_phase(&self) -> LoadPhase {
        self.phase
    }

    /// A plugin for the library at `path`, not loaded yet. Touches no file.
    pub fn from_library_path(path: &str) -> (r: Result<DynPlugin, PluginError>)
        ensures
            match file_name_of(path@) {
                Some(name) => r is Ok && r->Ok_0.spec_name() == name
                    && r->Ok_0.spec_library_path() == path@
                    && r->Ok_0.spec_phase() is Unloaded,
                None => r == Err::<DynPlugin, PluginError>(PluginError::InvalidName),
            },
    {
        match final_component(path) {
            Some(name) => Ok(
                DynPlugin {
                    name,
                    library_path: path.to_owned(),
                    host_marker: type_identity_of::<()>(),
                    phase: LoadPhase::Unloaded,
                },
            ),
            None => Err(PluginError::InvalidName),
        }
    }

    /// The display name, for diagnostics.
    pub fn name(&self) -> (r: &str)
        ensures
            r@ == self.spec_name(),
    {
        self.name.as_str()
    }

    /// The path of the library.
    pub fn library_path(&self) -> (r: &str)
        ensures
            r@ == self.spec_library_path(),
    {
        self.library_path.as_str()
    }

    /// The resolution known without loading anything: the plugin identity
    /// once loaded, the error once failed, nothing before any attempt.
    pub fn cached(&self) -> (r: Option<Result<DynId, PluginError>>)
        ensures
            r == cached_resolution(self.spec_phase()),
    {
        match &self.phase {
            LoadPhase::Unloaded | LoadPhase::MarkerChecked => None,
            LoadPhase::Loaded(id) => Some(Ok(*id)),
            LoadPhase::Failed(e) => Some(Err(e.duplicate())),
        }
    }

    /// The plugin identity, once the library is loaded.
    pub fn identity(&self) -> (r: Option<DynId>)
        ensures
            r == (match self.spec_phase() {
                LoadPhase::Loaded(id) => Some(id),
                _ => None::<DynId>,
            }),
    {
        match &self.phase {
            LoadPhase::Loaded(id) => Some(*id),
            _ => None,
        }
    }

    /// Whether a glue record with this marker may be read further.
    pub fn accepts_marker(&self, marker: &TypeId) -> (r: bool)
        ensures
            r == (*marker == self.spec_host_marker()),
    {
        same_type_identity(marker, &self.host_marker)
    }

    /// Takes in one thing that loading the library found, and returns the
    /// plugin identity once it is known, or the error.
    ///
    /// The glue record is trusted only where its marker is the host's; the
    /// identity it declares is then kept; one reported before the marker
    /// was accepted is not taken. A library already loaded must declare the
    /// same identity again. A failed attempt is final.
    pub fn record(&mut self, event: LoadEvent) -> (r: Result<Option<DynId>, PluginError>)
        ensures
            (final(self).spec_phase(), r) == load_step(
                old(self).spec_phase(),
                old(self).spec_host_marker(),
                event,
            ),
            final(self).spec_name() == old(self).spec_name(),
            final(self).spec_library_path() == old(self).spec_library_path(),
            final(self).spec_host_marker() == old(self).spec_host_marker(),
    {
        match &self.phase {
            LoadPhase::Unloaded | LoadPhase::MarkerChecked => {
                let checked = match self.phase {
                    LoadPhase::MarkerChecked => true,
                    _ => false,
                };
                match event {
                    LoadEvent::OpenFailed(msg) => {
                        self.phase = LoadPhase::Failed(PluginError::Load(msg.clone()));
                        Err(PluginError::Load(msg))
                    },
                    LoadEvent::SymbolMissing(msg) => {
                        self.phase = LoadPhase::Failed(PluginError::SymbolNotFound(msg.clone()));
                        Err(PluginError::SymbolNotFound(msg))
                    },
                    LoadEvent::MarkerRead(marker) => {
                        if !same_type_identity(&marker, &self.host_marker) {
                            self.phase = LoadPhase::Failed(PluginError::AbiMismatch);
                            Err(PluginError::AbiMismatch)
                        } else {
                            self.phase = LoadPhase::MarkerChecked;
                            Ok(None)
                        }
                    },
                    LoadEvent::IdentityRead(id) => {
                        if checked {
                            self.phase = LoadPhase::Loaded(id);
                            Ok(Some(id))
                        } else {
                            Ok(None)
                        }
                    },
                }
            },
            LoadPhase::Loaded(id) => {
                let id = *id;
                match event {
                    LoadEvent::MarkerRead(marker) => {
                        if !same_type_identity(&marker, &self.host_marker) {
                            Err(PluginError::AbiMismatch)
                        } else {
                            Ok(Some(id))
                        }
                    },
                    LoadEvent::IdentityRead(seen) => {
                        if seen != id {
                            Err(PluginError::IdentityInvariantViolation)
                        } else {
                            Ok(Some(id))
                        }
                    },
                    _ => Ok(Some(id)),
                }
            },
            LoadPhase::Failed(e) => Err(e.duplicate()),
        }
    }
}

} // verus!
