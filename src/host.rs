//! The host state that plugins act on, and the plugin capability.
use crate::identity::{type_identity_of, DynId};
use vstd::prelude::*;

verus! {

/// The host's state: the numbers registered so far, and the identities of
/// the plugins applied, each in the order of registration.
#[derive(Debug)]
pub struct App {
    plugins: Vec<DynId>,
    numbers: Vec<i32>,
}

impl App {
    /// The numbers registered so far.
    pub closed spec fn spec_numbers(&self) -> Seq<i32> {
        self.numbers@
    }

    /// The identities of the plugins applied so far.
    pub closed spec fn spec_plugins(&self) -> Seq<DynId> {
        self.plugins@
    }

    /// A host with nothing registered.
    pub fn new() -> (r: App)
        ensures
            r.spec_numbers() == Seq::<i32>::empty(),
            r.spec_plugins() == Seq::<DynId>::empty(),
    {
        App { plugins: Vec::new(), numbers: Vec::new() }
    }

    /// Appends `num` to the registered numbers.
    pub fn register_number(&mut self, num: i32) -> (r: &mut Self)
        ensures
            r.spec_numbers() == old(self).spec_numbers().push(num),
            r.spec_plugins() == old(self).spec_plugins(),
            *final(self) == *final(r),
    {
        self.numbers.push(num);
        self
    }

    /// Lets `plugin` act on the host, then records its identity.
    ///
    /// The plugin builds on the host as it is; its identity is asked for
    /// after that, and appended to the plugins.
    pub fn add_plugin<P: Plugin>(&mut self, plugin: P) -> (r: &mut Self)
        ensures
            exists|built: App, id: DynId|
                plugin.builds(*old(self), built)
                && call_ensures(P::dyn_id, (&plugin,), id)
                && r.spec_numbers() == built.spec_numbers()
                && r.spec_plugins() == built.spec_plugins().push(id),
            *final(self) == *final(r),
    {
        plugin.build(self);
        let dyn_id = plugin.dyn_id();
        let ghost built: App = *self;
        self.plugins.push(dyn_id);
        assert(self.spec_plugins() == built.spec_plugins().push(dyn_id));
        self
    }

    /// The numbers registered so far.
    pub fn numbers(&self) -> (r: &Vec<i32>)
        ensures
            r@ == self.spec_numbers(),
    {
        &self.numbers
    }

    /// The identities of the plugins applied so far.
    pub fn plugins(&self) -> (r: &Vec<DynId>)
        ensures
            r@ == self.spec_plugins(),
    {
        &self.plugins
    }
}

impl Default for App {
    fn default() -> (r: App)
        ensures
            r.spec_numbers() == Seq::<i32>::empty(),
            r.spec_plugins() == Seq::<DynId>::empty(),
    {
        App::new()
    }
}

/// Something that extends the host: it acts on the host state, and has an
/// identity by which the host tracks the plugins it applied.
pub trait Plugin: 'static {
    /// How the plugin's `build` takes the host from `before` to `after`.
    /// Unless a plugin states it, nothing is known of it.
    open spec fn builds(&self, before: App, after: App) -> bool {
        true
    }

    /// The plugin's identity; by default the native identity of its type.
    fn dyn_id(&self) -> (r: DynId)
        default_ensures
            r is Typed,
    {
        DynId::Typed(type_identity_of::<Self>())
    }

    /// Acts on the host state.
    fn build(&self, app: &mut App)
        ensures
            self.builds(*old(app), *final(app)),
    ;
}

/// A plugin that registers the number 42.
#[derive(Debug, Clone, Copy)]
pub struct AnswerPlugin;

/// The number that [`AnswerPlugin`] registers.
pub const ANSWER: i32 = 42;

impl Plugin for AnswerPlugin {
    /// Registers [`ANSWER`], and nothing else.
    open spec fn builds(&self, before: App, after: App) -> bool {
        after.spec_numbers() == before.spec_numbers().push(ANSWER)
            && after.spec_plugins() == before.spec_plugins()
    }

    fn build(&self, app: &mut App) {
        app.register_number(ANSWER);
    }
}

} // verus!
