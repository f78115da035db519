//! What a module library remembers of what the host told it, and the calls
//! by which the host tells it.
//!
//! The registry is a value that its user constructs and owns. Each call
//! takes it by reference for the time of one look-up or one change, and none
//! runs a callback: where one is due, the call hands it back, to be run once
//! the registry is let go of.

use vstd::prelude::*;
use std::collections::HashMap;
use crate::ffi::types::buffer::free_buf;
use crate::ffi::types::collections::{StringMap, free_array};
use crate::ffi::types::module::{
    LibCommonInitArgs, LibListenerInitArgs, LibPipelineInitArgs, ModuleHandle,
    ModuleListenerConfigureArgs, ModulePipelineConfigureArgs, Record,
};
use crate::ffi::types::std_types::CharString;
use crate::ffi::utils::strings::{cchar_const_deallocate, cchar_to_string, lossy_text};

verus! {

/// The parameters of one handle: values by name.
pub type Params = Map<Seq<char>, Seq<char>>;

/// What a registry holds.
pub struct RegistryView<T, D> {
    /// What every library is given, as the last initialisation gave it.
    pub common_lib: Option<LibCommonInitArgs<T>>,
    /// What the last initialisation as a pipeline library gave.
    pub pipeline_lib: Option<LibPipelineInitArgs<T, D>>,
    /// What the last initialisation as a listener library gave.
    pub listener_lib: Option<LibListenerInitArgs<T>>,
    /// The configurations of the pipeline modules, by handle.
    pub pipeline_modules: Map<ModuleHandle, ModulePipelineConfigureArgs>,
    /// The configurations of the listener modules, by handle.
    pub listener_modules: Map<ModuleHandle, ModuleListenerConfigureArgs>,
    /// The parameters, by handle.
    pub params: Map<ModuleHandle, Params>,
}

/// What a shutdown asks of its caller.
#[derive(Debug)]
pub enum ShutdownAction<T> {
    /// Call the termination callback with the handle.
    Terminate(T, ModuleHandle),
    /// The handle is configured, but the library was never initialised, so
    /// there is no callback to call: an error to report.
    MissingLibConfiguration,
    /// Nothing is configured under the handle: to report, and no failure.
    UnknownHandle(ModuleHandle),
}

impl<T, D> RegistryView<T, D> {
    /// The registry in which nothing was entered yet.
    pub open spec fn empty() -> Self {
        RegistryView {
            common_lib: None,
            pipeline_lib: None,
            listener_lib: None,
            pipeline_modules: Map::empty(),
            listener_modules: Map::empty(),
            params: Map::empty(),
        }
    }

    /// What holds of every registry: each module configuration stands under
    /// its own handle, and the common arguments are there exactly when a
    /// library was initialised.
    pub open spec fn well_formed(self) -> bool {
        &&& forall|h: ModuleHandle| #[trigger]
            self.pipeline_modules.contains_key(h) ==> self.pipeline_modules[h].module_handle == h
        &&& forall|h: ModuleHandle| #[trigger]
            self.listener_modules.contains_key(h) ==> self.listener_modules[h].module_handle == h
        &&& self.common_lib is Some <==> self.pipeline_lib is Some || self.listener_lib is Some
    }

    /// A module is configured under `h`.
    pub open spec fn is_configured(self, h: ModuleHandle) -> bool {
        self.pipeline_modules.contains_key(h) || self.listener_modules.contains_key(h)
    }

    /// The registry after the library was initialised as a listener library.
    pub open spec fn with_listener_lib(self, a: LibListenerInitArgs<T>) -> Self {
        RegistryView { common_lib: Some(a.common), listener_lib: Some(a), ..self }
    }

    /// The registry after the library was initialised as a pipeline library.
    pub open spec fn with_pipeline_lib(self, a: LibPipelineInitArgs<T, D>) -> Self {
        RegistryView { common_lib: Some(a.common), pipeline_lib: Some(a), ..self }
    }

    /// The registry after a pipeline module was configured: the
    /// configuration stands under its handle, in place of an earlier one.
    pub open spec fn with_pipeline_module(self, a: ModulePipelineConfigureArgs) -> Self {
        RegistryView { pipeline_modules: self.pipeline_modules.insert(a.module_handle, a), ..self }
    }

    /// The registry after a listener module was configured.
    pub open spec fn with_listener_module(self, a: ModuleListenerConfigureArgs) -> Self {
        RegistryView { listener_modules: self.listener_modules.insert(a.module_handle, a), ..self }
    }

    /// The configuration of the pipeline module under `h`.
    pub open spec fn pipeline_module(self, h: ModuleHandle) -> Option<ModulePipelineConfigureArgs> {
        if self.pipeline_modules.contains_key(h) {
            Some(self.pipeline_modules[h])
        } else {
            None
        }
    }

    /// The configuration of the listener module under `h`.
    pub open spec fn listener_module(self, h: ModuleHandle) -> Option<ModuleListenerConfigureArgs> {
        if self.listener_modules.contains_key(h) {
            Some(self.listener_modules[h])
        } else {
            None
        }
    }

    /// The parameters of `h`; none where no parameter was ever set for it.
    pub open spec fn params_of(self, h: ModuleHandle) -> Option<Params> {
        if self.params.contains_key(h) {
            Some(self.params[h])
        } else {
            None
        }
    }

    /// The value of the parameter `name` of `h`.
    pub open spec fn param(self, h: ModuleHandle, name: Seq<char>) -> Option<Seq<char>> {
        if self.params.contains_key(h) && self.params[h].contains_key(name) {
            Some(self.params[h][name])
        } else {
            None
        }
    }

    /// The registry after a parameter of `h` was set: the handle's
    /// parameters, which are made on first use, have `value` under `name`.
    pub open spec fn with_param(self, h: ModuleHandle, name: Seq<char>, value: Seq<char>) -> Self {
        let before = if self.params.contains_key(h) {
            self.params[h]
        } else {
            Map::empty()
        };
        RegistryView { params: self.params.insert(h, before.insert(name, value)), ..self }
    }

    /// The registry without what stands under `h`: its module configurations
    /// and its parameters.
    pub open spec fn without(self, h: ModuleHandle) -> Self {
        RegistryView {
            pipeline_modules: self.pipeline_modules.remove(h),
            listener_modules: self.listener_modules.remove(h),
            params: self.params.remove(h),
            ..self
        }
    }

    /// What a shutdown of `h` asks for.
    pub open spec fn shutdown_action(self, h: ModuleHandle) -> ShutdownAction<T> {
        if !self.is_configured(h) {
            ShutdownAction::UnknownHandle(h)
        } else {
            match self.common_lib {
                Some(common) => ShutdownAction::Terminate(common.on_step_terminate_cb, h),
                None => ShutdownAction::MissingLibConfiguration,
            }
        }
    }

    /// The registry after a shutdown of `h`: what stood under a configured
    /// handle is gone, and a shutdown of an unknown handle changes nothing.
    pub open spec fn after_shutdown(self, h: ModuleHandle) -> Self {
        if self.is_configured(h) {
            self.without(h)
        } else {
            self
        }
    }
}

/// Whatever is done to a registry, it stays well formed.
pub proof fn lemma_registry_stays_well_formed<T, D>(
    reg: RegistryView<T, D>,
    listener_lib: LibListenerInitArgs<T>,
    pipeline_lib: LibPipelineInitArgs<T, D>,
    pipeline: ModulePipelineConfigureArgs,
    listener: ModuleListenerConfigureArgs,
    h: ModuleHandle,
    name: Seq<char>,
    value: Seq<char>,
)
    requires
        reg.well_formed(),
    ensures
        RegistryView::<T, D>::empty().well_formed(),
        reg.with_listener_lib(listener_lib).well_formed(),
        reg.with_pipeline_lib(pipeline_lib).well_formed(),
        reg.with_pipeline_module(pipeline).well_formed(),
        reg.with_listener_module(listener).well_formed(),
        reg.with_param(h, name, value).well_formed(),
        reg.without(h).well_formed(),
        reg.after_shutdown(h).well_formed(),
{
}

/// The last one counts: a module configuration that is entered under a
/// handle replaces the one that stood there, and is what is found under the
/// handle, whole.
pub proof fn lemma_last_configuration_counts<T, D>(
    reg: RegistryView<T, D>,
    first: ModulePipelineConfigureArgs,
    second: ModulePipelineConfigureArgs,
)
    requires
        first.module_handle == second.module_handle,
    ensures
        reg.with_pipeline_module(first).with_pipeline_module(second) == reg.with_pipeline_module(
            second,
        ),
        reg.with_pipeline_module(second).pipeline_module(second.module_handle) == Some(second),
{
    let h = second.module_handle;
    assert(reg.pipeline_modules.insert(h, first).insert(h, second) =~= reg.pipeline_modules.insert(
        h,
        second,
    ));
}

/// The same of listener modules.
pub proof fn lemma_last_listener_configuration_counts<T, D>(
    reg: RegistryView<T, D>,
    first: ModuleListenerConfigureArgs,
    second: ModuleListenerConfigureArgs,
)
    requires
        first.module_handle == second.module_handle,
    ensures
        reg.with_listener_module(first).with_listener_module(second) == reg.with_listener_module(
            second,
        ),
        reg.with_listener_module(second).listener_module(second.module_handle) == Some(second),
{
    let h = second.module_handle;
    assert(reg.listener_modules.insert(h, first).insert(h, second) =~= reg.listener_modules.insert(
        h,
        second,
    ));
}

/// A parameter has the value that was set last, and setting it leaves every
/// other parameter, of this handle and of others, as it was.
pub proof fn lemma_param_set<T, D>(
    reg: RegistryView<T, D>,
    h: ModuleHandle,
    name: Seq<char>,
    value: Seq<char>,
    other_h: ModuleHandle,
    other_name: Seq<char>,
)
    ensures
        reg.with_param(h, name, value).param(h, name) == Some(value),
        (other_h != h || other_name != name) ==> reg.with_param(h, name, value).param(
            other_h,
            other_name,
        ) == reg.param(other_h, other_name),
{
}

/// A parameter that is set twice has the second value.
pub proof fn lemma_param_set_twice<T, D>(
    reg: RegistryView<T, D>,
    h: ModuleHandle,
    name: Seq<char>,
    first: Seq<char>,
    second: Seq<char>,
)
    ensures
        reg.with_param(h, name, first).with_param(h, name, second).param(h, name) == Some(second),
        reg.with_param(h, name, first).with_param(h, name, second) == reg.with_param(
            h,
            name,
            second,
        ),
{
    let once = reg.with_param(h, name, first);
    let before = if reg.params.contains_key(h) {
        reg.params[h]
    } else {
        Map::empty()
    };
    assert(before.insert(name, first).insert(name, second) =~= before.insert(name, second));
    assert(once.params.insert(h, once.params[h].insert(name, second)) =~= reg.params.insert(
        h,
        before.insert(name, second),
    ));
}

/// Parameters do not hang on the configuration: they can be set for a
/// handle under which nothing is configured, and configuring a module, under
/// that handle or another, leaves all of them as they are.
pub proof fn lemma_configuring_keeps_params<T, D>(
    reg: RegistryView<T, D>,
    h: ModuleHandle,
    name: Seq<char>,
    value: Seq<char>,
    pipeline: ModulePipelineConfigureArgs,
    listener: ModuleListenerConfigureArgs,
)
    ensures
        reg.with_param(h, name, value).with_pipeline_module(pipeline).params == reg.with_param(
            h,
            name,
            value,
        ).params,
        reg.with_param(h, name, value).with_listener_module(listener).params == reg.with_param(
            h,
            name,
            value,
        ).params,
        reg.with_param(h, name, value).with_pipeline_module(pipeline).param(h, name) == Some(value),
        reg.with_param(h, name, value).with_listener_module(listener).param(h, name) == Some(value),
{
}

/// A shutdown asks for the termination callback at most once: after the
/// first shutdown of a handle the handle is unknown, so a second one asks
/// for nothing and changes nothing.
pub proof fn lemma_shutdown_once<T, D>(reg: RegistryView<T, D>, h: ModuleHandle)
    ensures
        !reg.after_shutdown(h).is_configured(h),
        reg.after_shutdown(h).shutdown_action(h) == ShutdownAction::<T>::UnknownHandle(h),
        reg.after_shutdown(h).after_shutdown(h) == reg.after_shutdown(h),
{
}

/// A shutdown asks for the callback exactly where a module is configured
/// under the handle and the library was initialised, and then with the
/// callback that the last initialisation gave and with the handle itself.
pub proof fn lemma_shutdown_action<T, D>(reg: RegistryView<T, D>, h: ModuleHandle)
    ensures
        reg.shutdown_action(h) is Terminate <==> reg.is_configured(h) && reg.common_lib is Some,
        reg.shutdown_action(h) matches ShutdownAction::Terminate(callback, handle) ==> handle == h
            && callback == reg.common_lib->Some_0.on_step_terminate_cb,
        !reg.is_configured(h) ==> reg.after_shutdown(h) == reg,
{
}

/// How the library was initialised: the three sets of arguments, which
/// change together.
struct LibConfiguration<T, D> {
    common: Option<LibCommonInitArgs<T>>,
    pipeline: Option<LibPipelineInitArgs<T, D>>,
    listener: Option<LibListenerInitArgs<T>>,
}

/// The registry of one module library: how the library was initialised, how
/// its modules were configured, and the parameters that were set for them,
/// the last two by handle.
pub struct HandleRegistry<T, D> {
    lib: LibConfiguration<T, D>,
    pipeline_modules: HashMap<ModuleHandle, ModulePipelineConfigureArgs>,
    listener_modules: HashMap<ModuleHandle, ModuleListenerConfigureArgs>,
    params: HashMap<ModuleHandle, StringMap>,
}

impl<T, D> View for HandleRegistry<T, D> {
    type V = RegistryView<T, D>;

    closed spec fn view(&self) -> RegistryView<T, D> {
        RegistryView {
            common_lib: self.lib.common,
            pipeline_lib: self.lib.pipeline,
            listener_lib: self.lib.listener,
            pipeline_modules: self.pipeline_modules@,
            listener_modules: self.listener_modules@,
            params: self.params@.map_values(|p: StringMap| p@),
        }
    }
}

impl<T, D> HandleRegistry<T, D> {
    #[verifier::type_invariant]
    spec fn inv(self) -> bool {
        self@.well_formed()
    }

    /// The registry in which nothing was entered yet.
    pub fn new() -> (reg: Self)
        ensures
            reg@ == RegistryView::<T, D>::empty(),
            reg@.well_formed(),
    {
        let reg = HandleRegistry {
            lib: LibConfiguration { common: None, pipeline: None, listener: None },
            pipeline_modules: HashMap::new(),
            listener_modules: HashMap::new(),
            params: HashMap::new(),
        };
        assert(reg@.params =~= Map::empty());
        reg
    }
}

/// Takes a record from its owner and releases it, content and metadata.
pub fn do_free_record(r: Record) {
    free_buf(r.content);
    free_array(r.metadata);
}

/// Remembers how the library was initialised as a listener library. The
/// common arguments are remembered apart, for the calls that serve every
/// kind of library.
pub fn set_listener_lib_configuration<T: Copy, D: Copy>(
    reg: &mut HandleRegistry<T, D>,
    a: LibListenerInitArgs<T>,
)
    ensures
        final(reg)@ == old(reg)@.with_listener_lib(a),
        final(reg)@.well_formed(),
{
    proof {
        use_type_invariant(&*reg);
    }
    reg.lib = LibConfiguration {
        common: Some(a.common.clone()),
        pipeline: reg.lib.pipeline,
        listener: Some(a),
    };
}

/// How the library was last initialised as a listener library.
pub fn get_listener_lib_configuration<T: Copy, D: Copy>(reg: &HandleRegistry<T, D>) -> (a: Option<
    LibListenerInitArgs<T>,
>)
    ensures
        a == reg@.listener_lib,
        a is Some ==> reg@.common_lib is Some,
{
    proof {
        use_type_invariant(reg);
    }
    reg.lib.listener.clone()
}

/// Remembers how the library was initialised as a pipeline library. The
/// common arguments are remembered apart, for the calls that serve every
/// kind of library.
pub fn set_pipeline_lib_configuration<T: Copy, D: Copy>(
    reg: &mut HandleRegistry<T, D>,
    a: LibPipelineInitArgs<T, D>,
)
    ensures
        final(reg)@ == old(reg)@.with_pipeline_lib(a),
        final(reg)@.well_formed(),
{
    proof {
        use_type_invariant(&*reg);
    }
    reg.lib = LibConfiguration {
        common: Some(a.common.clone()),
        pipeline: Some(a),
        listener: reg.lib.listener,
    };
}

/// How the library was last initialised as a pipeline library.
pub fn get_pipeline_lib_configuration<T: Copy, D: Copy>(reg: &HandleRegistry<T, D>) -> (a: Option<
    LibPipelineInitArgs<T, D>,
>)
    ensures
        a == reg@.pipeline_lib,
        a is Some ==> reg@.common_lib is Some,
{
    proof {
        use_type_invariant(reg);
    }
    reg.lib.pipeline.clone()
}

/// The arguments that every kind of library is given, as the last
/// initialisation gave them; none before the first.
pub fn get_common_lib_configuration<T: Copy, D: Copy>(reg: &HandleRegistry<T, D>) -> (a: Option<
    LibCommonInitArgs<T>,
>)
    ensures
        a == reg@.common_lib,
        a is Some <==> reg@.pipeline_lib is Some || reg@.listener_lib is Some,
{
    proof {
        use_type_invariant(reg);
    }
    reg.lib.common.clone()
}

/// Enters the configuration of a pipeline module under its handle. An
/// earlier configuration under that handle is replaced: the last one
/// counts.
pub fn set_pipeline_module_configuration<T: Copy, D: Copy>(
    reg: &mut HandleRegistry<T, D>,
    a: ModulePipelineConfigureArgs,
)
    ensures
        final(reg)@ == old(reg)@.with_pipeline_module(a),
        final(reg)@.well_formed(),
{
    proof {
        use_type_invariant(&*reg);
    }
    let mut modules: HashMap<ModuleHandle, ModulePipelineConfigureArgs> = HashMap::new();
    core::mem::swap(&mut reg.pipeline_modules, &mut modules);
    modules.insert(a.module_handle, a);
    reg.pipeline_modules = modules;
}

/// The configuration of the pipeline module under `h`, whole and as it was
/// last entered; none where none was entered.
pub fn get_pipeline_module_configuration<T: Copy, D: Copy>(
    reg: &HandleRegistry<T, D>,
    h: ModuleHandle,
) -> (a: Option<ModulePipelineConfigureArgs>)
    ensures
        a == reg@.pipeline_module(h),
        a matches Some(found) ==> found.module_handle == h,
{
    proof {
        use_type_invariant(reg);
    }
    match reg.pipeline_modules.get(&h) {
        Some(c) => Some(c.clone()),
        None => None,
    }
}

/// Enters the configuration of a listener module under its handle. An
/// earlier configuration under that handle is replaced: the last one
/// counts.
pub fn set_listener_module_configuration<T: Copy, D: Copy>(
    reg: &mut HandleRegistry<T, D>,
    a: ModuleListenerConfigureArgs,
)
    ensures
        final(reg)@ == old(reg)@.with_listener_module(a),
        final(reg)@.well_formed(),
{
    proof {
        use_type_invariant(&*reg);
    }
    let mut modules: HashMap<ModuleHandle, ModuleListenerConfigureArgs> = HashMap::new();
    core::mem::swap(&mut reg.listener_modules, &mut modules);
    modules.insert(a.module_handle, a);
    reg.listener_modules = modules;
}

/// The configuration of the listener module under `h`, whole and as it was
/// last entered; none where none was entered.
pub fn get_listener_module_configuration<T: Copy, D: Copy>(
    reg: &HandleRegistry<T, D>,
    h: ModuleHandle,
) -> (a: Option<ModuleListenerConfigureArgs>)
    ensures
        a == reg@.listener_module(h),
        a matches Some(found) ==> found.module_handle == h,
{
    proof {
        use_type_invariant(reg);
    }
    match reg.listener_modules.get(&h) {
        Some(c) => Some(c.clone()),
        None => None,
    }
}

/// The parameters of `h`, in a map of their own; none where no parameter
/// was ever set for `h`.
pub fn get_params<T: Copy, D: Copy>(reg: &HandleRegistry<T, D>, h: ModuleHandle) -> (params: Option<
    StringMap,
>)
    ensures
        match params {
            Some(p) => reg@.params_of(h) == Some(p@),
            None => reg@.params_of(h) is None,
        },
{
    match reg.params.get(&h) {
        Some(params) => Some(params.clone()),
        None => None,
    }
}

/// The value of the parameter `k` of `h`; none where it was never set.
pub fn get_param<T: Copy, D: Copy>(reg: &HandleRegistry<T, D>, h: ModuleHandle, k: &str) -> (value:
    Option<String>)
    ensures
        match value {
            Some(v) => reg@.param(h, k@) == Some(v@),
            None => reg@.param(h, k@) is None,
        },
{
    match reg.params.get(&h) {
        Some(params) => match params.get(k) {
            Some(s) => Some(s.clone()),
            None => None,
        },
        None => None,
    }
}

/// Sets the parameter `name` of `h` to `value`. The handle need not be
/// configured: its parameters are made on first use, and configuring it
/// later leaves them as they are. An earlier value of the parameter is
/// replaced.
pub fn set_param<T: Copy, D: Copy>(
    reg: &mut HandleRegistry<T, D>,
    h: ModuleHandle,
    name: String,
    value: String,
)
    ensures
        final(reg)@ == old(reg)@.with_param(h, name@, value@),
        final(reg)@.well_formed(),
{
    proof {
        use_type_invariant(&*reg);
    }
    let ghost before = reg@;
    let mut all: HashMap<ModuleHandle, StringMap> = HashMap::new();
    core::mem::swap(&mut reg.params, &mut all);
    let mut params = match all.remove(&h) {
        Some(params) => params,
        None => StringMap::new(),
    };
    params.insert(name, value);
    all.insert(h, params);
    assert(all@.map_values(|p: StringMap| p@) =~= before.with_param(h, name@, value@).params);
    reg.params = all;
}

/// Takes away what stands under `h`: its module configurations and its
/// parameters. A handle under which nothing stands is no failure.
pub fn remove<T: Copy, D: Copy>(reg: &mut HandleRegistry<T, D>, h: ModuleHandle)
    ensures
        final(reg)@ == old(reg)@.without(h),
        final(reg)@.well_formed(),
{
    proof {
        use_type_invariant(&*reg);
    }
    let ghost before = reg@;
    let mut pipeline: HashMap<ModuleHandle, ModulePipelineConfigureArgs> = HashMap::new();
    core::mem::swap(&mut reg.pipeline_modules, &mut pipeline);
    pipeline.remove(&h);
    reg.pipeline_modules = pipeline;
    let mut listener: HashMap<ModuleHandle, ModuleListenerConfigureArgs> = HashMap::new();
    core::mem::swap(&mut reg.listener_modules, &mut listener);
    listener.remove(&h);
    reg.listener_modules = listener;
    let mut all: HashMap<ModuleHandle, StringMap> = HashMap::new();
    core::mem::swap(&mut reg.params, &mut all);
    all.remove(&h);
    assert(all@.map_values(|p: StringMap| p@) =~= before.without(h).params);
    reg.params = all;
}

/// The host's call that sets a parameter of a step: name and value arrive
/// as boundary texts and are read as host texts. It cannot fail.
pub fn torustiq_module_common_set_param<T: Copy, D: Copy>(
    reg: &mut HandleRegistry<T, D>,
    h: ModuleHandle,
    k: &CharString,
    v: &CharString,
)
    ensures
        final(reg)@ == old(reg)@.with_param(h, lossy_text(k@), lossy_text(v@)),
        final(reg)@.well_formed(),
{
    set_param(reg, h, cchar_to_string(k), cchar_to_string(v));
}

/// The host's call that shuts a step down. The library itself has nothing
/// to stop: it passes the signal back to the host through the termination
/// callback, which the caller is to run once it has let go of the registry.
/// What stood under the handle is taken away, so a second shutdown of the
/// same handle finds it unknown and asks for no callback.
pub fn torustiq_module_common_shutdown<T: Copy, D: Copy>(
    reg: &mut HandleRegistry<T, D>,
    h: ModuleHandle,
) -> (action: ShutdownAction<T>)
    ensures
        action == old(reg)@.shutdown_action(h),
        final(reg)@ == old(reg)@.after_shutdown(h),
        final(reg)@.well_formed(),
{
    proof {
        use_type_invariant(&*reg);
    }
    if !reg.pipeline_modules.contains_key(&h) && !reg.listener_modules.contains_key(&h) {
        return ShutdownAction::UnknownHandle(h);
    }
    remove(reg, h);
    match reg.lib.common {
        Some(common) => ShutdownAction::Terminate(common.on_step_terminate_cb, h),
        None => ShutdownAction::MissingLibConfiguration,
    }
}

/// The host's call that releases a record which the library handed out.
pub fn torustiq_module_pipeline_free_record(r: Record) {
    do_free_record(r);
}

/// The host's call that releases a text which the library handed out.
pub fn torustiq_module_common_free_char(c: CharString) {
    cchar_const_deallocate(c);
}

} // verus!
