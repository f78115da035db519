use torustiq_common::ffi::shared::{
    get_common_lib_configuration, get_listener_lib_configuration,
    get_listener_module_configuration, get_param, get_params, get_pipeline_lib_configuration,
    get_pipeline_module_configuration, remove, set_listener_lib_configuration,
    set_listener_module_configuration, set_param, set_pipeline_lib_configuration,
    set_pipeline_module_configuration, torustiq_module_common_free_char,
    torustiq_module_common_set_param, torustiq_module_common_shutdown, HandleRegistry,
    ShutdownAction,
};
use torustiq_common::ffi::types::module::{
    LibCommonInitArgs, LibListenerInitArgs, LibPipelineInitArgs, ModuleListenerConfigureArgs,
    ModulePipelineConfigureArgs, PipelineModuleKind,
};
use torustiq_common::ffi::types::std_types::CharString;
use torustiq_common::ffi::utils::strings::str_to_cchar;

/// Stands for the host's termination callback: says which step it was told of.
fn terminated(h: u32) -> u32 {
    h + 1000
}

/// Stands for another termination callback.
fn terminated_otherwise(h: u32) -> u32 {
    h + 2000
}

/// Stands for the host's callback for records; the second argument is a length.
fn received(h: u32, len: usize) -> usize {
    h as usize + len
}

type Registry = HandleRegistry<fn(u32) -> u32, fn(u32, usize) -> usize>;

fn pipeline_args() -> LibPipelineInitArgs<fn(u32) -> u32, fn(u32, usize) -> usize> {
    LibPipelineInitArgs {
        common: LibCommonInitArgs { on_step_terminate_cb: terminated },
        on_data_receive_cb: received,
    }
}

fn source(h: u32) -> ModulePipelineConfigureArgs {
    ModulePipelineConfigureArgs { kind: PipelineModuleKind::Source, module_handle: h }
}

fn s(text: &str) -> String {
    String::from(text)
}

#[test]
fn new_registry_knows_nothing() {
    let reg = Registry::new();
    assert!(get_common_lib_configuration(&reg).is_none());
    assert!(get_pipeline_lib_configuration(&reg).is_none());
    assert!(get_listener_lib_configuration(&reg).is_none());
    assert_eq!(get_pipeline_module_configuration(&reg, 0), None);
    assert_eq!(get_listener_module_configuration(&reg, 0), None);
    assert!(get_params(&reg, 0).is_none());
    assert_eq!(get_param(&reg, 0, "a"), None);
}

#[test]
fn pipeline_lib_configuration_sets_the_common_one() {
    let mut reg = Registry::new();
    set_pipeline_lib_configuration(&mut reg, pipeline_args());
    let pipeline = get_pipeline_lib_configuration(&reg).unwrap();
    assert_eq!((pipeline.common.on_step_terminate_cb)(1), 1001);
    assert_eq!((pipeline.on_data_receive_cb)(2, 5), 7);
    let common = get_common_lib_configuration(&reg).unwrap();
    assert_eq!((common.on_step_terminate_cb)(4), 1004);
    assert!(get_listener_lib_configuration(&reg).is_none());
}

#[test]
fn listener_lib_configuration_sets_the_common_one() {
    let mut reg = Registry::new();
    set_listener_lib_configuration(
        &mut reg,
        LibListenerInitArgs { common: LibCommonInitArgs { on_step_terminate_cb: terminated } },
    );
    let listener = get_listener_lib_configuration(&reg).unwrap();
    assert_eq!((listener.common.on_step_terminate_cb)(1), 1001);
    let common = get_common_lib_configuration(&reg).unwrap();
    assert_eq!((common.on_step_terminate_cb)(4), 1004);
    assert!(get_pipeline_lib_configuration(&reg).is_none());
}

#[test]
fn last_lib_configuration_gives_the_common_one() {
    let mut reg = Registry::new();
    set_pipeline_lib_configuration(&mut reg, pipeline_args());
    set_listener_lib_configuration(
        &mut reg,
        LibListenerInitArgs {
            common: LibCommonInitArgs { on_step_terminate_cb: terminated_otherwise },
        },
    );
    let common = get_common_lib_configuration(&reg).unwrap();
    assert_eq!((common.on_step_terminate_cb)(4), 2004);
    let pipeline = get_pipeline_lib_configuration(&reg).unwrap();
    assert_eq!((pipeline.common.on_step_terminate_cb)(4), 1004);
}

#[test]
fn pipeline_module_configuration_is_found_under_its_handle() {
    let mut reg = Registry::new();
    set_pipeline_module_configuration(&mut reg, source(7));
    assert_eq!(get_pipeline_module_configuration(&reg, 7), Some(source(7)));
    assert_eq!(get_pipeline_module_configuration(&reg, 8), None);
    assert_eq!(get_listener_module_configuration(&reg, 7), None);
}

#[test]
fn last_pipeline_module_configuration_counts() {
    let mut reg = Registry::new();
    set_pipeline_module_configuration(&mut reg, source(7));
    set_pipeline_module_configuration(
        &mut reg,
        ModulePipelineConfigureArgs { kind: PipelineModuleKind::Destination, module_handle: 7 },
    );
    set_pipeline_module_configuration(
        &mut reg,
        ModulePipelineConfigureArgs { kind: PipelineModuleKind::Transformation, module_handle: 8 },
    );
    let found = get_pipeline_module_configuration(&reg, 7).unwrap();
    assert_eq!(found.kind, PipelineModuleKind::Destination);
    assert_eq!(found.module_handle, 7);
    let other = get_pipeline_module_configuration(&reg, 8).unwrap();
    assert_eq!(other.kind, PipelineModuleKind::Transformation);
}

#[test]
fn listener_module_configuration_is_found_under_its_handle() {
    let mut reg = Registry::new();
    set_listener_module_configuration(&mut reg, ModuleListenerConfigureArgs { module_handle: 3 });
    assert_eq!(
        get_listener_module_configuration(&reg, 3),
        Some(ModuleListenerConfigureArgs { module_handle: 3 })
    );
    assert_eq!(get_listener_module_configuration(&reg, 4), None);
    assert_eq!(get_pipeline_module_configuration(&reg, 3), None);
}

#[test]
fn parameter_set_twice_has_the_second_value() {
    let mut reg = Registry::new();
    set_param(&mut reg, 1, s("a"), s("1"));
    set_param(&mut reg, 1, s("a"), s("2"));
    assert_eq!(get_param(&reg, 1, "a"), Some(s("2")));
    assert_eq!(get_params(&reg, 1).unwrap().len(), 1);
}

#[test]
fn parameters_survive_the_configuration() {
    let mut reg = Registry::new();
    set_param(&mut reg, 5, s("mode"), s("fast"));
    assert_eq!(get_pipeline_module_configuration(&reg, 5), None);
    set_pipeline_module_configuration(&mut reg, source(5));
    assert_eq!(get_param(&reg, 5, "mode"), Some(s("fast")));
    set_listener_module_configuration(&mut reg, ModuleListenerConfigureArgs { module_handle: 5 });
    assert_eq!(get_param(&reg, 5, "mode"), Some(s("fast")));
    set_pipeline_module_configuration(&mut reg, source(5));
    assert_eq!(get_param(&reg, 5, "mode"), Some(s("fast")));
}

#[test]
fn parameters_are_kept_by_handle() {
    let mut reg = Registry::new();
    set_param(&mut reg, 1, s("a"), s("one"));
    set_param(&mut reg, 2, s("a"), s("two"));
    set_param(&mut reg, 1, s("b"), s("three"));
    assert_eq!(get_param(&reg, 1, "a"), Some(s("one")));
    assert_eq!(get_param(&reg, 2, "a"), Some(s("two")));
    assert_eq!(get_param(&reg, 1, "b"), Some(s("three")));
    assert_eq!(get_param(&reg, 2, "b"), None);
    assert_eq!(get_param(&reg, 3, "a"), None);
    let params = get_params(&reg, 1).unwrap();
    assert_eq!(params.len(), 2);
    assert_eq!(params.get("a"), Some(&s("one")));
    assert_eq!(params.get("b"), Some(&s("three")));
    assert!(get_params(&reg, 3).is_none());
}

#[test]
fn get_params_hands_out_a_copy() {
    let mut reg = Registry::new();
    set_param(&mut reg, 1, s("a"), s("one"));
    let mut params = get_params(&reg, 1).unwrap();
    params.insert(s("a"), s("changed"));
    params.insert(s("b"), s("added"));
    assert_eq!(get_param(&reg, 1, "a"), Some(s("one")));
    assert_eq!(get_param(&reg, 1, "b"), None);
}

#[test]
fn boundary_set_param_reads_boundary_texts() {
    let mut reg = Registry::new();
    let name = str_to_cchar("endpoint").unwrap();
    let value = str_to_cchar("http://host/ü").unwrap();
    torustiq_module_common_set_param(&mut reg, 9, &name, &value);
    assert_eq!(get_param(&reg, 9, "endpoint"), Some(s("http://host/ü")));
    torustiq_module_common_free_char(name);
    torustiq_module_common_free_char(value);
}

#[test]
fn boundary_set_param_is_lossy() {
    let mut reg = Registry::new();
    let name = CharString::from_region(&[b'k', 0xFF, 0]);
    let value = CharString::from_region(&[0xC0, b'v', 0]);
    torustiq_module_common_set_param(&mut reg, 9, &name, &value);
    assert_eq!(get_param(&reg, 9, "k\u{FFFD}"), Some(s("\u{FFFD}v")));
}

#[test]
fn remove_takes_configuration_and_parameters() {
    let mut reg = Registry::new();
    set_pipeline_lib_configuration(&mut reg, pipeline_args());
    set_pipeline_module_configuration(&mut reg, source(1));
    set_listener_module_configuration(&mut reg, ModuleListenerConfigureArgs { module_handle: 1 });
    set_pipeline_module_configuration(&mut reg, source(2));
    set_param(&mut reg, 1, s("a"), s("x"));
    set_param(&mut reg, 2, s("a"), s("y"));
    remove(&mut reg, 1);
    assert_eq!(get_pipeline_module_configuration(&reg, 1), None);
    assert_eq!(get_listener_module_configuration(&reg, 1), None);
    assert!(get_params(&reg, 1).is_none());
    assert_eq!(get_pipeline_module_configuration(&reg, 2), Some(source(2)));
    assert_eq!(get_param(&reg, 2, "a"), Some(s("y")));
    assert!(get_pipeline_lib_configuration(&reg).is_some());
    remove(&mut reg, 1);
    remove(&mut reg, 77);
    assert_eq!(get_pipeline_module_configuration(&reg, 2), Some(source(2)));
}

#[test]
fn shutdown_asks_for_the_callback_with_the_handle() {
    let mut reg = Registry::new();
    set_pipeline_lib_configuration(&mut reg, pipeline_args());
    set_pipeline_module_configuration(&mut reg, source(6));
    match torustiq_module_common_shutdown(&mut reg, 6) {
        ShutdownAction::Terminate(callback, handle) => {
            assert_eq!(handle, 6);
            assert_eq!(callback(handle), 1006);
        }
        other => panic!("no callback asked for: {:?}", other),
    }
}

#[test]
fn shutdown_twice_asks_for_the_callback_once() {
    let mut reg = Registry::new();
    set_pipeline_lib_configuration(&mut reg, pipeline_args());
    set_pipeline_module_configuration(&mut reg, source(6));
    set_param(&mut reg, 6, s("a"), s("b"));
    let mut calls = 0;
    for _ in 0..2 {
        if let ShutdownAction::Terminate(callback, handle) =
            torustiq_module_common_shutdown(&mut reg, 6)
        {
            assert_eq!(callback(handle), 1006);
            calls += 1;
        }
    }
    assert_eq!(calls, 1);
    assert!(matches!(
        torustiq_module_common_shutdown(&mut reg, 6),
        ShutdownAction::UnknownHandle(6)
    ));
    assert_eq!(get_pipeline_module_configuration(&reg, 6), None);
    assert!(get_params(&reg, 6).is_none());
}

#[test]
fn shutdown_of_unknown_handle_changes_nothing() {
    let mut reg = Registry::new();
    set_pipeline_lib_configuration(&mut reg, pipeline_args());
    set_pipeline_module_configuration(&mut reg, source(6));
    set_param(&mut reg, 7, s("a"), s("b"));
    assert!(matches!(
        torustiq_module_common_shutdown(&mut reg, 7),
        ShutdownAction::UnknownHandle(7)
    ));
    assert_eq!(get_pipeline_module_configuration(&reg, 6), Some(source(6)));
    assert_eq!(get_param(&reg, 7, "a"), Some(s("b")));
}

#[test]
fn shutdown_of_a_listener_asks_for_the_callback() {
    let mut reg = Registry::new();
    set_listener_lib_configuration(
        &mut reg,
        LibListenerInitArgs { common: LibCommonInitArgs { on_step_terminate_cb: terminated } },
    );
    set_listener_module_configuration(&mut reg, ModuleListenerConfigureArgs { module_handle: 3 });
    assert!(matches!(
        torustiq_module_common_shutdown(&mut reg, 3),
        ShutdownAction::Terminate(_, 3)
    ));
    assert_eq!(get_listener_module_configuration(&reg, 3), None);
}

#[test]
fn shutdown_without_lib_configuration_is_reported() {
    let mut reg = Registry::new();
    set_pipeline_module_configuration(&mut reg, source(6));
    assert!(matches!(
        torustiq_module_common_shutdown(&mut reg, 6),
        ShutdownAction::MissingLibConfiguration
    ));
    assert!(matches!(
        torustiq_module_common_shutdown(&mut reg, 6),
        ShutdownAction::UnknownHandle(6)
    ));
}

#[test]
fn shutdown_uses_the_last_common_configuration() {
    let mut reg = Registry::new();
    set_pipeline_lib_configuration(&mut reg, pipeline_args());
    set_listener_lib_configuration(
        &mut reg,
        LibListenerInitArgs {
            common: LibCommonInitArgs { on_step_terminate_cb: terminated_otherwise },
        },
    );
    set_pipeline_module_configuration(&mut reg, source(1));
    match torustiq_module_common_shutdown(&mut reg, 1) {
        ShutdownAction::Terminate(callback, handle) => assert_eq!(callback(handle), 2001),
        other => panic!("no callback asked for: {:?}", other),
    }
}
