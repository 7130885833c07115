use macroquest::hook::HookKind;
use macroquest::scaffold::{
    assertion_symbol, export_surface, holder_symbol, main_symbol, resolve_hooks,
};

#[test]
fn test_symbols_for_a_plugin_type() {
    assert_eq!(main_symbol("MyPlugin"), "__my_plugin");
    assert_eq!(
        assertion_symbol("MyPlugin"),
        "__assert_my_plugin_implements_traits"
    );
    assert_eq!(holder_symbol("MyPlugin"), "__MYPLUGIN");

    assert_eq!(main_symbol("HTTPClientPlugin"), "__http_client_plugin");
    assert_eq!(holder_symbol("HTTPClientPlugin"), "__HTTPCLIENTPLUGIN");
}

#[test]
fn test_resolve_hooks_maps_method_names() {
    let methods = vec![
        "initialize".to_string(),
        "incoming_chat".to_string(),
        "add_spawn".to_string(),
    ];
    let kinds = resolve_hooks(&methods).unwrap();
    assert_eq!(
        kinds,
        vec![
            HookKind::InitializePlugin,
            HookKind::OnIncomingChat,
            HookKind::OnAddSpawn,
        ]
    );
}

#[test]
fn test_resolve_hooks_rejects_unknown_method() {
    let methods = vec![
        "initialize".to_string(),
        "on_unknown_thing".to_string(),
        "pulse".to_string(),
    ];
    let err = resolve_hooks(&methods).unwrap_err();
    assert_eq!(err.method, "on_unknown_thing");
    assert_eq!(err.message, "the hook must be a supported MacroQuest hook");
}

#[test]
fn test_export_surface_holds_markers_and_implemented_hooks() {
    let implemented = vec![HookKind::OnIncomingChat, HookKind::OnPulse];
    let surface = export_surface(&implemented);
    assert_eq!(
        surface,
        vec![
            "IsBuiltForNext".to_string(),
            "EverQuestVersion".to_string(),
            "DllMain".to_string(),
            "InitializePlugin".to_string(),
            "ShutdownPlugin".to_string(),
            "OnIncomingChat".to_string(),
            "OnPulse".to_string(),
        ]
    );
}

#[test]
fn test_export_surface_for_an_empty_plugin() {
    let surface = export_surface(&Vec::new());
    assert_eq!(
        surface,
        vec![
            "IsBuiltForNext".to_string(),
            "EverQuestVersion".to_string(),
            "DllMain".to_string(),
            "InitializePlugin".to_string(),
            "ShutdownPlugin".to_string(),
        ]
    );
}

#[test]
fn test_export_surface_does_not_double_lifecycle_hooks() {
    let implemented = vec![
        HookKind::InitializePlugin,
        HookKind::OnZoned,
        HookKind::ShutdownPlugin,
    ];
    let surface = export_surface(&implemented);
    assert_eq!(
        surface,
        vec![
            "IsBuiltForNext".to_string(),
            "EverQuestVersion".to_string(),
            "DllMain".to_string(),
            "InitializePlugin".to_string(),
            "ShutdownPlugin".to_string(),
            "OnZoned".to_string(),
        ]
    );
}
