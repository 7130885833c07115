use macroquest::hook::{
    all_kinds, chat_color_from_unsigned, decode_hook_string, export_name, export_outcome,
    kind_from_export_name, kind_from_method_name, method_name, param_types, return_type,
    safe_default, CParamType, CReturnType, HookKind, HookReturn,
};

const TABLE: [(HookKind, &str, &str); 21] = [
    (HookKind::InitializePlugin, "InitializePlugin", "initialize"),
    (HookKind::ShutdownPlugin, "ShutdownPlugin", "shutdown"),
    (HookKind::OnCleanUI, "OnCleanUI", "clean_ui"),
    (HookKind::OnReloadUI, "OnReloadUI", "reload_ui"),
    (HookKind::OnDrawHUD, "OnDrawHUD", "draw_hud"),
    (HookKind::SetGameState, "SetGameState", "game_state"),
    (HookKind::OnPulse, "OnPulse", "pulse"),
    (HookKind::OnWriteChatColor, "OnWriteChatColor", "write_chat"),
    (HookKind::OnIncomingChat, "OnIncomingChat", "incoming_chat"),
    (HookKind::OnAddSpawn, "OnAddSpawn", "add_spawn"),
    (HookKind::OnRemoveSpawn, "OnRemoveSpawn", "remove_spawn"),
    (HookKind::OnAddGroundItem, "OnAddGroundItem", "add_ground_item"),
    (
        HookKind::OnRemoveGroundItem,
        "OnRemoveGroundItem",
        "remove_ground_item",
    ),
    (HookKind::OnBeginZone, "OnBeginZone", "begin_zone"),
    (HookKind::OnEndZone, "OnEndZone", "end_zone"),
    (HookKind::OnZoned, "OnZoned", "zoned"),
    (HookKind::OnUpdateImGui, "OnUpdateImGui", "update_imgui"),
    (HookKind::OnMacroStart, "OnMacroStart", "macro_start"),
    (HookKind::OnMacroStop, "OnMacroStop", "macro_stop"),
    (HookKind::OnLoadPlugin, "OnLoadPlugin", "plugin_load"),
    (HookKind::OnUnloadPlugin, "OnUnloadPlugin", "plugin_unload"),
];

fn expected_params(kind: HookKind) -> Vec<CParamType> {
    match kind {
        HookKind::SetGameState => vec![CParamType::Int32],
        HookKind::OnWriteChatColor => vec![
            CParamType::CStrPtr,
            CParamType::Int32,
            CParamType::Int32,
        ],
        HookKind::OnIncomingChat => vec![CParamType::CStrPtr, CParamType::UInt32],
        HookKind::OnAddSpawn | HookKind::OnRemoveSpawn => vec![CParamType::SpawnPtr],
        HookKind::OnAddGroundItem | HookKind::OnRemoveGroundItem => {
            vec![CParamType::GroundItemPtr]
        }
        HookKind::OnMacroStart
        | HookKind::OnMacroStop
        | HookKind::OnLoadPlugin
        | HookKind::OnUnloadPlugin => vec![CParamType::CStrPtr],
        _ => vec![],
    }
}

#[test]
fn test_hook_table_is_complete_and_exact() {
    let kinds = all_kinds();
    assert_eq!(kinds.len(), 21);
    assert_eq!(TABLE.len(), 21);

    for (i, (kind, export, method)) in TABLE.iter().enumerate() {
        assert_eq!(kinds[i], *kind);
        assert_eq!(export_name(*kind), *export);
        assert_eq!(method_name(*kind), *method);
        assert_eq!(param_types(*kind), expected_params(*kind));
        let expected_return = if *kind == HookKind::OnIncomingChat {
            CReturnType::Bool
        } else {
            CReturnType::Void
        };
        assert_eq!(return_type(*kind), expected_return);
        let expected_default = if *kind == HookKind::OnIncomingChat {
            HookReturn::Suppress(false)
        } else {
            HookReturn::Unit
        };
        assert_eq!(safe_default(*kind), expected_default);
    }
}

#[test]
fn test_hook_lookups_invert_the_table() {
    for (kind, export, method) in TABLE.iter() {
        assert_eq!(kind_from_export_name(export), Some(*kind));
        assert_eq!(kind_from_method_name(method), Some(*kind));
    }
    assert_eq!(kind_from_export_name("OnUnknownThing"), None);
    assert_eq!(kind_from_method_name("on_unknown_thing"), None);
    assert_eq!(kind_from_method_name("InitializePlugin"), None);
}

#[test]
fn test_decode_hook_string_stops_at_nul() {
    assert_eq!(decode_hook_string(b"hello\0world"), "hello");
    assert_eq!(decode_hook_string(b"no terminator"), "no terminator");
    assert_eq!(decode_hook_string(b"\0"), "");
    assert_eq!(decode_hook_string(b""), "");
}

#[test]
fn test_decode_hook_string_tolerates_invalid_utf8() {
    assert_eq!(decode_hook_string(b"\xff\0"), "\u{fffd}");
    assert_eq!(decode_hook_string(b"ok \xff then\0"), "ok \u{fffd} then");
    assert_eq!(decode_hook_string(b"\xe6\x97\xa5\0"), "\u{65e5}");
}

#[test]
fn test_chat_color_from_unsigned_reinterprets_bits() {
    assert_eq!(chat_color_from_unsigned(0), 0);
    assert_eq!(chat_color_from_unsigned(256), 256);
    assert_eq!(chat_color_from_unsigned(2147483647), 2147483647);
    assert_eq!(chat_color_from_unsigned(2147483648), -2147483648);
    assert_eq!(chat_color_from_unsigned(u32::MAX), -1);
}

#[test]
fn test_export_outcome_passes_values_through() {
    let (ret, event) = export_outcome(HookKind::OnIncomingChat, Some(HookReturn::Suppress(true)));
    assert_eq!(ret, HookReturn::Suppress(true));
    assert!(event.is_none());

    let (ret, event) = export_outcome(HookKind::OnPulse, Some(HookReturn::Unit));
    assert_eq!(ret, HookReturn::Unit);
    assert!(event.is_none());
}

#[test]
fn test_export_outcome_contains_a_fault() {
    let (ret, event) = export_outcome(HookKind::OnIncomingChat, None);
    assert_eq!(ret, HookReturn::Suppress(false));
    let event = event.unwrap();
    assert_eq!(event.hook, "OnIncomingChat");
    assert_eq!(event.message, "caught an unwind");

    let (ret, event) = export_outcome(HookKind::OnDrawHUD, None);
    assert_eq!(ret, HookReturn::Unit);
    let event = event.unwrap();
    assert_eq!(event.hook, "OnDrawHUD");
    assert_eq!(event.message, "caught an unwind");
}
