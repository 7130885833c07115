//! The fixed table of callback kinds: for each kind the host-mandated
//! export name, the native parameter and return shapes, the matching plugin
//! method name, and the safe default that a generated export returns when a
//! dispatch fails.
//!
//! The mapping is total and fixed at build time. Both name lookups are
//! proved to invert the table, and the fault-isolation decision every
//! generated export makes is stated here over the table.

use vstd::prelude::*;
use vstd::utf8::{decode_utf8, valid_utf8};

use crate::text::{
    bytes_to_string_lossy, find_byte_spec, lossy_decoded, spec_find_byte, str_eq,
};

verus! {

broadcast use vstd::string::group_string_axioms;

/// The closed set of callbacks the host will invoke on a plugin, one
/// variant per well-known export.
#[derive(Copy, Clone, Debug, PartialEq, Eq, Structural)]
pub enum HookKind {
    /// `InitializePlugin`: called once on plugin initialization.
    InitializePlugin,
    /// `ShutdownPlugin`: called once when the plugin has been asked to shut down.
    ShutdownPlugin,
    /// `OnCleanUI`: called just before the UI system unloads or is cleaned.
    OnCleanUI,
    /// `OnReloadUI`: called just after the UI system reloads.
    OnReloadUI,
    /// `OnDrawHUD`: called each time the heads-up display is drawn.
    OnDrawHUD,
    /// `SetGameState`: called when the game state changes.
    SetGameState,
    /// `OnPulse`: called on each pass through the host's heartbeat.
    OnPulse,
    /// `OnWriteChatColor`: called each time the host emits a line of chat.
    OnWriteChatColor,
    /// `OnIncomingChat`: called each time a line of chat is displayed.
    OnIncomingChat,
    /// `OnAddSpawn`: called each time a spawn is added to the zone.
    OnAddSpawn,
    /// `OnRemoveSpawn`: called each time a spawn is removed from the zone.
    OnRemoveSpawn,
    /// `OnAddGroundItem`: called each time a ground item is added to the zone.
    OnAddGroundItem,
    /// `OnRemoveGroundItem`: called each time a ground item is removed from the zone.
    OnRemoveGroundItem,
    /// `OnBeginZone`: called as zoning begins.
    OnBeginZone,
    /// `OnEndZone`: called after the zone loads.
    OnEndZone,
    /// `OnZoned`: called once zoning completes.
    OnZoned,
    /// `OnUpdateImGui`: called each time the overlay is rendered.
    OnUpdateImGui,
    /// `OnMacroStart`: called when a macro starts.
    OnMacroStart,
    /// `OnMacroStop`: called when a macro stops.
    OnMacroStop,
    /// `OnLoadPlugin`: called after any plugin loads.
    OnLoadPlugin,
    /// `OnUnloadPlugin`: called before any plugin unloads.
    OnUnloadPlugin,
}

/// The native parameter types a hook export can take.
#[derive(Copy, Clone, Debug, PartialEq, Eq, Structural)]
pub enum CParamType {
    /// A signed 32-bit integer.
    Int32,
    /// An unsigned 32-bit integer.
    UInt32,
    /// A borrowed, null-terminated C string pointer owned by the host.
    CStrPtr,
    /// A borrowed pointer to a host live-entity record.
    SpawnPtr,
    /// A borrowed pointer to a host ground-item record.
    GroundItemPtr,
}

/// The native return type of a hook export.
#[derive(Copy, Clone, Debug, PartialEq, Eq, Structural)]
pub enum CReturnType {
    /// The export returns nothing.
    Void,
    /// The export returns a boolean (as an int, per the host ABI).
    Bool,
}

/// A value carried back across the export boundary.
#[derive(Copy, Clone, Debug, PartialEq, Eq, Structural)]
pub enum HookReturn {
    /// The return value of a void hook.
    Unit,
    /// The return value of the incoming-chat hook: whether the host should
    /// suppress the line from normal display.
    Suppress(bool),
}

/// An error event for the logging channel, tagged with the export it
/// concerns.
#[derive(Clone, Debug)]
pub struct LogEvent {
    /// The export name of the hook the event is about.
    pub hook: String,
    /// What went wrong.
    pub message: String,
}

/// Every callback kind, in the host's documented order.
pub open spec fn spec_all_kinds() -> Seq<HookKind> {
    seq![
        HookKind::InitializePlugin,
        HookKind::ShutdownPlugin,
        HookKind::OnCleanUI,
        HookKind::OnReloadUI,
        HookKind::OnDrawHUD,
        HookKind::SetGameState,
        HookKind::OnPulse,
        HookKind::OnWriteChatColor,
        HookKind::OnIncomingChat,
        HookKind::OnAddSpawn,
        HookKind::OnRemoveSpawn,
        HookKind::OnAddGroundItem,
        HookKind::OnRemoveGroundItem,
        HookKind::OnBeginZone,
        HookKind::OnEndZone,
        HookKind::OnZoned,
        HookKind::OnUpdateImGui,
        HookKind::OnMacroStart,
        HookKind::OnMacroStop,
        HookKind::OnLoadPlugin,
        HookKind::OnUnloadPlugin,
    ]
}

/// Every callback kind, in the host's documented order.
pub fn all_kinds() -> (kinds: Vec<HookKind>)
    ensures
        kinds@ == spec_all_kinds(),
{
    let kinds = vec![
        HookKind::InitializePlugin,
        HookKind::ShutdownPlugin,
        HookKind::OnCleanUI,
        HookKind::OnReloadUI,
        HookKind::OnDrawHUD,
        HookKind::SetGameState,
        HookKind::OnPulse,
        HookKind::OnWriteChatColor,
        HookKind::OnIncomingChat,
        HookKind::OnAddSpawn,
        HookKind::OnRemoveSpawn,
        HookKind::OnAddGroundItem,
        HookKind::OnRemoveGroundItem,
        HookKind::OnBeginZone,
        HookKind::OnEndZone,
        HookKind::OnZoned,
        HookKind::OnUpdateImGui,
        HookKind::OnMacroStart,
        HookKind::OnMacroStop,
        HookKind::OnLoadPlugin,
        HookKind::OnUnloadPlugin,
    ];
    proof {
        assert(kinds@ =~= spec_all_kinds());
    }
    kinds
}

/// The table of kinds is complete: every kind appears in
/// [`spec_all_kinds`].
pub proof fn lemma_all_kinds_complete(kind: HookKind)
    ensures
        spec_all_kinds().contains(kind),
{
    let kinds = spec_all_kinds();
    match kind {
        HookKind::InitializePlugin => {
            assert(kinds[0] == kind);
        },
        HookKind::ShutdownPlugin => {
            assert(kinds[1] == kind);
        },
        HookKind::OnCleanUI => {
            assert(kinds[2] == kind);
        },
        HookKind::OnReloadUI => {
            assert(kinds[3] == kind);
        },
        HookKind::OnDrawHUD => {
            assert(kinds[4] == kind);
        },
        HookKind::SetGameState => {
            assert(kinds[5] == kind);
        },
        HookKind::OnPulse => {
            assert(kinds[6] == kind);
        },
        HookKind::OnWriteChatColor => {
            assert(kinds[7] == kind);
        },
        HookKind::OnIncomingChat => {
            assert(kinds[8] == kind);
        },
        HookKind::OnAddSpawn => {
            assert(kinds[9] == kind);
        },
        HookKind::OnRemoveSpawn => {
            assert(kinds[10] == kind);
        },
        HookKind::OnAddGroundItem => {
            assert(kinds[11] == kind);
        },
        HookKind::OnRemoveGroundItem => {
            assert(kinds[12] == kind);
        },
        HookKind::OnBeginZone => {
            assert(kinds[13] == kind);
        },
        HookKind::OnEndZone => {
            assert(kinds[14] == kind);
        },
        HookKind::OnZoned => {
            assert(kinds[15] == kind);
        },
        HookKind::OnUpdateImGui => {
            assert(kinds[16] == kind);
        },
        HookKind::OnMacroStart => {
            assert(kinds[17] == kind);
        },
        HookKind::OnMacroStop => {
            assert(kinds[18] == kind);
        },
        HookKind::OnLoadPlugin => {
            assert(kinds[19] == kind);
        },
        HookKind::OnUnloadPlugin => {
            assert(kinds[20] == kind);
        },
    }
}

/// The host-mandated export name of each callback kind, exact and
/// case-sensitive.
pub open spec fn spec_export_name(kind: HookKind) -> Seq<char> {
    match kind {
        HookKind::InitializePlugin => "InitializePlugin"@,
        HookKind::ShutdownPlugin => "ShutdownPlugin"@,
        HookKind::OnCleanUI => "OnCleanUI"@,
        HookKind::OnReloadUI => "OnReloadUI"@,
        HookKind::OnDrawHUD => "OnDrawHUD"@,
        HookKind::SetGameState => "SetGameState"@,
        HookKind::OnPulse => "OnPulse"@,
        HookKind::OnWriteChatColor => "OnWriteChatColor"@,
        HookKind::OnIncomingChat => "OnIncomingChat"@,
        HookKind::OnAddSpawn => "OnAddSpawn"@,
        HookKind::OnRemoveSpawn => "OnRemoveSpawn"@,
        HookKind::OnAddGroundItem => "OnAddGroundItem"@,
        HookKind::OnRemoveGroundItem => "OnRemoveGroundItem"@,
        HookKind::OnBeginZone => "OnBeginZone"@,
        HookKind::OnEndZone => "OnEndZone"@,
        HookKind::OnZoned => "OnZoned"@,
        HookKind::OnUpdateImGui => "OnUpdateImGui"@,
        HookKind::OnMacroStart => "OnMacroStart"@,
        HookKind::OnMacroStop => "OnMacroStop"@,
        HookKind::OnLoadPlugin => "OnLoadPlugin"@,
        HookKind::OnUnloadPlugin => "OnUnloadPlugin"@,
    }
}

/// The host-mandated export name of each callback kind, exact and
/// case-sensitive.
pub fn export_name(kind: HookKind) -> (name: &'static str)
    ensures
        name@ == spec_export_name(kind),
{
    match kind {
        HookKind::InitializePlugin => "InitializePlugin",
        HookKind::ShutdownPlugin => "ShutdownPlugin",
        HookKind::OnCleanUI => "OnCleanUI",
        HookKind::OnReloadUI => "OnReloadUI",
        HookKind::OnDrawHUD => "OnDrawHUD",
        HookKind::SetGameState => "SetGameState",
        HookKind::OnPulse => "OnPulse",
        HookKind::OnWriteChatColor => "OnWriteChatColor",
        HookKind::OnIncomingChat => "OnIncomingChat",
        HookKind::OnAddSpawn => "OnAddSpawn",
        HookKind::OnRemoveSpawn => "OnRemoveSpawn",
        HookKind::OnAddGroundItem => "OnAddGroundItem",
        HookKind::OnRemoveGroundItem => "OnRemoveGroundItem",
        HookKind::OnBeginZone => "OnBeginZone",
        HookKind::OnEndZone => "OnEndZone",
        HookKind::OnZoned => "OnZoned",
        HookKind::OnUpdateImGui => "OnUpdateImGui",
        HookKind::OnMacroStart => "OnMacroStart",
        HookKind::OnMacroStop => "OnMacroStop",
        HookKind::OnLoadPlugin => "OnLoadPlugin",
        HookKind::OnUnloadPlugin => "OnUnloadPlugin",
    }
}

/// The plugin method each callback kind dispatches to.
pub open spec fn spec_method_name(kind: HookKind) -> Seq<char> {
    match kind {
        HookKind::InitializePlugin => "initialize"@,
        HookKind::ShutdownPlugin => "shutdown"@,
        HookKind::OnCleanUI => "clean_ui"@,
        HookKind::OnReloadUI => "reload_ui"@,
        HookKind::OnDrawHUD => "draw_hud"@,
        HookKind::SetGameState => "game_state"@,
        HookKind::OnPulse => "pulse"@,
        HookKind::OnWriteChatColor => "write_chat"@,
        HookKind::OnIncomingChat => "incoming_chat"@,
        HookKind::OnAddSpawn => "add_spawn"@,
        HookKind::OnRemoveSpawn => "remove_spawn"@,
        HookKind::OnAddGroundItem => "add_ground_item"@,
        HookKind::OnRemoveGroundItem => "remove_ground_item"@,
        HookKind::OnBeginZone => "begin_zone"@,
        HookKind::OnEndZone => "end_zone"@,
        HookKind::OnZoned => "zoned"@,
        HookKind::OnUpdateImGui => "update_imgui"@,
        HookKind::OnMacroStart => "macro_start"@,
        HookKind::OnMacroStop => "macro_stop"@,
        HookKind::OnLoadPlugin => "plugin_load"@,
        HookKind::OnUnloadPlugin => "plugin_unload"@,
    }
}

/// The plugin method each callback kind dispatches to.
pub fn method_name(kind: HookKind) -> (name: &'static str)
    ensures
        name@ == spec_method_name(kind),
{
    match kind {
        HookKind::InitializePlugin => "initialize",
        HookKind::ShutdownPlugin => "shutdown",
        HookKind::OnCleanUI => "clean_ui",
        HookKind::OnReloadUI => "reload_ui",
        HookKind::OnDrawHUD => "draw_hud",
        HookKind::SetGameState => "game_state",
        HookKind::OnPulse => "pulse",
        HookKind::OnWriteChatColor => "write_chat",
        HookKind::OnIncomingChat => "incoming_chat",
        HookKind::OnAddSpawn => "add_spawn",
        HookKind::OnRemoveSpawn => "remove_spawn",
        HookKind::OnAddGroundItem => "add_ground_item",
        HookKind::OnRemoveGroundItem => "remove_ground_item",
        HookKind::OnBeginZone => "begin_zone",
        HookKind::OnEndZone => "end_zone",
        HookKind::OnZoned => "zoned",
        HookKind::OnUpdateImGui => "update_imgui",
        HookKind::OnMacroStart => "macro_start",
        HookKind::OnMacroStop => "macro_stop",
        HookKind::OnLoadPlugin => "plugin_load",
        HookKind::OnUnloadPlugin => "plugin_unload",
    }
}

/// The native parameter list of each callback kind's export.
pub open spec fn spec_param_types(kind: HookKind) -> Seq<CParamType> {
    match kind {
        HookKind::SetGameState => seq![CParamType::Int32],
        HookKind::OnWriteChatColor => seq![CParamType::CStrPtr, CParamType::Int32, CParamType::Int32],
        HookKind::OnIncomingChat => seq![CParamType::CStrPtr, CParamType::UInt32],
        HookKind::OnAddSpawn
        | HookKind::OnRemoveSpawn => seq![CParamType::SpawnPtr],
        HookKind::OnAddGroundItem
        | HookKind::OnRemoveGroundItem => seq![CParamType::GroundItemPtr],
        HookKind::OnMacroStart
        | HookKind::OnMacroStop
        | HookKind::OnLoadPlugin
        | HookKind::OnUnloadPlugin => seq![CParamType::CStrPtr],
        HookKind::InitializePlugin
        | HookKind::ShutdownPlugin
        | HookKind::OnCleanUI
        | HookKind::OnReloadUI
        | HookKind::OnDrawHUD
        | HookKind::OnPulse
        | HookKind::OnBeginZone
        | HookKind::OnEndZone
        | HookKind::OnZoned
        | HookKind::OnUpdateImGui => Seq::<CParamType>::empty(),
    }
}

/// The native parameter list of each callback kind's export.
pub fn param_types(kind: HookKind) -> (types: Vec<CParamType>)
    ensures
        types@ == spec_param_types(kind),
{
    let types = match kind {
        HookKind::SetGameState => vec![CParamType::Int32],
        HookKind::OnWriteChatColor => vec![CParamType::CStrPtr, CParamType::Int32, CParamType::Int32],
        HookKind::OnIncomingChat => vec![CParamType::CStrPtr, CParamType::UInt32],
        HookKind::OnAddSpawn
        | HookKind::OnRemoveSpawn => vec![CParamType::SpawnPtr],
        HookKind::OnAddGroundItem
        | HookKind::OnRemoveGroundItem => vec![CParamType::GroundItemPtr],
        HookKind::OnMacroStart
        | HookKind::OnMacroStop
        | HookKind::OnLoadPlugin
        | HookKind::OnUnloadPlugin => vec![CParamType::CStrPtr],
        HookKind::InitializePlugin
        | HookKind::ShutdownPlugin
        | HookKind::OnCleanUI
        | HookKind::OnReloadUI
        | HookKind::OnDrawHUD
        | HookKind::OnPulse
        | HookKind::OnBeginZone
        | HookKind::OnEndZone
        | HookKind::OnZoned
        | HookKind::OnUpdateImGui => Vec::<CParamType>::new(),
    };
    proof {
        assert(types@ =~= spec_param_types(kind));
    }
    types
}

/// The native return type of each callback kind's export: `void` for all
/// but the incoming-chat hook, which answers the host with a boolean.
pub open spec fn spec_return_type(kind: HookKind) -> CReturnType {
    match kind {
        HookKind::OnIncomingChat => CReturnType::Bool,
        _ => CReturnType::Void,
    }
}

/// The native return type of each callback kind's export.
pub fn return_type(kind: HookKind) -> (ret: CReturnType)
    ensures
        ret == spec_return_type(kind),
{
    match kind {
        HookKind::OnIncomingChat => CReturnType::Bool,
        _ => CReturnType::Void,
    }
}

/// The safe default a generated export returns when the dispatch cannot
/// run or faults: nothing for a void hook, and "do not suppress" for the
/// incoming-chat hook.
pub open spec fn spec_safe_default(kind: HookKind) -> HookReturn {
    match kind {
        HookKind::OnIncomingChat => HookReturn::Suppress(false),
        _ => HookReturn::Unit,
    }
}

/// The safe default a generated export returns when the dispatch cannot
/// run or faults.
pub fn safe_default(kind: HookKind) -> (ret: HookReturn)
    ensures
        ret == spec_safe_default(kind),
{
    match kind {
        HookKind::OnIncomingChat => HookReturn::Suppress(false),
        _ => HookReturn::Unit,
    }
}

/// The callback kind whose plugin method carries the given name, if any.
pub open spec fn spec_kind_from_method(name: Seq<char>) -> Option<HookKind> {
    if name == "initialize"@ {
        Some(HookKind::InitializePlugin)
    } else if name == "shutdown"@ {
        Some(HookKind::ShutdownPlugin)
    } else if name == "clean_ui"@ {
        Some(HookKind::OnCleanUI)
    } else if name == "reload_ui"@ {
        Some(HookKind::OnReloadUI)
    } else if name == "draw_hud"@ {
        Some(HookKind::OnDrawHUD)
    } else if name == "game_state"@ {
        Some(HookKind::SetGameState)
    } else if name == "pulse"@ {
        Some(HookKind::OnPulse)
    } else if name == "write_chat"@ {
        Some(HookKind::OnWriteChatColor)
    } else if name == "incoming_chat"@ {
        Some(HookKind::OnIncomingChat)
    } else if name == "add_spawn"@ {
        Some(HookKind::OnAddSpawn)
    } else if name == "remove_spawn"@ {
        Some(HookKind::OnRemoveSpawn)
    } else if name == "add_ground_item"@ {
        Some(HookKind::OnAddGroundItem)
    } else if name == "remove_ground_item"@ {
        Some(HookKind::OnRemoveGroundItem)
    } else if name == "begin_zone"@ {
        Some(HookKind::OnBeginZone)
    } else if name == "end_zone"@ {
        Some(HookKind::OnEndZone)
    } else if name == "zoned"@ {
        Some(HookKind::OnZoned)
    } else if name == "update_imgui"@ {
        Some(HookKind::OnUpdateImGui)
    } else if name == "macro_start"@ {
        Some(HookKind::OnMacroStart)
    } else if name == "macro_stop"@ {
        Some(HookKind::OnMacroStop)
    } else if name == "plugin_load"@ {
        Some(HookKind::OnLoadPlugin)
    } else if name == "plugin_unload"@ {
        Some(HookKind::OnUnloadPlugin)
    } else {
        None
    }
}

/// Look a plugin method name up in the fixed table.
pub fn kind_from_method_name(name: &str) -> (kind: Option<HookKind>)
    ensures
        kind == spec_kind_from_method(name@),
{
    if str_eq(name, "initialize") {
        Some(HookKind::InitializePlugin)
    } else if str_eq(name, "shutdown") {
        Some(HookKind::ShutdownPlugin)
    } else if str_eq(name, "clean_ui") {
        Some(HookKind::OnCleanUI)
    } else if str_eq(name, "reload_ui") {
        Some(HookKind::OnReloadUI)
    } else if str_eq(name, "draw_hud") {
        Some(HookKind::OnDrawHUD)
    } else if str_eq(name, "game_state") {
        Some(HookKind::SetGameState)
    } else if str_eq(name, "pulse") {
        Some(HookKind::OnPulse)
    } else if str_eq(name, "write_chat") {
        Some(HookKind::OnWriteChatColor)
    } else if str_eq(name, "incoming_chat") {
        Some(HookKind::OnIncomingChat)
    } else if str_eq(name, "add_spawn") {
        Some(HookKind::OnAddSpawn)
    } else if str_eq(name, "remove_spawn") {
        Some(HookKind::OnRemoveSpawn)
    } else if str_eq(name, "add_ground_item") {
        Some(HookKind::OnAddGroundItem)
    } else if str_eq(name, "remove_ground_item") {
        Some(HookKind::OnRemoveGroundItem)
    } else if str_eq(name, "begin_zone") {
        Some(HookKind::OnBeginZone)
    } else if str_eq(name, "end_zone") {
        Some(HookKind::OnEndZone)
    } else if str_eq(name, "zoned") {
        Some(HookKind::OnZoned)
    } else if str_eq(name, "update_imgui") {
        Some(HookKind::OnUpdateImGui)
    } else if str_eq(name, "macro_start") {
        Some(HookKind::OnMacroStart)
    } else if str_eq(name, "macro_stop") {
        Some(HookKind::OnMacroStop)
    } else if str_eq(name, "plugin_load") {
        Some(HookKind::OnLoadPlugin)
    } else if str_eq(name, "plugin_unload") {
        Some(HookKind::OnUnloadPlugin)
    } else {
        None
    }
}

/// The callback kind whose export carries the given name, if any.
pub open spec fn spec_kind_from_export(name: Seq<char>) -> Option<HookKind> {
    if name == "InitializePlugin"@ {
        Some(HookKind::InitializePlugin)
    } else if name == "ShutdownPlugin"@ {
        Some(HookKind::ShutdownPlugin)
    } else if name == "OnCleanUI"@ {
        Some(HookKind::OnCleanUI)
    } else if name == "OnReloadUI"@ {
        Some(HookKind::OnReloadUI)
    } else if name == "OnDrawHUD"@ {
        Some(HookKind::OnDrawHUD)
    } else if name == "SetGameState"@ {
        Some(HookKind::SetGameState)
    } else if name == "OnPulse"@ {
        Some(HookKind::OnPulse)
    } else if name == "OnWriteChatColor"@ {
        Some(HookKind::OnWriteChatColor)
    } else if name == "OnIncomingChat"@ {
        Some(HookKind::OnIncomingChat)
    } else if name == "OnAddSpawn"@ {
        Some(HookKind::OnAddSpawn)
    } else if name == "OnRemoveSpawn"@ {
        Some(HookKind::OnRemoveSpawn)
    } else if name == "OnAddGroundItem"@ {
        Some(HookKind::OnAddGroundItem)
    } else if name == "OnRemoveGroundItem"@ {
        Some(HookKind::OnRemoveGroundItem)
    } else if name == "OnBeginZone"@ {
        Some(HookKind::OnBeginZone)
    } else if name == "OnEndZone"@ {
        Some(HookKind::OnEndZone)
    } else if name == "OnZoned"@ {
        Some(HookKind::OnZoned)
    } else if name == "OnUpdateImGui"@ {
        Some(HookKind::OnUpdateImGui)
    } else if name == "OnMacroStart"@ {
        Some(HookKind::OnMacroStart)
    } else if name == "OnMacroStop"@ {
        Some(HookKind::OnMacroStop)
    } else if name == "OnLoadPlugin"@ {
        Some(HookKind::OnLoadPlugin)
    } else if name == "OnUnloadPlugin"@ {
        Some(HookKind::OnUnloadPlugin)
    } else {
        None
    }
}

/// Look an export name up in the fixed table.
pub fn kind_from_export_name(name: &str) -> (kind: Option<HookKind>)
    ensures
        kind == spec_kind_from_export(name@),
{
    if str_eq(name, "InitializePlugin") {
        Some(HookKind::InitializePlugin)
    } else if str_eq(name, "ShutdownPlugin") {
        Some(HookKind::ShutdownPlugin)
    } else if str_eq(name, "OnCleanUI") {
        Some(HookKind::OnCleanUI)
    } else if str_eq(name, "OnReloadUI") {
        Some(HookKind::OnReloadUI)
    } else if str_eq(name, "OnDrawHUD") {
        Some(HookKind::OnDrawHUD)
    } else if str_eq(name, "SetGameState") {
        Some(HookKind::SetGameState)
    } else if str_eq(name, "OnPulse") {
        Some(HookKind::OnPulse)
    } else if str_eq(name, "OnWriteChatColor") {
        Some(HookKind::OnWriteChatColor)
    } else if str_eq(name, "OnIncomingChat") {
        Some(HookKind::OnIncomingChat)
    } else if str_eq(name, "OnAddSpawn") {
        Some(HookKind::OnAddSpawn)
    } else if str_eq(name, "OnRemoveSpawn") {
        Some(HookKind::OnRemoveSpawn)
    } else if str_eq(name, "OnAddGroundItem") {
        Some(HookKind::OnAddGroundItem)
    } else if str_eq(name, "OnRemoveGroundItem") {
        Some(HookKind::OnRemoveGroundItem)
    } else if str_eq(name, "OnBeginZone") {
        Some(HookKind::OnBeginZone)
    } else if str_eq(name, "OnEndZone") {
        Some(HookKind::OnEndZone)
    } else if str_eq(name, "OnZoned") {
        Some(HookKind::OnZoned)
    } else if str_eq(name, "OnUpdateImGui") {
        Some(HookKind::OnUpdateImGui)
    } else if str_eq(name, "OnMacroStart") {
        Some(HookKind::OnMacroStart)
    } else if str_eq(name, "OnMacroStop") {
        Some(HookKind::OnMacroStop)
    } else if str_eq(name, "OnLoadPlugin") {
        Some(HookKind::OnLoadPlugin)
    } else if str_eq(name, "OnUnloadPlugin") {
        Some(HookKind::OnUnloadPlugin)
    } else {
        None
    }
}

/// The method-name lookup inverts the table: looking up the method name of
/// any callback kind finds exactly that kind. In particular no two kinds
/// share a method name.
pub proof fn lemma_method_lookup_inverts(kind: HookKind)
    ensures
        spec_kind_from_method(spec_method_name(kind)) == Some(kind),
{
    reveal_strlit("initialize");
    reveal_strlit("shutdown");
    reveal_strlit("clean_ui");
    reveal_strlit("reload_ui");
    reveal_strlit("draw_hud");
    reveal_strlit("game_state");
    reveal_strlit("pulse");
    reveal_strlit("write_chat");
    reveal_strlit("incoming_chat");
    reveal_strlit("add_spawn");
    reveal_strlit("remove_spawn");
    reveal_strlit("add_ground_item");
    reveal_strlit("remove_ground_item");
    reveal_strlit("begin_zone");
    reveal_strlit("end_zone");
    reveal_strlit("zoned");
    reveal_strlit("update_imgui");
    reveal_strlit("macro_start");
    reveal_strlit("macro_stop");
    reveal_strlit("plugin_load");
    reveal_strlit("plugin_unload");
    assert("initialize"@.len() == 10);
    assert("initialize"@[0] == 'i');
    assert("initialize"@[2] == 'i');
    assert("shutdown"@.len() == 8);
    assert("shutdown"@[0] == 's');
    assert("shutdown"@[2] == 'u');
    assert("clean_ui"@.len() == 8);
    assert("clean_ui"@[0] == 'c');
    assert("clean_ui"@[2] == 'e');
    assert("reload_ui"@.len() == 9);
    assert("reload_ui"@[0] == 'r');
    assert("reload_ui"@[2] == 'l');
    assert("draw_hud"@.len() == 8);
    assert("draw_hud"@[0] == 'd');
    assert("draw_hud"@[2] == 'a');
    assert("game_state"@.len() == 10);
    assert("game_state"@[0] == 'g');
    assert("game_state"@[2] == 'm');
    assert("pulse"@.len() == 5);
    assert("pulse"@[0] == 'p');
    assert("pulse"@[2] == 'l');
    assert("write_chat"@.len() == 10);
    assert("write_chat"@[0] == 'w');
    assert("write_chat"@[2] == 'i');
    assert("incoming_chat"@.len() == 13);
    assert("incoming_chat"@[0] == 'i');
    assert("incoming_chat"@[2] == 'c');
    assert("add_spawn"@.len() == 9);
    assert("add_spawn"@[0] == 'a');
    assert("add_spawn"@[2] == 'd');
    assert("remove_spawn"@.len() == 12);
    assert("remove_spawn"@[0] == 'r');
    assert("remove_spawn"@[2] == 'm');
    assert("add_ground_item"@.len() == 15);
    assert("add_ground_item"@[0] == 'a');
    assert("add_ground_item"@[2] == 'd');
    assert("remove_ground_item"@.len() == 18);
    assert("remove_ground_item"@[0] == 'r');
    assert("remove_ground_item"@[2] == 'm');
    assert("begin_zone"@.len() == 10);
    assert("begin_zone"@[0] == 'b');
    assert("begin_zone"@[2] == 'g');
    assert("end_zone"@.len() == 8);
    assert("end_zone"@[0] == 'e');
    assert("end_zone"@[2] == 'd');
    assert("zoned"@.len() == 5);
    assert("zoned"@[0] == 'z');
    assert("zoned"@[2] == 'n');
    assert("update_imgui"@.len() == 12);
    assert("update_imgui"@[0] == 'u');
    assert("update_imgui"@[2] == 'd');
    assert("macro_start"@.len() == 11);
    assert("macro_start"@[0] == 'm');
    assert("macro_start"@[2] == 'c');
    assert("macro_stop"@.len() == 10);
    assert("macro_stop"@[0] == 'm');
    assert("macro_stop"@[2] == 'c');
    assert("plugin_load"@.len() == 11);
    assert("plugin_load"@[0] == 'p');
    assert("plugin_load"@[2] == 'u');
    assert("plugin_unload"@.len() == 13);
    assert("plugin_unload"@[0] == 'p');
    assert("plugin_unload"@[2] == 'u');
}

/// The export-name lookup inverts the table: looking up the export name of
/// any callback kind finds exactly that kind. In particular no two kinds
/// share an export name.
pub proof fn lemma_export_lookup_inverts(kind: HookKind)
    ensures
        spec_kind_from_export(spec_export_name(kind)) == Some(kind),
{
    reveal_strlit("InitializePlugin");
    reveal_strlit("ShutdownPlugin");
    reveal_strlit("OnCleanUI");
    reveal_strlit("OnReloadUI");
    reveal_strlit("OnDrawHUD");
    reveal_strlit("SetGameState");
    reveal_strlit("OnPulse");
    reveal_strlit("OnWriteChatColor");
    reveal_strlit("OnIncomingChat");
    reveal_strlit("OnAddSpawn");
    reveal_strlit("OnRemoveSpawn");
    reveal_strlit("OnAddGroundItem");
    reveal_strlit("OnRemoveGroundItem");
    reveal_strlit("OnBeginZone");
    reveal_strlit("OnEndZone");
    reveal_strlit("OnZoned");
    reveal_strlit("OnUpdateImGui");
    reveal_strlit("OnMacroStart");
    reveal_strlit("OnMacroStop");
    reveal_strlit("OnLoadPlugin");
    reveal_strlit("OnUnloadPlugin");
    assert("InitializePlugin"@.len() == 16);
    assert("InitializePlugin"@[0] == 'I');
    assert("InitializePlugin"@[2] == 'i');
    assert("ShutdownPlugin"@.len() == 14);
    assert("ShutdownPlugin"@[0] == 'S');
    assert("ShutdownPlugin"@[2] == 'u');
    assert("OnCleanUI"@.len() == 9);
    assert("OnCleanUI"@[0] == 'O');
    assert("OnCleanUI"@[2] == 'C');
    assert("OnReloadUI"@.len() == 10);
    assert("OnReloadUI"@[0] == 'O');
    assert("OnReloadUI"@[2] == 'R');
    assert("OnDrawHUD"@.len() == 9);
    assert("OnDrawHUD"@[0] == 'O');
    assert("OnDrawHUD"@[2] == 'D');
    assert("SetGameState"@.len() == 12);
    assert("SetGameState"@[0] == 'S');
    assert("SetGameState"@[2] == 't');
    assert("OnPulse"@.len() == 7);
    assert("OnPulse"@[0] == 'O');
    assert("OnPulse"@[2] == 'P');
    assert("OnWriteChatColor"@.len() == 16);
    assert("OnWriteChatColor"@[0] == 'O');
    assert("OnWriteChatColor"@[2] == 'W');
    assert("OnIncomingChat"@.len() == 14);
    assert("OnIncomingChat"@[0] == 'O');
    assert("OnIncomingChat"@[2] == 'I');
    assert("OnAddSpawn"@.len() == 10);
    assert("OnAddSpawn"@[0] == 'O');
    assert("OnAddSpawn"@[2] == 'A');
    assert("OnRemoveSpawn"@.len() == 13);
    assert("OnRemoveSpawn"@[0] == 'O');
    assert("OnRemoveSpawn"@[2] == 'R');
    assert("OnAddGroundItem"@.len() == 15);
    assert("OnAddGroundItem"@[0] == 'O');
    assert("OnAddGroundItem"@[2] == 'A');
    assert("OnRemoveGroundItem"@.len() == 18);
    assert("OnRemoveGroundItem"@[0] == 'O');
    assert("OnRemoveGroundItem"@[2] == 'R');
    assert("OnBeginZone"@.len() == 11);
    assert("OnBeginZone"@[0] == 'O');
    assert("OnBeginZone"@[2] == 'B');
    assert("OnEndZone"@.len() == 9);
    assert("OnEndZone"@[0] == 'O');
    assert("OnEndZone"@[2] == 'E');
    assert("OnZoned"@.len() == 7);
    assert("OnZoned"@[0] == 'O');
    assert("OnZoned"@[2] == 'Z');
    assert("OnUpdateImGui"@.len() == 13);
    assert("OnUpdateImGui"@[0] == 'O');
    assert("OnUpdateImGui"@[2] == 'U');
    assert("OnMacroStart"@.len() == 12);
    assert("OnMacroStart"@[0] == 'O');
    assert("OnMacroStart"@[2] == 'M');
    assert("OnMacroStop"@.len() == 11);
    assert("OnMacroStop"@[0] == 'O');
    assert("OnMacroStop"@[2] == 'M');
    assert("OnLoadPlugin"@.len() == 12);
    assert("OnLoadPlugin"@[0] == 'O');
    assert("OnLoadPlugin"@[2] == 'L');
    assert("OnUnloadPlugin"@.len() == 14);
    assert("OnUnloadPlugin"@[0] == 'O');
    assert("OnUnloadPlugin"@[2] == 'U');
}

/// The bytes of a null-terminated C string argument: everything before the
/// first null byte, or the whole sequence when no null occurs.
pub open spec fn spec_c_prefix(bytes: Seq<u8>) -> Seq<u8> {
    match spec_find_byte(bytes, 0) {
        None => bytes,
        Some(i) => bytes.subrange(0, i),
    }
}

/// Decode the bytes of a "string" hook argument into native text.
///
/// Decoding is total: it reads the bytes up to the first null, substitutes
/// U+FFFD for invalid UTF-8 rather than failing, and completes for every
/// byte sequence the host may supply. On valid UTF-8 it is exactly the
/// decoded text.
pub fn decode_hook_string(bytes: &[u8]) -> (text: String)
    ensures
        text@ == lossy_decoded(spec_c_prefix(bytes@)),
        valid_utf8(spec_c_prefix(bytes@)) ==> text@ == decode_utf8(spec_c_prefix(bytes@)),
{
    let prefix: &[u8] = match find_byte_spec(0, bytes) {
        Some(i) => {
            proof {
                crate::text::lemma_find_byte(bytes@, 0);
            }
            &bytes[0..i]
        },
        None => bytes,
    };
    bytes_to_string_lossy(prefix)
}

/// The signed color domain that one historical chat hook receives as an
/// unsigned code: the 32 bits reinterpreted as a signed value. The host's
/// ABI is inconsistent here; the reinterpretation is the host contract, not
/// a defect to repair.
pub open spec fn spec_signed_of_unsigned(code: u32) -> i32 {
    if code < 0x8000_0000 {
        code as i32
    } else {
        (code - 0x1_0000_0000) as i32
    }
}

/// Reinterpret the unsigned color code of the incoming-chat hook in the
/// signed domain every sibling hook uses.
pub fn chat_color_from_unsigned(code: u32) -> (signed: i32)
    ensures
        signed == spec_signed_of_unsigned(code),
{
    if code < 0x8000_0000 {
        code as i32
    } else {
        -((0xFFFF_FFFFu32 - code) as i32) - 1
    }
}

/// The fault-isolation decision of every generated export: a dispatch that
/// ran yields its own value and no error; a dispatch that faulted yields
/// the hook's safe default and exactly one error event tagged with the
/// hook's export name. Nothing ever unwinds across the boundary.
pub fn export_outcome(kind: HookKind, result: Option<HookReturn>) -> (outcome: (
    HookReturn,
    Option<LogEvent>,
))
    ensures
        result matches Some(value) ==> outcome.0 == value && outcome.1 is None,
        result is None ==> outcome.0 == spec_safe_default(kind),
        result is None ==> (outcome.1 matches Some(event) && event.hook@ == spec_export_name(kind)
            && event.message@ == "caught an unwind"@),
{
    match result {
        Some(value) => (value, None),
        None => {
            let event = LogEvent {
                hook: export_name(kind).to_owned(),
                message: "caught an unwind".to_owned(),
            };
            (safe_default(kind), Some(event))
        },
    }
}

} // verus!
