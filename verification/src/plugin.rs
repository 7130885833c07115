//! The plugin lifecycle and runtime dispatch layer.
//!
//! A loaded library holds exactly one plugin instance, kept in a single-slot
//! holder. The holder's state machine is: unloaded (initial), loaded after a
//! successful attach, and unloaded again after detach. A second attach
//! without an intervening detach reports failure and leaves the stored
//! instance untouched; detach always succeeds. A hook dispatched while the
//! slot is empty produces an error event and the hook's safe default instead
//! of faulting.
//!
//! The holder here is a plain value; the glue layer that owns the
//! process-wide slot guards it with a lock so the one-time write, the
//! one-time clear, and concurrent reads cannot tear.

use vstd::prelude::*;

use crate::eq::{Channel, GameState, GroundItem, Spawn};
use crate::hook::{spec_export_name, HookKind, LogEvent};
use crate::{EQGroundItem, PlayerClient};

verus! {

/// The host ABI's reason code for a library being loaded into the process.
pub const DLL_PROCESS_ATTACH: u32 = 1;

/// The host ABI's reason code for a library being unloaded from the process.
pub const DLL_PROCESS_DETACH: u32 = 0;

/// Describes the reason that the plugin `main` function is being called.
#[derive(Copy, Clone, Debug, PartialEq, Eq, Structural)]
pub enum Reason {
    /// The library is being loaded into memory.
    Load,
    /// The library is being unloaded from memory.
    Unload,
}

/// Decode a lifecycle reason code from the host. Only the two ABI constants
/// are meaningful; every other code is unknown.
pub fn reason_from_code(code: u32) -> (reason: Option<Reason>)
    ensures
        reason == Some(Reason::Load) <==> code == DLL_PROCESS_ATTACH,
        reason == Some(Reason::Unload) <==> code == DLL_PROCESS_DETACH,
        reason is None <==> code != DLL_PROCESS_ATTACH && code != DLL_PROCESS_DETACH,
{
    if code == DLL_PROCESS_ATTACH {
        Some(Reason::Load)
    } else if code == DLL_PROCESS_DETACH {
        Some(Reason::Unload)
    } else {
        None
    }
}

/// Helper type that lets a plugin `main` function return either nothing or
/// a boolean: each variant is one supported return type, and both adapt
/// into the boolean the host expects from the lifecycle export.
#[derive(Copy, Clone, Debug, PartialEq, Eq, Structural)]
pub enum MainResult {
    /// The `main` function returned `()`.
    Unit,
    /// The `main` function returned a boolean.
    Bool(bool),
}

impl From<MainResult> for bool {
    /// Adapt a [`MainResult`] into the boolean handed back to the host: a
    /// unit result reports success; `false` makes the host unload the
    /// library immediately.
    fn from(value: MainResult) -> (r: bool) {
        match value {
            MainResult::Unit => true,
            MainResult::Bool(b) => b,
        }
    }
}

impl vstd::std_specs::convert::FromSpecImpl<MainResult> for bool {
    open spec fn obeys_from_spec() -> bool {
        true
    }

    open spec fn from_spec(value: MainResult) -> bool {
        match value {
            MainResult::Unit => true,
            MainResult::Bool(b) => b,
        }
    }
}

impl From<()> for MainResult {
    fn from(value: ()) -> (r: MainResult) {
        MainResult::Unit
    }
}

impl vstd::std_specs::convert::FromSpecImpl<()> for MainResult {
    open spec fn obeys_from_spec() -> bool {
        true
    }

    open spec fn from_spec(value: ()) -> MainResult {
        MainResult::Unit
    }
}

impl From<bool> for MainResult {
    fn from(value: bool) -> (r: MainResult) {
        MainResult::Bool(value)
    }
}

impl vstd::std_specs::convert::FromSpecImpl<bool> for MainResult {
    open spec fn obeys_from_spec() -> bool {
        true
    }

    open spec fn from_spec(value: bool) -> MainResult {
        MainResult::Bool(value)
    }
}

/// Provides a way to create the one process-wide instance of a plugin type.
pub trait New: Sized {
    /// Creates the new instance of the plugin type.
    fn new() -> Self;
}

/// The protocol a plugin implements: one method per callback kind, each
/// with a no-op default, so an implementation overrides only the hooks it
/// cares about. The scaffolding dispatches the matching generated export to
/// each method.
pub trait Plugin: New {
    /// Called once on plugin initialization; the startup routine.
    fn initialize(&mut self) {
    }

    /// Called once when the plugin has been asked to shut down.
    fn shutdown(&mut self) {
    }

    /// Called just before the UI system shuts down or is cleaned.
    fn on_clean_ui(&mut self) {
    }

    /// Called just after the UI system is loaded.
    fn on_reload_ui(&mut self) {
    }

    /// Called each time the heads-up display is drawn.
    fn on_draw_hud(&mut self) {
    }

    /// Called when the game state changes, with the decoded state.
    fn on_set_game_state(&mut self, state: GameState) {
    }

    /// Called on each pass through the host's heartbeat.
    fn on_pulse(&mut self) {
    }

    /// Called each time the host emits a line of chat, with the decoded
    /// line and channel.
    fn on_write_chat_color(&mut self, line: &str, color: Channel) {
    }

    /// Called each time a line of chat is displayed. Returns whether the
    /// host should suppress the line from normal display.
    fn on_incoming_chat(&mut self, line: &str, color: Channel) -> bool {
        false
    }

    /// Called each time a spawn is added to the zone.
    fn on_add_spawn(&mut self, spawn: &Spawn<'_>) {
    }

    /// Called each time a spawn is removed from the zone.
    fn on_remove_spawn(&mut self, spawn: &Spawn<'_>) {
    }

    /// Called each time a ground item is added to the zone.
    fn on_add_ground_item(&mut self, item: &GroundItem<'_>) {
    }

    /// Called each time a ground item is removed from the zone.
    fn on_remove_ground_item(&mut self, item: &GroundItem<'_>) {
    }

    /// Called just after entering a zone line, as the loading screen
    /// appears.
    fn on_begin_zone(&mut self) {
    }

    /// Called just after the loading screen, before the zone is fully
    /// loaded.
    fn on_end_zone(&mut self) {
    }

    /// Called after entering a new zone once the zone is loaded.
    fn on_zoned(&mut self) {
    }

    /// Called each time the overlay is rendered.
    fn on_update_imgui(&mut self) {
    }

    /// Called each time a macro starts, with the macro's name.
    fn on_macro_start(&mut self, name: &str) {
    }

    /// Called each time a macro stops, with the macro's name.
    fn on_macro_stop(&mut self, name: &str) {
    }

    /// Called each time any plugin is loaded, with that plugin's name.
    fn on_plugin_load(&mut self, name: &str) {
    }

    /// Called each time any plugin is unloaded, with that plugin's name.
    fn on_plugin_unload(&mut self, name: &str) {
    }
}

/// The single-slot holder for the process-wide plugin instance, together
/// with the dispatch of every generated export into the stored instance.
///
/// Its view is the slot's contents: `None` while unloaded, `Some` while
/// loaded. No dispatch ever loads or unloads the slot, and no dispatch on
/// an empty slot ever reaches plugin code.
pub struct PluginHandler<T: Plugin> {
    data: Option<T>,
}

impl<T: Plugin> View for PluginHandler<T> {
    type V = Option<T>;

    closed spec fn view(&self) -> Option<T> {
        self.data
    }
}

/// The error event reported when a hook export fires while no plugin
/// instance is stored.
pub open spec fn spec_missing_instance_event(kind: HookKind, event: LogEvent) -> bool {
    event.hook@ == spec_export_name(kind) && event.message@
        == "hook called without plugin initialized"@
}

impl<T: Plugin> PluginHandler<T> {
    /// An empty holder: the lifecycle starts unloaded.
    pub fn new() -> (handler: PluginHandler<T>)
        ensures
            handler@ is None,
    {
        PluginHandler { data: None }
    }

    /// Put the given contents in the slot, dropping whatever was there.
    pub fn replace(&mut self, new: Option<T>)
        ensures
            final(self)@ == new,
    {
        self.data = new;
    }

    /// The attach transition: construct the instance and store it exactly
    /// once. A second attach without an intervening detach reports failure
    /// and leaves the already-stored instance in place.
    pub fn attach(&mut self) -> (ok: bool)
        ensures
            old(self)@ is None ==> ok && final(self)@ is Some,
            old(self)@ is Some ==> !ok && final(self)@ == old(self)@,
    {
        match self.data {
            Some(_) => false,
            None => {
                self.data = Some(T::new());
                true
            },
        }
    }

    /// The detach transition: clear the slot. Always succeeds.
    pub fn detach(&mut self)
        ensures
            final(self)@ is None,
    {
        self.data = None;
    }

    /// Dispatch outcome bookkeeping shared by every hook method below: the
    /// slot never changes, and an error event tagged with the hook's export
    /// name is produced exactly when the slot is empty.
    fn missing(&self, kind: HookKind) -> (event: LogEvent)
        ensures
            spec_missing_instance_event(kind, event),
    {
        LogEvent {
            hook: crate::hook::export_name(kind).to_owned(),
            message: "hook called without plugin initialized".to_owned(),
        }
    }

    /// Dispatch the `InitializePlugin` export.
    pub fn initialize(&mut self) -> (err: Option<LogEvent>)
        ensures
            final(self)@ is Some <==> old(self)@ is Some,
            old(self)@ is Some <==> err is None,
            err matches Some(event) ==> spec_missing_instance_event(
                HookKind::InitializePlugin,
                event,
            ),
    {
        match &mut self.data {
            Some(plugin) => {
                plugin.initialize();
                None
            },
            None => Some(self.missing(HookKind::InitializePlugin)),
        }
    }

    /// Dispatch the `ShutdownPlugin` export.
    pub fn shutdown(&mut self) -> (err: Option<LogEvent>)
        ensures
            final(self)@ is Some <==> old(self)@ is Some,
            old(self)@ is Some <==> err is None,
            err matches Some(event) ==> spec_missing_instance_event(HookKind::ShutdownPlugin, event),
    {
        match &mut self.data {
            Some(plugin) => {
                plugin.shutdown();
                None
            },
            None => Some(self.missing(HookKind::ShutdownPlugin)),
        }
    }

    /// Dispatch the `OnCleanUI` export.
    pub fn on_clean_ui(&mut self) -> (err: Option<LogEvent>)
        ensures
            final(self)@ is Some <==> old(self)@ is Some,
            old(self)@ is Some <==> err is None,
            err matches Some(event) ==> spec_missing_instance_event(HookKind::OnCleanUI, event),
    {
        match &mut self.data {
            Some(plugin) => {
                plugin.on_clean_ui();
                None
            },
            None => Some(self.missing(HookKind::OnCleanUI)),
        }
    }

    /// Dispatch the `OnReloadUI` export.
    pub fn on_reload_ui(&mut self) -> (err: Option<LogEvent>)
        ensures
            final(self)@ is Some <==> old(self)@ is Some,
            old(self)@ is Some <==> err is None,
            err matches Some(event) ==> spec_missing_instance_event(HookKind::OnReloadUI, event),
    {
        match &mut self.data {
            Some(plugin) => {
                plugin.on_reload_ui();
                None
            },
            None => Some(self.missing(HookKind::OnReloadUI)),
        }
    }

    /// Dispatch the `OnDrawHUD` export.
    pub fn on_draw_hud(&mut self) -> (err: Option<LogEvent>)
        ensures
            final(self)@ is Some <==> old(self)@ is Some,
            old(self)@ is Some <==> err is None,
            err matches Some(event) ==> spec_missing_instance_event(HookKind::OnDrawHUD, event),
    {
        match &mut self.data {
            Some(plugin) => {
                plugin.on_draw_hud();
                None
            },
            None => Some(self.missing(HookKind::OnDrawHUD)),
        }
    }

    /// Dispatch the `SetGameState` export: the raw state code decodes
    /// totally, unknown codes included, before reaching the plugin.
    pub fn on_set_game_state(&mut self, state: i32) -> (err: Option<LogEvent>)
        ensures
            final(self)@ is Some <==> old(self)@ is Some,
            old(self)@ is Some <==> err is None,
            err matches Some(event) ==> spec_missing_instance_event(HookKind::SetGameState, event),
    {
        match &mut self.data {
            Some(plugin) => {
                plugin.on_set_game_state(GameState::from(state));
                None
            },
            None => Some(self.missing(HookKind::SetGameState)),
        }
    }

    /// Dispatch the `OnPulse` export.
    pub fn on_pulse(&mut self) -> (err: Option<LogEvent>)
        ensures
            final(self)@ is Some <==> old(self)@ is Some,
            old(self)@ is Some <==> err is None,
            err matches Some(event) ==> spec_missing_instance_event(HookKind::OnPulse, event),
    {
        match &mut self.data {
            Some(plugin) => {
                plugin.on_pulse();
                None
            },
            None => Some(self.missing(HookKind::OnPulse)),
        }
    }

    /// Dispatch the `OnWriteChatColor` export: the host-owned line is
    /// borrowed only for this call and decodes lossily, and the signed
    /// channel code decodes totally. The host's trailing filter parameter
    /// is unused, per the host contract.
    pub fn on_write_chat_color(&mut self, line: &[u8], color: i32, _filter: i32) -> (err: Option<
        LogEvent,
    >)
        ensures
            final(self)@ is Some <==> old(self)@ is Some,
            old(self)@ is Some <==> err is None,
            err matches Some(event) ==> spec_missing_instance_event(
                HookKind::OnWriteChatColor,
                event,
            ),
    {
        match &mut self.data {
            Some(plugin) => {
                let text = crate::hook::decode_hook_string(line);
                plugin.on_write_chat_color(text.as_str(), Channel::from(color));
                None
            },
            None => Some(self.missing(HookKind::OnWriteChatColor)),
        }
    }

    /// Dispatch the `OnIncomingChat` export: the host-owned line is
    /// borrowed only for this call and decodes lossily, and the unsigned
    /// channel code is reinterpreted in the signed domain before decoding.
    /// While the slot is empty the answer is the safe default: do not
    /// suppress the line.
    pub fn on_incoming_chat(&mut self, line: &[u8], color: u32) -> (r: (bool, Option<LogEvent>))
        ensures
            final(self)@ is Some <==> old(self)@ is Some,
            old(self)@ is Some <==> r.1 is None,
            old(self)@ is None ==> r.0 == false,
            r.1 matches Some(event) ==> spec_missing_instance_event(HookKind::OnIncomingChat, event),
    {
        match &mut self.data {
            Some(plugin) => {
                let text = crate::hook::decode_hook_string(line);
                let signed = crate::hook::chat_color_from_unsigned(color);
                let suppress = plugin.on_incoming_chat(text.as_str(), Channel::from(signed));
                (suppress, None)
            },
            None => (false, Some(self.missing(HookKind::OnIncomingChat))),
        }
    }

    /// Dispatch the `OnAddSpawn` export: the host record is projected into
    /// a borrowed read-only view for the duration of the call.
    pub fn on_add_spawn(&mut self, record: &PlayerClient) -> (err: Option<LogEvent>)
        ensures
            final(self)@ is Some <==> old(self)@ is Some,
            old(self)@ is Some <==> err is None,
            err matches Some(event) ==> spec_missing_instance_event(HookKind::OnAddSpawn, event),
    {
        match &mut self.data {
            Some(plugin) => {
                let spawn = Spawn::new(record);
                plugin.on_add_spawn(&spawn);
                None
            },
            None => Some(self.missing(HookKind::OnAddSpawn)),
        }
    }

    /// Dispatch the `OnRemoveSpawn` export: the host record is projected
    /// into a borrowed read-only view for the duration of the call.
    pub fn on_remove_spawn(&mut self, record: &PlayerClient) -> (err: Option<LogEvent>)
        ensures
            final(self)@ is Some <==> old(self)@ is Some,
            old(self)@ is Some <==> err is None,
            err matches Some(event) ==> spec_missing_instance_event(HookKind::OnRemoveSpawn, event),
    {
        match &mut self.data {
            Some(plugin) => {
                let spawn = Spawn::new(record);
                plugin.on_remove_spawn(&spawn);
                None
            },
            None => Some(self.missing(HookKind::OnRemoveSpawn)),
        }
    }

    /// Dispatch the `OnAddGroundItem` export: the host record is projected
    /// into a borrowed read-only view for the duration of the call.
    pub fn on_add_ground_item(&mut self, record: &EQGroundItem) -> (err: Option<LogEvent>)
        ensures
            final(self)@ is Some <==> old(self)@ is Some,
            old(self)@ is Some <==> err is None,
            err matches Some(event) ==> spec_missing_instance_event(
                HookKind::OnAddGroundItem,
                event,
            ),
    {
        match &mut self.data {
            Some(plugin) => {
                let item = GroundItem::new(record);
                plugin.on_add_ground_item(&item);
                None
            },
            None => Some(self.missing(HookKind::OnAddGroundItem)),
        }
    }

    /// Dispatch the `OnRemoveGroundItem` export: the host record is
    /// projected into a borrowed read-only view for the duration of the
    /// call.
    pub fn on_remove_ground_item(&mut self, record: &EQGroundItem) -> (err: Option<LogEvent>)
        ensures
            final(self)@ is Some <==> old(self)@ is Some,
            old(self)@ is Some <==> err is None,
            err matches Some(event) ==> spec_missing_instance_event(
                HookKind::OnRemoveGroundItem,
                event,
            ),
    {
        match &mut self.data {
            Some(plugin) => {
                let item = GroundItem::new(record);
                plugin.on_remove_ground_item(&item);
                None
            },
            None => Some(self.missing(HookKind::OnRemoveGroundItem)),
        }
    }

    /// Dispatch the `OnBeginZone` export.
    pub fn on_begin_zone(&mut self) -> (err: Option<LogEvent>)
        ensures
            final(self)@ is Some <==> old(self)@ is Some,
            old(self)@ is Some <==> err is None,
            err matches Some(event) ==> spec_missing_instance_event(HookKind::OnBeginZone, event),
    {
        match &mut self.data {
            Some(plugin) => {
                plugin.on_begin_zone();
                None
            },
            None => Some(self.missing(HookKind::OnBeginZone)),
        }
    }

    /// Dispatch the `OnEndZone` export.
    pub fn on_end_zone(&mut self) -> (err: Option<LogEvent>)
        ensures
            final(self)@ is Some <==> old(self)@ is Some,
            old(self)@ is Some <==> err is None,
            err matches Some(event) ==> spec_missing_instance_event(HookKind::OnEndZone, event),
    {
        match &mut self.data {
            Some(plugin) => {
                plugin.on_end_zone();
                None
            },
            None => Some(self.missing(HookKind::OnEndZone)),
        }
    }

    /// Dispatch the `OnZoned` export.
    pub fn on_zoned(&mut self) -> (err: Option<LogEvent>)
        ensures
            final(self)@ is Some <==> old(self)@ is Some,
            old(self)@ is Some <==> err is None,
            err matches Some(event) ==> spec_missing_instance_event(HookKind::OnZoned, event),
    {
        match &mut self.data {
            Some(plugin) => {
                plugin.on_zoned();
                None
            },
            None => Some(self.missing(HookKind::OnZoned)),
        }
    }

    /// Dispatch the `OnUpdateImGui` export.
    pub fn on_update_imgui(&mut self) -> (err: Option<LogEvent>)
        ensures
            final(self)@ is Some <==> old(self)@ is Some,
            old(self)@ is Some <==> err is None,
            err matches Some(event) ==> spec_missing_instance_event(HookKind::OnUpdateImGui, event),
    {
        match &mut self.data {
            Some(plugin) => {
                plugin.on_update_imgui();
                None
            },
            None => Some(self.missing(HookKind::OnUpdateImGui)),
        }
    }

    /// Dispatch the `OnMacroStart` export: the host-owned name is borrowed
    /// only for this call and decodes lossily.
    pub fn on_macro_start(&mut self, name: &[u8]) -> (err: Option<LogEvent>)
        ensures
            final(self)@ is Some <==> old(self)@ is Some,
            old(self)@ is Some <==> err is None,
            err matches Some(event) ==> spec_missing_instance_event(HookKind::OnMacroStart, event),
    {
        match &mut self.data {
            Some(plugin) => {
                let text = crate::hook::decode_hook_string(name);
                plugin.on_macro_start(text.as_str());
                None
            },
            None => Some(self.missing(HookKind::OnMacroStart)),
        }
    }

    /// Dispatch the `OnMacroStop` export: the host-owned name is borrowed
    /// only for this call and decodes lossily.
    pub fn on_macro_stop(&mut self, name: &[u8]) -> (err: Option<LogEvent>)
        ensures
            final(self)@ is Some <==> old(self)@ is Some,
            old(self)@ is Some <==> err is None,
            err matches Some(event) ==> spec_missing_instance_event(HookKind::OnMacroStop, event),
    {
        match &mut self.data {
            Some(plugin) => {
                let text = crate::hook::decode_hook_string(name);
                plugin.on_macro_stop(text.as_str());
                None
            },
            None => Some(self.missing(HookKind::OnMacroStop)),
        }
    }

    /// Dispatch the `OnLoadPlugin` export: the host-owned name is borrowed
    /// only for this call and decodes lossily.
    pub fn on_plugin_load(&mut self, name: &[u8]) -> (err: Option<LogEvent>)
        ensures
            final(self)@ is Some <==> old(self)@ is Some,
            old(self)@ is Some <==> err is None,
            err matches Some(event) ==> spec_missing_instance_event(HookKind::OnLoadPlugin, event),
    {
        match &mut self.data {
            Some(plugin) => {
                let text = crate::hook::decode_hook_string(name);
                plugin.on_plugin_load(text.as_str());
                None
            },
            None => Some(self.missing(HookKind::OnLoadPlugin)),
        }
    }

    /// Dispatch the `OnUnloadPlugin` export: the host-owned name is
    /// borrowed only for this call and decodes lossily.
    pub fn on_plugin_unload(&mut self, name: &[u8]) -> (err: Option<LogEvent>)
        ensures
            final(self)@ is Some <==> old(self)@ is Some,
            old(self)@ is Some <==> err is None,
            err matches Some(event) ==> spec_missing_instance_event(HookKind::OnUnloadPlugin, event),
    {
        match &mut self.data {
            Some(plugin) => {
                let text = crate::hook::decode_hook_string(name);
                plugin.on_plugin_unload(text.as_str());
                None
            },
            None => Some(self.missing(HookKind::OnUnloadPlugin)),
        }
    }
}

/// The decision a plugin's generated `main` makes for each lifecycle
/// reason: on load, attach the instance, reporting failure when one is
/// already stored; on unload, clear the slot and report success.
pub fn plugin_main<T: Plugin>(handler: &mut PluginHandler<T>, reason: Reason) -> (ok: bool)
    ensures
        reason == Reason::Load && old(handler)@ is None ==> ok && final(handler)@ is Some,
        reason == Reason::Load && old(handler)@ is Some ==> !ok && final(handler)@ == old(handler)@,
        reason == Reason::Unload ==> ok && final(handler)@ is None,
{
    match reason {
        Reason::Load => handler.attach(),
        Reason::Unload => {
            handler.detach();
            true
        },
    }
}

/// The decision the lifecycle export makes for a raw host reason code:
/// decode the code, run [`plugin_main`] on a known reason, and report
/// failure — with an error event and no state change — on an unknown one.
/// A failed attach likewise reports failure and leaves the stored instance
/// untouched.
pub fn dll_main<T: Plugin>(handler: &mut PluginHandler<T>, reason_code: u32) -> (r: (
    bool,
    Option<LogEvent>,
))
    ensures
        reason_code == DLL_PROCESS_ATTACH && old(handler)@ is None ==> r.0 && final(handler)@
            is Some,
        reason_code == DLL_PROCESS_ATTACH && old(handler)@ is Some ==> !r.0 && final(handler)@
            == old(handler)@,
        reason_code == DLL_PROCESS_DETACH ==> r.0 && final(handler)@ is None,
        reason_code != DLL_PROCESS_ATTACH && reason_code != DLL_PROCESS_DETACH ==> !r.0
            && final(handler)@ == old(handler)@,
        r.1 is Some <==> !r.0,
        r.1 matches Some(event) ==> event.hook@ == "DllMain"@,
{
    match reason_from_code(reason_code) {
        Some(reason) => {
            let ok = plugin_main(handler, reason);
            if ok {
                (true, None)
            } else {
                let event = LogEvent {
                    hook: "DllMain".to_owned(),
                    message: "there was already a plugin instance set".to_owned(),
                };
                (false, Some(event))
            }
        },
        None => {
            let event = LogEvent {
                hook: "DllMain".to_owned(),
                message: "unknown reason in DllMain".to_owned(),
            };
            (false, Some(event))
        },
    }
}

} // verus!
