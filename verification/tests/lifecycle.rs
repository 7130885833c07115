use macroquest::eq::{Channel, GameState, GroundItem, Spawn};
use macroquest::plugin::{
    dll_main, plugin_main, reason_from_code, MainResult, New, Plugin, PluginHandler, Reason,
    DLL_PROCESS_ATTACH, DLL_PROCESS_DETACH,
};
use macroquest::{EQGroundItem, PlayerClient};

#[derive(Debug, Default)]
struct Recorder {
    events: Vec<String>,
}

impl New for Recorder {
    fn new() -> Self {
        Recorder::default()
    }
}

impl Plugin for Recorder {
    fn initialize(&mut self) {
        self.events.push("initialize".to_string());
    }

    fn on_set_game_state(&mut self, state: GameState) {
        self.events.push(format!("game_state {:?}", state));
    }

    fn on_write_chat_color(&mut self, line: &str, color: Channel) {
        self.events.push(format!("write_chat {line} {color:?}"));
    }

    fn on_incoming_chat(&mut self, line: &str, color: Channel) -> bool {
        self.events.push(format!("incoming_chat {line} {color:?}"));
        line == "secret"
    }

    fn on_add_spawn(&mut self, spawn: &Spawn<'_>) {
        self.events.push(format!("add_spawn {}", spawn.name()));
    }

    fn on_add_ground_item(&mut self, item: &GroundItem<'_>) {
        self.events.push(format!("add_ground_item {}", item.name()));
    }

    fn on_macro_start(&mut self, name: &str) {
        self.events.push(format!("macro_start {name}"));
    }
}

#[test]
fn test_attach_then_detach() {
    let mut handler: PluginHandler<Recorder> = PluginHandler::new();
    assert!(handler.attach());
    assert!(handler.initialize().is_none());
    handler.detach();
    assert!(handler.initialize().is_some());
}

#[test]
fn test_double_attach_reports_failure() {
    let mut handler: PluginHandler<Recorder> = PluginHandler::new();
    let (ok, event) = dll_main(&mut handler, DLL_PROCESS_ATTACH);
    assert!(ok);
    assert!(event.is_none());

    // A second attach without an intervening detach must fail and must not
    // replace the stored instance.
    assert!(handler.on_macro_start(b"startup.mac\0").is_none());
    let (ok, event) = dll_main(&mut handler, DLL_PROCESS_ATTACH);
    assert!(!ok);
    let event = event.unwrap();
    assert_eq!(event.hook, "DllMain");

    // The slot is still occupied after the failed attach; clearing it by
    // hand empties it.
    handler.replace(None);
    assert!(handler.on_pulse().is_some());
}

#[test]
fn test_dispatch_before_attach_returns_safe_default() {
    let mut handler: PluginHandler<Recorder> = PluginHandler::new();

    let event = handler.on_set_game_state(5).unwrap();
    assert_eq!(event.hook, "SetGameState");
    assert_eq!(event.message, "hook called without plugin initialized");

    let (suppress, event) = handler.on_incoming_chat(b"hail\0", 256);
    assert!(!suppress);
    assert_eq!(event.unwrap().hook, "OnIncomingChat");

    let event = handler.on_write_chat_color(b"hail\0", 256, 0).unwrap();
    assert_eq!(event.hook, "OnWriteChatColor");

    let record = PlayerClient {
        name: "Vanilla".to_string(),
    };
    let event = handler.on_add_spawn(&record).unwrap();
    assert_eq!(event.hook, "OnAddSpawn");
}

#[test]
fn test_dispatch_reaches_the_plugin() {
    let mut handler: PluginHandler<Recorder> = PluginHandler::new();
    assert!(handler.attach());

    assert!(handler.initialize().is_none());
    assert!(handler.on_set_game_state(5).is_none());
    assert!(handler.on_set_game_state(42).is_none());

    let (suppress, event) = handler.on_incoming_chat(b"secret\0", 256);
    assert!(suppress);
    assert!(event.is_none());

    let (suppress, _) = handler.on_incoming_chat(b"hail\0", u32::MAX);
    assert!(!suppress);

    let spawn = PlayerClient {
        name: "Fippy".to_string(),
    };
    assert!(handler.on_add_spawn(&spawn).is_none());

    let item = EQGroundItem {
        name: "a rusty sword".to_string(),
    };
    assert!(handler.on_add_ground_item(&item).is_none());

    assert!(handler.on_macro_start(b"startup.mac\0").is_none());
}

#[test]
fn test_dll_main_detach_clears_the_slot() {
    let mut handler: PluginHandler<Recorder> = PluginHandler::new();
    assert!(handler.attach());
    let (ok, event) = dll_main(&mut handler, DLL_PROCESS_DETACH);
    assert!(ok);
    assert!(event.is_none());
    assert!(handler.on_pulse().is_some());

    // After detach, attach succeeds again.
    let (ok, _) = dll_main(&mut handler, DLL_PROCESS_ATTACH);
    assert!(ok);
}

#[test]
fn test_dll_main_unknown_reason() {
    let mut handler: PluginHandler<Recorder> = PluginHandler::new();
    let (ok, event) = dll_main(&mut handler, 7);
    assert!(!ok);
    let event = event.unwrap();
    assert_eq!(event.hook, "DllMain");
    assert_eq!(event.message, "unknown reason in DllMain");
    // The slot is untouched: a later attach still succeeds.
    assert!(handler.attach());
}

#[test]
fn test_plugin_main_transitions() {
    let mut handler: PluginHandler<Recorder> = PluginHandler::new();
    assert!(plugin_main(&mut handler, Reason::Load));
    assert!(!plugin_main(&mut handler, Reason::Load));
    assert!(plugin_main(&mut handler, Reason::Unload));
    assert!(plugin_main(&mut handler, Reason::Load));
}

#[test]
fn test_reason_from_code() {
    assert_eq!(reason_from_code(1), Some(Reason::Load));
    assert_eq!(reason_from_code(0), Some(Reason::Unload));
    assert_eq!(reason_from_code(2), None);
    assert_eq!(reason_from_code(u32::MAX), None);
}

#[test]
fn test_main_result_conversions() {
    assert!(bool::from(MainResult::Unit));
    assert!(bool::from(MainResult::Bool(true)));
    assert!(!bool::from(MainResult::Bool(false)));
    assert_eq!(MainResult::from(()), MainResult::Unit);
    assert_eq!(MainResult::from(true), MainResult::Bool(true));
    assert_eq!(MainResult::from(false), MainResult::Bool(false));
}

#[test]
fn test_record_views_borrow_the_record() {
    let record = PlayerClient {
        name: "Fippy".to_string(),
    };
    let spawn = Spawn::new(&record);
    assert_eq!(spawn.name(), "Fippy");

    let record = EQGroundItem {
        name: "a rusty sword".to_string(),
    };
    let item = GroundItem::new(&record);
    assert_eq!(item.name(), "a rusty sword");

    let plugin = macroquest::MQPlugin {
        name: "sample".to_string(),
    };
    assert_eq!(plugin.plugin_name(), "sample");
}
