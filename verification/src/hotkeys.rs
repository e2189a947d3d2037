//! Key combinations and the actions that they trigger.

use vstd::prelude::*;
use crate::registry::lemma_distinct_kept;
use crate::registry::lemma_index_of;
use crate::registry::lemma_index_of_is;
use crate::registry::spec_distinct;
use crate::registry::spec_index_of;
use crate::text::clone_texts;
use crate::text::join;
use crate::text::same_text;
use crate::text::spec_join;
use crate::text::text_views;
use crate::HotkeyConfig;

verus! {

/// What a key combination says, with its texts as sequences of characters.
pub struct HotkeyConfigView {
    pub key: Seq<char>,
    pub modifiers: Seq<Seq<char>>,
    pub action: Seq<char>,
    pub enabled: bool,
}

impl View for HotkeyConfig {
    type V = HotkeyConfigView;

    open spec fn view(&self) -> HotkeyConfigView {
        HotkeyConfigView {
            key: self.key@,
            modifiers: text_views(self.modifiers@),
            action: self.action@,
            enabled: self.enabled,
        }
    }
}

impl Clone for HotkeyConfig {
    fn clone(&self) -> (res: Self)
        ensures
            res@ == self@,
    {
        HotkeyConfig {
            key: self.key.clone(),
            modifiers: clone_texts(&self.modifiers),
            action: self.action.clone(),
            enabled: self.enabled,
        }
    }
}

/// The name under which a key combination is registered: its modifiers and
/// then its key, with a plus sign after each modifier.
pub open spec fn spec_hotkey_id(modifiers: Seq<Seq<char>>, key: Seq<char>) -> Seq<char> {
    spec_join(modifiers, "+"@) + "+"@ + key
}

/// The name under which `config` is registered.
pub fn hotkey_id(config: &HotkeyConfig) -> (id: String)
    ensures
        id@ == spec_hotkey_id(text_views(config.modifiers@), config.key@),
{
    let mut id = join(&config.modifiers, "+");
    id.append("+");
    id.append(config.key.as_str());
    id
}

/// What a hotkey can trigger.
#[derive(Debug, Clone, Copy, PartialEq, Eq, Structural)]
pub enum HotkeyAction {
    LockCursor,
    UnlockCursor,
    ToggleConnection,
    SwitchScreen,
    EmergencyDisconnect,
}

impl HotkeyAction {
    /// The action that a name stands for; other names stand for none.
    pub open spec fn spec_from_name(name: Seq<char>) -> Option<HotkeyAction> {
        if name == "lock_cursor"@ {
            Some(HotkeyAction::LockCursor)
        } else if name == "unlock_cursor"@ {
            Some(HotkeyAction::UnlockCursor)
        } else if name == "toggle_connection"@ {
            Some(HotkeyAction::ToggleConnection)
        } else if name == "switch_screen"@ {
            Some(HotkeyAction::SwitchScreen)
        } else if name == "emergency_disconnect"@ {
            Some(HotkeyAction::EmergencyDisconnect)
        } else {
            None
        }
    }
}

/// One registered key combination, under its name.
#[derive(Debug, PartialEq, Eq)]
pub struct HotkeyEntry {
    pub id: String,
    pub config: HotkeyConfig,
}

/// The names of the entries, in the same order.
pub open spec fn entry_ids(entries: Seq<HotkeyEntry>) -> Seq<Seq<char>> {
    entries.map_values(|e: HotkeyEntry| e.id@)
}

/// The entries after `entry` has been registered: it takes the place of the
/// entry of its name, or goes last where no entry has that name.
pub open spec fn spec_register(entries: Seq<HotkeyEntry>, entry: HotkeyEntry) -> Seq<HotkeyEntry> {
    match spec_index_of(entry_ids(entries), entry.id@) {
        Some(i) => entries.update(i, entry),
        None => entries.push(entry),
    }
}

/// The entries after the name `id` has been unregistered: the entry of that
/// name is gone, and the others keep their order.
pub open spec fn spec_unregister(entries: Seq<HotkeyEntry>, id: Seq<char>) -> Seq<HotkeyEntry> {
    match spec_index_of(entry_ids(entries), id) {
        Some(i) => entries.remove(i),
        None => entries,
    }
}

/// Registering and unregistering keep the names distinct, and a name that was
/// unregistered is registered no more.
pub proof fn lemma_registry_stays_distinct(entries: Seq<HotkeyEntry>, entry: HotkeyEntry)
    requires
        spec_distinct(entry_ids(entries)),
    ensures
        spec_distinct(entry_ids(spec_register(entries, entry))),
        spec_distinct(entry_ids(spec_unregister(entries, entry.id@))),
        spec_index_of(entry_ids(spec_unregister(entries, entry.id@)), entry.id@) is None,
{
    let ids = entry_ids(entries);
    lemma_distinct_kept(ids, entry.id@);
    lemma_index_of(ids, entry.id@);
    match spec_index_of(ids, entry.id@) {
        Some(i) => {
            assert(entry_ids(entries.update(i, entry)) == ids.update(i, entry.id@));
            assert(entry_ids(entries.remove(i)) == ids.remove(i));
        },
        None => {
            assert(entry_ids(entries.push(entry)) == ids.push(entry.id@));
        },
    }
}

/// The registry of key combinations.
#[derive(Debug)]
pub struct HotkeyManager {
    pub registered_hotkeys: Vec<HotkeyEntry>,
    pub global_hotkey_enabled: bool,
}

impl HotkeyManager {
    /// No two registered combinations have the same name.
    pub open spec fn wf(&self) -> bool {
        spec_distinct(entry_ids(self.registered_hotkeys@))
    }

    /// An empty registry, switched on.
    pub fn new() -> (manager: Self)
        ensures
            manager.registered_hotkeys@ == Seq::<HotkeyEntry>::empty(),
            manager.global_hotkey_enabled,
            manager.wf(),
    {
        HotkeyManager { registered_hotkeys: Vec::new(), global_hotkey_enabled: true }
    }

    /// The position of the combination named `id`, if it is registered.
    pub fn position(&self, id: &String) -> (found: Option<usize>)
        ensures
            match found {
                Some(i) => spec_index_of(entry_ids(self.registered_hotkeys@), id@) == Some(
                    i as int,
                ) && i < self.registered_hotkeys@.len(),
                None => spec_index_of(entry_ids(self.registered_hotkeys@), id@) is None,
            },
    {
        let n = self.registered_hotkeys.len();
        let ghost ids = entry_ids(self.registered_hotkeys@);
        let mut i: usize = 0;
        while i < n
            invariant
                i <= n,
                n == self.registered_hotkeys@.len(),
                ids == entry_ids(self.registered_hotkeys@),
                forall|j: int| 0 <= j < i ==> #[trigger] ids[j] != id@,
            decreases n - i,
        {
            if self.registered_hotkeys[i].id == *id {
                proof {
                    lemma_index_of_is(ids, id@, Some(i as int));
                }
                return Some(i);
            }
            i = i + 1;
        }
        proof {
            lemma_index_of_is(ids, id@, None);
        }
        None
    }

    /// Registers `config` under its name, in the place of a combination of
    /// the same name if there is one. Yields the name.
    pub fn register_hotkey(&mut self, config: HotkeyConfig) -> (id: String)
        ensures
            id@ == spec_hotkey_id(text_views(config.modifiers@), config.key@),
            exists|entry: HotkeyEntry|
                entry.id@ == id@ && entry.config == config && final(self).registered_hotkeys@
                    == #[trigger] spec_register(old(self).registered_hotkeys@, entry),
            final(self).global_hotkey_enabled == old(self).global_hotkey_enabled,
            old(self).wf() ==> final(self).wf(),
    {
        let id = hotkey_id(&config);
        let entry = HotkeyEntry { id: id.clone(), config };
        let ghost witness = entry;
        proof {
            lemma_registry_stays_distinct_if(self.registered_hotkeys@, entry);
        }
        match self.position(&id) {
            Some(i) => {
                self.registered_hotkeys.set(i, entry);
            },
            None => {
                self.registered_hotkeys.push(entry);
            },
        }
        assert(self.registered_hotkeys@ == spec_register(old(self).registered_hotkeys@, witness));
        id
    }

    /// Takes the combination named `key` out of the registry, if it is there.
    pub fn unregister_hotkey(&mut self, key: String)
        ensures
            final(self).registered_hotkeys@ == spec_unregister(old(self).registered_hotkeys@, key@),
            final(self).global_hotkey_enabled == old(self).global_hotkey_enabled,
            old(self).wf() ==> final(self).wf(),
    {
        proof {
            let probe = HotkeyEntry { id: key, config: arbitrary() };
            lemma_registry_stays_distinct_if(self.registered_hotkeys@, probe);
        }
        match self.position(&key) {
            Some(i) => {
                let _ = self.registered_hotkeys.remove(i);
            },
            None => {},
        }
    }

    /// The registered combinations, in the order of their first registration.
    pub fn get_registered_hotkeys(&self) -> (configs: Vec<HotkeyConfig>)
        ensures
            configs@.len() == self.registered_hotkeys@.len(),
            forall|i: int|
                0 <= i < configs@.len() ==> (#[trigger] configs@[i])@
                    == self.registered_hotkeys@[i].config@,
    {
        let mut configs: Vec<HotkeyConfig> = Vec::new();
        let n = self.registered_hotkeys.len();
        let mut i: usize = 0;
        while i < n
            invariant
                i <= n,
                n == self.registered_hotkeys@.len(),
                configs@.len() == i,
                forall|j: int|
                    0 <= j < i ==> (#[trigger] configs@[j])@
                        == self.registered_hotkeys@[j].config@,
            decreases n - i,
        {
            configs.push(self.registered_hotkeys[i].config.clone());
            i = i + 1;
        }
        configs
    }

    /// The action that the name `action` stands for, if it stands for one.
    pub fn handle_hotkey_action(action: &str) -> (known: Option<HotkeyAction>)
        ensures
            known == HotkeyAction::spec_from_name(action@),
    {
        let name = action.to_string();
        if same_text(&name, "lock_cursor") {
            Some(HotkeyAction::LockCursor)
        } else if same_text(&name, "unlock_cursor") {
            Some(HotkeyAction::UnlockCursor)
        } else if same_text(&name, "toggle_connection") {
            Some(HotkeyAction::ToggleConnection)
        } else if same_text(&name, "switch_screen") {
            Some(HotkeyAction::SwitchScreen)
        } else if same_text(&name, "emergency_disconnect") {
            Some(HotkeyAction::EmergencyDisconnect)
        } else {
            None
        }
    }
}

/// As `lemma_registry_stays_distinct`, for a registry that may hold a name twice.
proof fn lemma_registry_stays_distinct_if(entries: Seq<HotkeyEntry>, entry: HotkeyEntry)
    ensures
        spec_distinct(entry_ids(entries)) ==> spec_distinct(
            entry_ids(spec_register(entries, entry)),
        ) && spec_distinct(entry_ids(spec_unregister(entries, entry.id@))),
{
    if spec_distinct(entry_ids(entries)) {
        lemma_registry_stays_distinct(entries, entry);
    }
}

/// One key combination with the modifiers `first` and `second`.
fn hotkey(key: &str, first: &str, second: &str, action: &str) -> (config: HotkeyConfig)
    ensures
        config@ == spec_hotkey(key@, first@, second@, action@),
{
    let mut modifiers: Vec<String> = Vec::new();
    modifiers.push(first.to_string());
    modifiers.push(second.to_string());
    assert(text_views(modifiers@) == seq![first@, second@]);
    HotkeyConfig { key: key.to_string(), modifiers, action: action.to_string(), enabled: true }
}

/// An enabled key combination with two modifiers.
pub open spec fn spec_hotkey(key: Seq<char>, first: Seq<char>, second: Seq<char>, action: Seq<char>)
    -> HotkeyConfigView {
    HotkeyConfigView { key, modifiers: seq![first, second], action, enabled: true }
}

/// What each key combination of a sequence says, in the same order.
pub open spec fn hotkey_views(configs: Seq<HotkeyConfig>) -> Seq<HotkeyConfigView> {
    configs.map_values(|c: HotkeyConfig| c@)
}

/// The key combinations that a host starts out with.
pub open spec fn spec_default_hotkeys() -> Seq<HotkeyConfigView> {
    seq![
        spec_hotkey("L"@, "Ctrl"@, "Shift"@, "lock_cursor"@),
        spec_hotkey("U"@, "Ctrl"@, "Shift"@, "unlock_cursor"@),
        spec_hotkey("C"@, "Ctrl"@, "Alt"@, "toggle_connection"@),
        spec_hotkey("S"@, "Ctrl"@, "Alt"@, "switch_screen"@),
        spec_hotkey("Escape"@, "Ctrl"@, "Alt"@, "emergency_disconnect"@),
    ]
}

/// The key combinations that a host starts out with.
pub fn get_default_hotkeys() -> (configs: Vec<HotkeyConfig>)
    ensures
        hotkey_views(configs@) == spec_default_hotkeys(),
{
    let mut configs: Vec<HotkeyConfig> = Vec::new();
    configs.push(hotkey("L", "Ctrl", "Shift", "lock_cursor"));
    configs.push(hotkey("U", "Ctrl", "Shift", "unlock_cursor"));
    configs.push(hotkey("C", "Ctrl", "Alt", "toggle_connection"));
    configs.push(hotkey("S", "Ctrl", "Alt", "switch_screen"));
    configs.push(hotkey("Escape", "Ctrl", "Alt", "emergency_disconnect"));
    assert(hotkey_views(configs@) == spec_default_hotkeys());
    configs
}

} // verus!
