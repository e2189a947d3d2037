//! The registry of plugins: which exist, which are enabled, and what depends
//! on what.

use vstd::prelude::*;
use crate::registry::lemma_distinct_kept;
use crate::registry::lemma_index_of;
use crate::registry::lemma_index_of_is;
use crate::registry::spec_distinct;
use crate::registry::spec_index_of;
use crate::text::clone_texts;
use crate::text::contains_text;
use crate::text::same_text;
use crate::text::spec_contains_text;
use crate::text::text_views;

verus! {

/// What is known of one plugin.
#[derive(Debug, PartialEq, Eq)]
pub struct PluginInfo {
    pub name: String,
    pub version: String,
    pub description: String,
    pub author: String,
    pub enabled: bool,
    pub dependencies: Vec<String>,
}

/// What is known of one plugin, with its texts as sequences of characters.
pub struct PluginInfoView {
    pub name: Seq<char>,
    pub version: Seq<char>,
    pub description: Seq<char>,
    pub author: Seq<char>,
    pub enabled: bool,
    pub dependencies: Seq<Seq<char>>,
}

impl View for PluginInfo {
    type V = PluginInfoView;

    open spec fn view(&self) -> PluginInfoView {
        PluginInfoView {
            name: self.name@,
            version: self.version@,
            description: self.description@,
            author: self.author@,
            enabled: self.enabled,
            dependencies: text_views(self.dependencies@),
        }
    }
}

impl Clone for PluginInfo {
    fn clone(&self) -> (res: Self)
        ensures
            res@ == self@,
    {
        PluginInfo {
            name: self.name.clone(),
            version: self.version.clone(),
            description: self.description.clone(),
            author: self.author.clone(),
            enabled: self.enabled,
            dependencies: clone_texts(&self.dependencies),
        }
    }
}

/// The names of the plugins that are enabled, in the order in which they
/// were enabled.
#[derive(Debug, PartialEq, Eq)]
pub struct PluginConfig {
    pub enabled_plugins: Vec<String>,
}

/// Why a request on a plugin was refused.
#[derive(Debug, PartialEq, Eq)]
pub enum PluginError {
    /// No plugin of that name is registered.
    NotFound,
    /// The plugin needs another one that is not enabled.
    MissingDependency { dependency: String },
    /// The name is that of no plugin that takes actions.
    UnknownPlugin,
    /// The plugin does not know the action.
    UnknownAction,
}

/// What each plugin of a sequence says, in the same order.
pub open spec fn plugin_views(plugins: Seq<PluginInfo>) -> Seq<PluginInfoView> {
    plugins.map_values(|p: PluginInfo| p@)
}

/// The names of the plugins, in the same order.
pub open spec fn plugin_names(plugins: Seq<PluginInfo>) -> Seq<Seq<char>> {
    plugins.map_values(|p: PluginInfo| p.name@)
}

/// The plugins after `plugin` has been registered: it takes the place of the
/// plugin of its name, or goes last where none has that name.
pub open spec fn spec_insert(plugins: Seq<PluginInfo>, plugin: PluginInfo) -> Seq<PluginInfo> {
    match spec_index_of(plugin_names(plugins), plugin.name@) {
        Some(i) => plugins.update(i, plugin),
        None => plugins.push(plugin),
    }
}

/// The first of `dependencies` that is not among `enabled`, if there is one.
pub open spec fn spec_missing_dependency(dependencies: Seq<String>, enabled: Seq<String>)
    -> Option<int>
    decreases dependencies.len(),
{
    if dependencies.len() == 0 {
        None
    } else {
        match spec_missing_dependency(dependencies.drop_last(), enabled) {
            Some(i) => Some(i),
            None => if spec_contains_text(enabled, dependencies.last()@) {
                None
            } else {
                Some(dependencies.len() - 1)
            },
        }
    }
}

/// A plugin as it is but for whether it is enabled.
pub open spec fn spec_with_enabled(plugin: PluginInfo, enabled: bool) -> PluginInfo {
    PluginInfo { enabled, ..plugin }
}

/// Whether disabling the plugin `name` switches `plugin` off: it is that
/// plugin, or it depends on it.
pub open spec fn spec_goes_down(plugin: PluginInfo, name: Seq<char>) -> bool {
    plugin.name@ == name || spec_contains_text(plugin.dependencies@, name)
}

/// The plugins after `name` has been disabled: that plugin and every plugin
/// that depends on it are off, the others are as they were.
pub open spec fn spec_disabled_plugins(plugins: Seq<PluginInfo>, name: Seq<char>) -> Seq<
    PluginInfo,
> {
    plugins.map_values(
        |p: PluginInfo|
            if spec_goes_down(p, name) {
                spec_with_enabled(p, false)
            } else {
                p
            },
    )
}

/// Whether the enabled name `entry` leaves the list when `name` is disabled:
/// it is that name, or the name of a plugin that depends on it.
pub open spec fn spec_leaves(plugins: Seq<PluginInfo>, name: Seq<char>, entry: Seq<char>) -> bool {
    entry == name || exists|i: int|
        0 <= i < plugins.len() && (#[trigger] plugins[i]).name@ == entry && spec_contains_text(
            plugins[i].dependencies@,
            name,
        )
}

/// The enabled names after `name` has been disabled: those that stay, in
/// their order.
pub open spec fn spec_disabled_names(
    plugins: Seq<PluginInfo>,
    enabled: Seq<String>,
    name: Seq<char>,
) -> Seq<String> {
    enabled.filter(|entry: String| !spec_leaves(plugins, name, entry@))
}

/// The registry of plugins.
#[derive(Debug)]
pub struct PluginManager {
    pub plugins: Vec<PluginInfo>,
    pub config: PluginConfig,
}

/// One plugin of the library's own, by the MouseBridge Team, in version 1.0.0.
fn builtin(name: &str, description: &str, enabled: bool, dependencies: Vec<String>) -> (plugin:
    PluginInfo)
    ensures
        plugin@ == spec_builtin(name@, description@, enabled, text_views(dependencies@)),
{
    PluginInfo {
        name: name.to_string(),
        version: "1.0.0".to_string(),
        description: description.to_string(),
        author: "MouseBridge Team".to_string(),
        enabled,
        dependencies,
    }
}

/// One plugin of the library's own.
pub open spec fn spec_builtin(
    name: Seq<char>,
    description: Seq<char>,
    enabled: bool,
    dependencies: Seq<Seq<char>>,
) -> PluginInfoView {
    PluginInfoView {
        name,
        version: "1.0.0"@,
        description,
        author: "MouseBridge Team"@,
        enabled,
        dependencies,
    }
}

/// The plugins that come with the library.
pub open spec fn spec_builtin_plugins() -> Seq<PluginInfoView> {
    seq![
        spec_builtin(
            "clipboard-sync"@,
            "Synchronize clipboard between connected devices"@,
            true,
            Seq::empty(),
        ),
        spec_builtin(
            "performance-monitor"@,
            "Monitor and optimize performance metrics"@,
            true,
            Seq::empty(),
        ),
        spec_builtin(
            "auto-reconnect"@,
            "Automatically reconnect on connection loss"@,
            true,
            Seq::empty(),
        ),
        spec_builtin("gesture-control"@, "Enable mouse gesture controls"@, false, Seq::empty()),
        spec_builtin(
            "screen-recorder"@,
            "Record screen activity during sessions"@,
            false,
            seq!["performance-monitor"@],
        ),
    ]
}

/// The plugins that come with the library.
pub fn builtin_plugins() -> (plugins: Vec<PluginInfo>)
    ensures
        plugin_views(plugins@) == spec_builtin_plugins(),
{
    let mut plugins: Vec<PluginInfo> = Vec::new();
    plugins.push(
        builtin(
            "clipboard-sync",
            "Synchronize clipboard between connected devices",
            true,
            Vec::new(),
        ),
    );
    plugins.push(
        builtin("performance-monitor", "Monitor and optimize performance metrics", true, Vec::new()),
    );
    plugins.push(
        builtin("auto-reconnect", "Automatically reconnect on connection loss", true, Vec::new()),
    );
    plugins.push(builtin("gesture-control", "Enable mouse gesture controls", false, Vec::new()));
    let mut needs: Vec<String> = Vec::new();
    needs.push("performance-monitor".to_string());
    assert(text_views(needs@) == seq!["performance-monitor"@]);
    plugins.push(
        builtin("screen-recorder", "Record screen activity during sessions", false, needs),
    );
    assert(plugin_views(plugins@) == spec_builtin_plugins()) by {
        assert(text_views(Seq::<String>::empty()) == Seq::<Seq<char>>::empty());
    }
    plugins
}

/// The plugins after each of `added` has been registered, first to last.
pub open spec fn spec_insert_all(plugins: Seq<PluginInfo>, added: Seq<PluginInfo>) -> Seq<
    PluginInfo,
>
    decreases added.len(),
{
    if added.len() == 0 {
        plugins
    } else {
        spec_insert_all(spec_insert(plugins, added.first()), added.drop_first())
    }
}

/// Registering a plugin keeps the names distinct.
pub proof fn lemma_insert_keeps_distinct(plugins: Seq<PluginInfo>, plugin: PluginInfo)
    requires
        spec_distinct(plugin_names(plugins)),
    ensures
        spec_distinct(plugin_names(spec_insert(plugins, plugin))),
{
    let names = plugin_names(plugins);
    lemma_distinct_kept(names, plugin.name@);
    lemma_index_of(names, plugin.name@);
    match spec_index_of(names, plugin.name@) {
        Some(i) => {
            assert(plugin_names(plugins.update(i, plugin)) == names.update(i, plugin.name@));
        },
        None => {
            assert(plugin_names(plugins.push(plugin)) == names.push(plugin.name@));
        },
    }
}

/// Registering plugins one after the other keeps the names distinct.
pub proof fn lemma_insert_all_keeps_distinct(plugins: Seq<PluginInfo>, added: Seq<PluginInfo>)
    requires
        spec_distinct(plugin_names(plugins)),
    ensures
        spec_distinct(plugin_names(spec_insert_all(plugins, added))),
    decreases added.len(),
{
    if added.len() > 0 {
        lemma_insert_keeps_distinct(plugins, added.first());
        lemma_insert_all_keeps_distinct(spec_insert(plugins, added.first()), added.drop_first());
    }
}

/// Disabling a plugin changes no name, so the names stay distinct.
pub proof fn lemma_disable_keeps_names(plugins: Seq<PluginInfo>, name: Seq<char>)
    ensures
        plugin_names(spec_disabled_plugins(plugins, name)) == plugin_names(plugins),
{
    assert(plugin_names(spec_disabled_plugins(plugins, name)) =~= plugin_names(plugins));
}

impl PluginManager {
    /// No two plugins have the same name.
    pub open spec fn wf(&self) -> bool {
        spec_distinct(plugin_names(self.plugins@))
    }

    /// A registry without plugins, with nothing enabled.
    pub fn new() -> (manager: Self)
        ensures
            manager.plugins@ == Seq::<PluginInfo>::empty(),
            manager.config.enabled_plugins@ == Seq::<String>::empty(),
            manager.wf(),
    {
        PluginManager { plugins: Vec::new(), config: PluginConfig { enabled_plugins: Vec::new() } }
    }

    /// The position of the plugin named `name`, if it is registered.
    pub fn position(&self, name: &String) -> (found: Option<usize>)
        ensures
            match found {
                Some(i) => spec_index_of(plugin_names(self.plugins@), name@) == Some(i as int)
                    && i < self.plugins@.len(),
                None => spec_index_of(plugin_names(self.plugins@), name@) is None,
            },
    {
        let n = self.plugins.len();
        let ghost names = plugin_names(self.plugins@);
        let mut i: usize = 0;
        while i < n
            invariant
                i <= n,
                n == self.plugins@.len(),
                names == plugin_names(self.plugins@),
                forall|j: int| 0 <= j < i ==> #[trigger] names[j] != name@,
            decreases n - i,
        {
            if self.plugins[i].name == *name {
                proof {
                    lemma_index_of_is(names, name@, Some(i as int));
                }
                return Some(i);
            }
            i = i + 1;
        }
        proof {
            lemma_index_of_is(names, name@, None);
        }
        None
    }

    /// Registers `plugin` under its name, in the place of a plugin of the same
    /// name if there is one.
    pub fn insert_plugin(&mut self, plugin: PluginInfo)
        ensures
            final(self).plugins@ == spec_insert(old(self).plugins@, plugin),
            final(self).config == old(self).config,
            old(self).wf() ==> final(self).wf(),
    {
        proof {
            if self.wf() {
                lemma_insert_keeps_distinct(self.plugins@, plugin);
            }
        }
        match self.position(&plugin.name) {
            Some(i) => {
                self.plugins.set(i, plugin);
            },
            None => {
                self.plugins.push(plugin);
            },
        }
    }

    /// Registers each of `added`, first to last.
    pub fn insert_all(&mut self, added: Vec<PluginInfo>)
        ensures
            final(self).plugins@ == spec_insert_all(old(self).plugins@, added@),
            final(self).config == old(self).config,
            old(self).wf() ==> final(self).wf(),
    {
        let mut rest = added;
        proof {
            if self.wf() {
                lemma_insert_all_keeps_distinct(self.plugins@, added@);
            }
        }
        while rest.len() > 0
            invariant
                spec_insert_all(self.plugins@, rest@) == spec_insert_all(
                    old(self).plugins@,
                    added@,
                ),
                self.config == old(self).config,
            decreases rest@.len(),
        {
            let ghost before = rest@;
            let plugin = rest.remove(0);
            assert(rest@ == before.drop_first());
            self.insert_plugin(plugin);
        }
    }

    /// Registers the plugins that come with the library.
    pub fn load_builtin_plugins(&mut self)
        ensures
            exists|added: Seq<PluginInfo>|
                plugin_views(added) == spec_builtin_plugins() && final(self).plugins@
                    == #[trigger] spec_insert_all(old(self).plugins@, added),
            final(self).config == old(self).config,
            old(self).wf() ==> final(self).wf(),
    {
        let added = builtin_plugins();
        let ghost witness = added@;
        self.insert_all(added);
        assert(self.plugins@ == spec_insert_all(old(self).plugins@, witness));
    }

    /// The first dependency of the plugin at position `at` that is not enabled.
    fn missing_dependency(&self, at: usize) -> (missing: Option<usize>)
        requires
            at < self.plugins@.len(),
        ensures
            match missing {
                Some(d) => spec_missing_dependency(
                    self.plugins@[at as int].dependencies@,
                    self.config.enabled_plugins@,
                ) == Some(d as int) && d < self.plugins@[at as int].dependencies@.len(),
                None => spec_missing_dependency(
                    self.plugins@[at as int].dependencies@,
                    self.config.enabled_plugins@,
                ) is None,
            },
    {
        let n = self.plugins[at].dependencies.len();
        let ghost dependencies = self.plugins@[at as int].dependencies@;
        let mut d: usize = 0;
        while d < n
            invariant
                d <= n,
                at < self.plugins@.len(),
                dependencies == self.plugins@[at as int].dependencies@,
                n == dependencies.len(),
                spec_missing_dependency(dependencies.take(d as int), self.config.enabled_plugins@)
                    is None,
            decreases n - d,
        {
            assert(dependencies.take(d + 1).drop_last() == dependencies.take(d as int));
            if !contains_text(&self.config.enabled_plugins, &self.plugins[at].dependencies[d]) {
                proof {
                    lemma_missing_is_stable(
                        dependencies,
                        self.config.enabled_plugins@,
                        d + 1,
                    );
                }
                return Some(d);
            }
            d = d + 1;
        }
        assert(dependencies.take(n as int) == dependencies);
        None
    }

    /// Switches the plugin `plugin_name` on. The plugin must be registered,
    /// and every plugin that it depends on must be enabled already.
    pub fn enable_plugin(&mut self, plugin_name: String) -> (result: Result<(), PluginError>)
        ensures
            match spec_index_of(plugin_names(old(self).plugins@), plugin_name@) {
                None => result == Err::<(), PluginError>(PluginError::NotFound) && *final(self)
                    == *old(self),
                Some(i) => match spec_missing_dependency(
                    old(self).plugins@[i].dependencies@,
                    old(self).config.enabled_plugins@,
                ) {
                    Some(d) => result == Err::<(), PluginError>(
                        PluginError::MissingDependency {
                            dependency: old(self).plugins@[i].dependencies@[d],
                        },
                    ) && *final(self) == *old(self),
                    None => result is Ok && final(self).plugins@ == old(self).plugins@.update(
                        i,
                        spec_with_enabled(old(self).plugins@[i], true),
                    ) && final(self).config.enabled_plugins@ == (if spec_contains_text(
                        old(self).config.enabled_plugins@,
                        plugin_name@,
                    ) {
                        old(self).config.enabled_plugins@
                    } else {
                        old(self).config.enabled_plugins@.push(plugin_name)
                    }),
                },
            },
            old(self).wf() ==> final(self).wf(),
    {
        let at = match self.position(&plugin_name) {
            Some(at) => at,
            None => {
                return Err(PluginError::NotFound);
            },
        };
        match self.missing_dependency(at) {
            Some(d) => {
                return Err(
                    PluginError::MissingDependency {
                        dependency: self.plugins[at].dependencies[d].clone(),
                    },
                );
            },
            None => {},
        }
        let ghost names = plugin_names(self.plugins@);
        let mut plugin = self.plugins.remove(at);
        plugin.enabled = true;
        self.plugins.insert(at, plugin);
        assert(self.plugins@ == old(self).plugins@.update(
            at as int,
            spec_with_enabled(old(self).plugins@[at as int], true),
        ));
        assert(plugin_names(self.plugins@) == names);
        if !contains_text(&self.config.enabled_plugins, &plugin_name) {
            self.config.enabled_plugins.push(plugin_name);
        }
        Ok(())
    }

    /// Whether the enabled name `entry` leaves the list when `name` is
    /// disabled.
    fn leaves(&self, name: &String, entry: &String) -> (gone: bool)
        ensures
            gone == spec_leaves(self.plugins@, name@, entry@),
    {
        if *entry == *name {
            return true;
        }
        let n = self.plugins.len();
        let mut i: usize = 0;
        while i < n
            invariant
                i <= n,
                n == self.plugins@.len(),
                entry@ != name@,
                forall|j: int|
                    0 <= j < i ==> !((#[trigger] self.plugins@[j]).name@ == entry@
                        && spec_contains_text(self.plugins@[j].dependencies@, name@)),
            decreases n - i,
        {
            if self.plugins[i].name == *entry && contains_text(
                &self.plugins[i].dependencies,
                name,
            ) {
                return true;
            }
            i = i + 1;
        }
        false
    }

    /// Switches the plugin `plugin_name` off, and with it every plugin that
    /// depends on it. The plugin must be registered.
    pub fn disable_plugin(&mut self, plugin_name: String) -> (result: Result<(), PluginError>)
        ensures
            match spec_index_of(plugin_names(old(self).plugins@), plugin_name@) {
                None => result == Err::<(), PluginError>(PluginError::NotFound) && *final(self)
                    == *old(self),
                Some(_) => result is Ok && final(self).plugins@ == spec_disabled_plugins(
                    old(self).plugins@,
                    plugin_name@,
                ) && final(self).config.enabled_plugins@ == spec_disabled_names(
                    old(self).plugins@,
                    old(self).config.enabled_plugins@,
                    plugin_name@,
                ),
            },
            old(self).wf() ==> final(self).wf(),
    {
        if self.position(&plugin_name).is_none() {
            return Err(PluginError::NotFound);
        }
        let ghost stays = |entry: String| !spec_leaves(old(self).plugins@, plugin_name@, entry@);
        let mut kept: Vec<String> = Vec::new();
        let count = self.config.enabled_plugins.len();
        let mut k: usize = 0;
        while k < count
            invariant
                k <= count,
                count == self.config.enabled_plugins@.len(),
                *self == *old(self),
                stays == |entry: String| !spec_leaves(old(self).plugins@, plugin_name@, entry@),
                kept@ == self.config.enabled_plugins@.take(k as int).filter(stays),
            decreases count - k,
        {
            let ghost seen = self.config.enabled_plugins@.take(k as int);
            let ghost next = self.config.enabled_plugins@.take(k + 1);
            proof {
                assert(next.drop_last() == seen);
                reveal(Seq::filter);
            }
            if !self.leaves(&plugin_name, &self.config.enabled_plugins[k]) {
                kept.push(self.config.enabled_plugins[k].clone());
            }
            k = k + 1;
        }
        assert(self.config.enabled_plugins@.take(count as int) == self.config.enabled_plugins@);
        self.config.enabled_plugins = kept;
        let n = self.plugins.len();
        let mut i: usize = 0;
        while i < n
            invariant
                i <= n,
                n == old(self).plugins@.len(),
                self.plugins@.len() == n,
                self.config.enabled_plugins@ == spec_disabled_names(
                    old(self).plugins@,
                    old(self).config.enabled_plugins@,
                    plugin_name@,
                ),
                forall|j: int|
                    0 <= j < i ==> #[trigger] self.plugins@[j] == spec_disabled_plugins(
                        old(self).plugins@,
                        plugin_name@,
                    )[j],
                forall|j: int| i <= j < n ==> #[trigger] self.plugins@[j] == old(self).plugins@[j],
            decreases n - i,
        {
            if self.plugins[i].name == plugin_name || contains_text(
                &self.plugins[i].dependencies,
                &plugin_name,
            ) {
                let mut plugin = self.plugins.remove(i);
                plugin.enabled = false;
                self.plugins.insert(i, plugin);
            }
            i = i + 1;
        }
        assert(self.plugins@ == spec_disabled_plugins(old(self).plugins@, plugin_name@));
        proof {
            lemma_disable_keeps_names(old(self).plugins@, plugin_name@);
        }
        Ok(())
    }

    /// The names of the registered plugins, in the order of their registration.
    pub fn list_available_plugins(&self) -> (names: Vec<String>)
        ensures
            text_views(names@) == plugin_names(self.plugins@),
    {
        let mut names: Vec<String> = Vec::new();
        let n = self.plugins.len();
        let mut i: usize = 0;
        while i < n
            invariant
                i <= n,
                n == self.plugins@.len(),
                text_views(names@) == plugin_names(self.plugins@.take(i as int)),
            decreases n - i,
        {
            let ghost before = names@;
            let ghost seen = self.plugins@.take(i as int);
            names.push(self.plugins[i].name.clone());
            proof {
                let plugin = self.plugins@[i as int];
                assert(self.plugins@.take(i + 1) == seen.push(plugin));
                assert(plugin_names(seen.push(plugin)) == plugin_names(seen).push(plugin.name@));
                assert(text_views(names@) == text_views(before).push(plugin.name@));
            }
            i = i + 1;
        }
        assert(self.plugins@.take(n as int) == self.plugins@);
        names
    }

    /// What is known of the plugin named `plugin_name`, if it is registered.
    pub fn get_plugin_info(&self, plugin_name: &str) -> (info: Option<PluginInfo>)
        ensures
            match spec_index_of(plugin_names(self.plugins@), plugin_name@) {
                Some(i) => info matches Some(found) && found@ == self.plugins@[i]@,
                None => info is None,
            },
    {
        match self.position(&plugin_name.to_string()) {
            Some(i) => Some(self.plugins[i].clone()),
            None => None,
        }
    }

    /// The names of the enabled plugins, in the order in which they were
    /// enabled.
    pub fn get_enabled_plugins(&self) -> (names: Vec<String>)
        ensures
            names@ == self.config.enabled_plugins@,
    {
        clone_texts(&self.config.enabled_plugins)
    }
}

/// Once a dependency is found missing among the first `upto`, it is the one
/// found missing among all.
proof fn lemma_missing_is_stable(dependencies: Seq<String>, enabled: Seq<String>, upto: int)
    requires
        0 <= upto <= dependencies.len(),
        spec_missing_dependency(dependencies.take(upto), enabled) is Some,
    ensures
        spec_missing_dependency(dependencies, enabled) == spec_missing_dependency(
            dependencies.take(upto),
            enabled,
        ),
    decreases dependencies.len() - upto,
{
    if upto < dependencies.len() {
        assert(dependencies.take(upto + 1).drop_last() == dependencies.take(upto));
        lemma_missing_is_stable(dependencies, enabled, upto + 1);
    } else {
        assert(dependencies.take(upto) == dependencies);
    }
}

/// The state that a plugin reports after an action.
#[derive(Debug, Clone, Copy, PartialEq, Eq, Structural)]
pub enum PluginStatus {
    Enabled,
    Disabled,
    Active,
    Started,
    Stopped,
}

impl PluginStatus {
    /// The word for a state in a reply.
    pub open spec fn spec_label(self) -> Seq<char> {
        match self {
            PluginStatus::Enabled => "enabled"@,
            PluginStatus::Disabled => "disabled"@,
            PluginStatus::Active => "active"@,
            PluginStatus::Started => "started"@,
            PluginStatus::Stopped => "stopped"@,
        }
    }

    /// The word for a state in a reply.
    pub fn label(self) -> (word: String)
        ensures
            word@ == self.spec_label(),
    {
        match self {
            PluginStatus::Enabled => "enabled".to_string(),
            PluginStatus::Disabled => "disabled".to_string(),
            PluginStatus::Active => "active".to_string(),
            PluginStatus::Started => "started".to_string(),
            PluginStatus::Stopped => "stopped".to_string(),
        }
    }
}

/// What an action of a plugin asks of the rest of the system.
#[derive(Debug, Clone, Copy, PartialEq, Eq, Structural)]
pub enum PluginEffect {
    /// Nothing.
    Nothing,
    /// Switch clipboard sharing on or off.
    ClipboardSharing(bool),
    /// Start the periodic performance notes.
    StartMonitoring,
}

/// The answer to an action of a plugin.
#[derive(Debug, Clone, Copy, PartialEq, Eq, Structural)]
pub enum PluginReply {
    /// The state that the plugin is in now, and what has to be done for it.
    Status { status: PluginStatus, effect: PluginEffect },
    /// The counters of the session are wanted.
    Metrics,
    /// The written report of the session is wanted.
    Report,
}

/// The answer to an action that only reports a state.
pub open spec fn spec_status(status: PluginStatus) -> Option<PluginReply> {
    Some(PluginReply::Status { status, effect: PluginEffect::Nothing })
}

/// The answer of the clipboard plugin.
pub open spec fn spec_clipboard_sync_action(action: Seq<char>) -> Option<PluginReply> {
    if action == "enable"@ {
        Some(
            PluginReply::Status {
                status: PluginStatus::Enabled,
                effect: PluginEffect::ClipboardSharing(true),
            },
        )
    } else if action == "disable"@ {
        Some(
            PluginReply::Status {
                status: PluginStatus::Disabled,
                effect: PluginEffect::ClipboardSharing(false),
            },
        )
    } else if action == "status"@ {
        spec_status(PluginStatus::Active)
    } else {
        None
    }
}

/// The answer of the performance plugin.
pub open spec fn spec_performance_monitor_action(action: Seq<char>) -> Option<PluginReply> {
    if action == "start"@ {
        Some(
            PluginReply::Status {
                status: PluginStatus::Started,
                effect: PluginEffect::StartMonitoring,
            },
        )
    } else if action == "get_metrics"@ {
        Some(PluginReply::Metrics)
    } else if action == "export_report"@ {
        Some(PluginReply::Report)
    } else {
        None
    }
}

/// The answer of a plugin that can only be switched on and off.
pub open spec fn spec_switch_action(action: Seq<char>) -> Option<PluginReply> {
    if action == "enable"@ {
        spec_status(PluginStatus::Enabled)
    } else if action == "disable"@ {
        spec_status(PluginStatus::Disabled)
    } else {
        None
    }
}

/// The answer of the recorder plugin.
pub open spec fn spec_screen_recorder_action(action: Seq<char>) -> Option<PluginReply> {
    if action == "start"@ {
        spec_status(PluginStatus::Started)
    } else if action == "stop"@ {
        spec_status(PluginStatus::Stopped)
    } else {
        None
    }
}

/// The answer to `action` of the plugin `plugin`: the plugin's own answer, an
/// error for an action that the plugin does not know, and another error for a
/// name that no plugin with actions has.
pub open spec fn spec_plugin_action(plugin: Seq<char>, action: Seq<char>) -> Result<
    PluginReply,
    PluginError,
> {
    let answer = if plugin == "clipboard-sync"@ {
        Some(spec_clipboard_sync_action(action))
    } else if plugin == "performance-monitor"@ {
        Some(spec_performance_monitor_action(action))
    } else if plugin == "auto-reconnect"@ {
        Some(spec_switch_action(action))
    } else if plugin == "gesture-control"@ {
        Some(spec_switch_action(action))
    } else if plugin == "screen-recorder"@ {
        Some(spec_screen_recorder_action(action))
    } else {
        None
    };
    match answer {
        Some(Some(reply)) => Ok(reply),
        Some(None) => Err(PluginError::UnknownAction),
        None => Err(PluginError::UnknownPlugin),
    }
}

/// A reply that only reports a state.
fn status_reply(status: PluginStatus) -> (reply: Option<PluginReply>)
    ensures
        reply == spec_status(status),
{
    Some(PluginReply::Status { status, effect: PluginEffect::Nothing })
}

/// The answer of the clipboard plugin.
fn execute_clipboard_sync_action(action: &String) -> (reply: Option<PluginReply>)
    ensures
        reply == spec_clipboard_sync_action(action@),
{
    if same_text(action, "enable") {
        Some(
            PluginReply::Status {
                status: PluginStatus::Enabled,
                effect: PluginEffect::ClipboardSharing(true),
            },
        )
    } else if same_text(action, "disable") {
        Some(
            PluginReply::Status {
                status: PluginStatus::Disabled,
                effect: PluginEffect::ClipboardSharing(false),
            },
        )
    } else if same_text(action, "status") {
        status_reply(PluginStatus::Active)
    } else {
        None
    }
}

/// The answer of the performance plugin.
fn execute_performance_monitor_action(action: &String) -> (reply: Option<PluginReply>)
    ensures
        reply == spec_performance_monitor_action(action@),
{
    if same_text(action, "start") {
        Some(
            PluginReply::Status {
                status: PluginStatus::Started,
                effect: PluginEffect::StartMonitoring,
            },
        )
    } else if same_text(action, "get_metrics") {
        Some(PluginReply::Metrics)
    } else if same_text(action, "export_report") {
        Some(PluginReply::Report)
    } else {
        None
    }
}

/// The answer of a plugin that can only be switched on and off.
fn execute_switch_action(action: &String) -> (reply: Option<PluginReply>)
    ensures
        reply == spec_switch_action(action@),
{
    if same_text(action, "enable") {
        status_reply(PluginStatus::Enabled)
    } else if same_text(action, "disable") {
        status_reply(PluginStatus::Disabled)
    } else {
        None
    }
}

/// The answer of the recorder plugin.
fn execute_screen_recorder_action(action: &String) -> (reply: Option<PluginReply>)
    ensures
        reply == spec_screen_recorder_action(action@),
{
    if same_text(action, "start") {
        status_reply(PluginStatus::Started)
    } else if same_text(action, "stop") {
        status_reply(PluginStatus::Stopped)
    } else {
        None
    }
}

/// Answers `action` of the plugin `plugin_name`.
pub fn execute_plugin_action(plugin_name: &str, action: &str) -> (result: Result<
    PluginReply,
    PluginError,
>)
    ensures
        result == spec_plugin_action(plugin_name@, action@),
{
    let plugin = plugin_name.to_string();
    let action = action.to_string();
    let answer = if same_text(&plugin, "clipboard-sync") {
        execute_clipboard_sync_action(&action)
    } else if same_text(&plugin, "performance-monitor") {
        execute_performance_monitor_action(&action)
    } else if same_text(&plugin, "auto-reconnect") {
        execute_switch_action(&action)
    } else if same_text(&plugin, "gesture-control") {
        execute_switch_action(&action)
    } else if same_text(&plugin, "screen-recorder") {
        execute_screen_recorder_action(&action)
    } else {
        return Err(PluginError::UnknownPlugin);
    };
    match answer {
        Some(reply) => Ok(reply),
        None => Err(PluginError::UnknownAction),
    }
}

} // verus!
