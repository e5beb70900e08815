//! The record of the bot's settings.

use vstd::prelude::*;
use crate::seconds::Seconds;

verus! {

/// Where the bot's media are looked up unless a path is set.
pub const DEFAULT_ASSETS_DIR: &'static str = "assets";

/// What a [`Configuration`] holds, as a mathematical value.
pub struct ConfigurationView {
    /// Whether the message that invoked a command is deleted once the command
    /// has run.
    pub clear_calls: bool,
    /// Whether the bot's voice output is muted.
    pub muted: bool,
    /// The pause between two messages of a bulk-message command.
    pub flood_delay: Seconds,
    /// Whether a voice session stays open and waits for the next invocation.
    pub maintained: bool,
    /// How long an open voice session waits for the next invocation before
    /// the bot leaves the channel.
    pub poomp_delay: Seconds,
    /// The directory under which the bot's media are looked up.
    pub assets_directory_path: Seq<char>,
}

impl ConfigurationView {
    /// The settings of a bot that nothing has configured: every switch off,
    /// both delays `+0.0`, media under `assets`.
    pub open spec fn defaults() -> ConfigurationView {
        ConfigurationView {
            clear_calls: false,
            muted: false,
            flood_delay: Seconds::zero(),
            maintained: false,
            poomp_delay: Seconds::zero(),
            assets_directory_path: DEFAULT_ASSETS_DIR@,
        }
    }

    /// The same settings, but for `clear_calls`.
    pub open spec fn with_clear_calls(self, value: bool) -> ConfigurationView {
        ConfigurationView { clear_calls: value, ..self }
    }

    /// The same settings, but for `muted`.
    pub open spec fn with_muted(self, value: bool) -> ConfigurationView {
        ConfigurationView { muted: value, ..self }
    }

    /// The same settings, but for `flood_delay`.
    pub open spec fn with_flood_delay(self, value: Seconds) -> ConfigurationView {
        ConfigurationView { flood_delay: value, ..self }
    }

    /// The same settings, but for `maintained`.
    pub open spec fn with_maintained(self, value: bool) -> ConfigurationView {
        ConfigurationView { maintained: value, ..self }
    }

    /// The same settings, but for `poomp_delay`.
    pub open spec fn with_poomp_delay(self, value: Seconds) -> ConfigurationView {
        ConfigurationView { poomp_delay: value, ..self }
    }

    /// The same settings, but for `assets_directory_path`.
    pub open spec fn with_assets_directory_path(self, value: Seq<char>) -> ConfigurationView {
        ConfigurationView { assets_directory_path: value, ..self }
    }

    /// What `==` decides on two records: that all six settings are equal, the
    /// switches and the path as values, the delays as numbers.
    pub open spec fn same_settings(self, other: ConfigurationView) -> bool {
        &&& self.clear_calls == other.clear_calls
        &&& self.muted == other.muted
        &&& self.flood_delay.same_number(other.flood_delay)
        &&& self.maintained == other.maintained
        &&& self.poomp_delay.same_number(other.poomp_delay)
        &&& self.assets_directory_path == other.assets_directory_path
    }
}

/// The bot's settings. Every setting always has a value; any value of its
/// type is accepted.
pub struct Configuration {
    clear_calls: bool,
    muted: bool,
    flood_delay: Seconds,
    maintained: bool,
    poomp_delay: Seconds,
    assets_directory_path: String,
}

impl View for Configuration {
    type V = ConfigurationView;

    closed spec fn view(&self) -> ConfigurationView {
        ConfigurationView {
            clear_calls: self.clear_calls,
            muted: self.muted,
            flood_delay: self.flood_delay,
            maintained: self.maintained,
            poomp_delay: self.poomp_delay,
            assets_directory_path: self.assets_directory_path@,
        }
    }
}

impl Configuration {
    /// The default settings.
    pub fn new() -> (config: Configuration)
        ensures
            config@ == ConfigurationView::defaults(),
    {
        Configuration {
            clear_calls: false,
            muted: false,
            flood_delay: Seconds::from_bits(0),
            maintained: false,
            poomp_delay: Seconds::from_bits(0),
            assets_directory_path: DEFAULT_ASSETS_DIR.to_owned(),
        }
    }

    /// Whether command invocations are deleted after the command has run.
    pub fn get_clear_calls(&self) -> (value: bool)
        ensures
            value == self@.clear_calls,
    {
        self.clear_calls
    }

    /// Sets whether command invocations are deleted after the command has run.
    pub fn clear_calls(&mut self, new_value: bool)
        ensures
            final(self)@ == old(self)@.with_clear_calls(new_value),
    {
        self.clear_calls = new_value;
    }

    /// Whether the bot's voice output is muted.
    pub fn muted(&self) -> (value: bool)
        ensures
            value == self@.muted,
    {
        self.muted
    }

    /// Sets whether the bot's voice output is muted.
    pub fn mute(&mut self, new_value: bool)
        ensures
            final(self)@ == old(self)@.with_muted(new_value),
    {
        self.muted = new_value;
    }

    /// The pause between two messages of a bulk-message command.
    pub fn get_flood_delay(&self) -> (value: Seconds)
        ensures
            value == self@.flood_delay,
    {
        self.flood_delay
    }

    /// Sets the pause between two messages of a bulk-message command.
    pub fn set_flood_delay(&mut self, new_value: Seconds)
        ensures
            final(self)@ == old(self)@.with_flood_delay(new_value),
    {
        self.flood_delay = new_value;
    }

    /// Whether a voice session stays open and waits for the next invocation.
    pub fn get_maintained(&self) -> (value: bool)
        ensures
            value == self@.maintained,
    {
        self.maintained
    }

    /// Sets whether a voice session stays open and waits for the next
    /// invocation.
    pub fn set_maintained(&mut self, new_value: bool)
        ensures
            final(self)@ == old(self)@.with_maintained(new_value),
    {
        self.maintained = new_value;
    }

    /// How long an open voice session waits for the next invocation.
    pub fn get_poomp_delay(&self) -> (value: Seconds)
        ensures
            value == self@.poomp_delay,
    {
        self.poomp_delay
    }

    /// Sets how long an open voice session waits for the next invocation.
    pub fn set_poomp_delay(&mut self, new_value: Seconds)
        ensures
            final(self)@ == old(self)@.with_poomp_delay(new_value),
    {
        self.poomp_delay = new_value;
    }

    /// A copy of the path of the directory that holds the bot's media.
    pub fn get_assets_dir(&self) -> (path: String)
        ensures
            path@ == self@.assets_directory_path,
    {
        self.assets_directory_path.clone()
    }

    /// Sets the path of the directory that holds the bot's media.
    pub fn set_assets_dir(&mut self, new_value: &str)
        ensures
            final(self)@ == old(self)@.with_assets_directory_path(new_value@),
    {
        self.assets_directory_path = new_value.to_owned();
    }
}

impl PartialEq for Configuration {
    /// Compares the two records setting by setting.
    fn eq(&self, other: &Configuration) -> (r: bool) {
        self.clear_calls == other.get_clear_calls()
            && self.muted == other.muted()
            && self.flood_delay == other.get_flood_delay()
            && self.maintained == other.get_maintained()
            && self.poomp_delay == other.get_poomp_delay()
            && self.assets_directory_path == other.get_assets_dir()
    }
}

impl vstd::std_specs::cmp::PartialEqSpecImpl for Configuration {
    open spec fn obeys_eq_spec() -> bool {
        true
    }

    open spec fn eq_spec(&self, other: &Configuration) -> bool {
        self@.same_settings(other@)
    }
}

impl Default for Configuration {
    /// The default settings.
    fn default() -> (config: Configuration)
        ensures
            config@ == ConfigurationView::defaults(),
    {
        Configuration::new()
    }
}

/// The key under which a host's registry of shared state keeps the one
/// [`Configuration`] that all of its handlers read and change.
pub struct ConfigStore;

} // verus!
