//! A builder that stages overrides and makes a record from them.

use vstd::prelude::*;
use crate::config::{Configuration, ConfigurationView};
use crate::seconds::Seconds;

verus! {

/// What a [`ConfigBuilder`] holds, as a mathematical value: for each setting
/// the override that is staged, or `None` where the default is to stay.
pub struct ConfigBuilderView {
    /// Staged for whether command invocations are deleted.
    pub clear_command_calls: Option<bool>,
    /// Staged for whether the bot's voice output is muted.
    pub mute_bot: Option<bool>,
    /// Staged for the pause between two messages of a bulk-message command.
    pub flood_delay: Option<Seconds>,
    /// Staged for whether a voice session stays open.
    pub maintained: Option<bool>,
    /// Staged for how long an open voice session waits.
    pub poomp_delay: Option<Seconds>,
    /// Staged for the directory that holds the bot's media.
    pub assets_directory_path: Option<Seq<char>>,
}

impl ConfigBuilderView {
    /// The builder with no override staged.
    pub open spec fn unset() -> ConfigBuilderView {
        ConfigBuilderView {
            clear_command_calls: None,
            mute_bot: None,
            flood_delay: None,
            maintained: None,
            poomp_delay: None,
            assets_directory_path: None,
        }
    }

    /// The same overrides, but for `clear_command_calls`.
    pub open spec fn with_clear_calls(self, value: Option<bool>) -> ConfigBuilderView {
        ConfigBuilderView { clear_command_calls: value, ..self }
    }

    /// The same overrides, but for `mute_bot`.
    pub open spec fn with_mute_bot(self, value: Option<bool>) -> ConfigBuilderView {
        ConfigBuilderView { mute_bot: value, ..self }
    }

    /// The same overrides, but for `flood_delay`.
    pub open spec fn with_flood_delay(self, value: Option<Seconds>) -> ConfigBuilderView {
        ConfigBuilderView { flood_delay: value, ..self }
    }

    /// The same overrides, but for `maintained`.
    pub open spec fn with_maintained(self, value: Option<bool>) -> ConfigBuilderView {
        ConfigBuilderView { maintained: value, ..self }
    }

    /// The same overrides, but for `poomp_delay`.
    pub open spec fn with_poomp_delay(self, value: Option<Seconds>) -> ConfigBuilderView {
        ConfigBuilderView { poomp_delay: value, ..self }
    }

    /// The same overrides, but for `assets_directory_path`.
    pub open spec fn with_assets_directory_path(
        self,
        value: Option<Seq<char>>,
    ) -> ConfigBuilderView {
        ConfigBuilderView { assets_directory_path: value, ..self }
    }

    /// The record that the staged overrides describe: each setting is its
    /// override where one is staged, and its default where none is.
    pub open spec fn build(self) -> ConfigurationView {
        let defaults = ConfigurationView::defaults();
        ConfigurationView {
            clear_calls: staged_or(self.clear_command_calls, defaults.clear_calls),
            muted: staged_or(self.mute_bot, defaults.muted),
            flood_delay: staged_or(self.flood_delay, defaults.flood_delay),
            maintained: staged_or(self.maintained, defaults.maintained),
            poomp_delay: staged_or(self.poomp_delay, defaults.poomp_delay),
            assets_directory_path: staged_or(
                self.assets_directory_path,
                defaults.assets_directory_path,
            ),
        }
    }
}

/// The override where one is staged, else the default.
pub open spec fn staged_or<T>(staged: Option<T>, default: T) -> T {
    match staged {
        Some(value) => value,
        None => default,
    }
}

/// The characters of the path where there is one.
pub open spec fn path_view(path: Option<String>) -> Option<Seq<char>> {
    match path {
        Some(text) => Some(text@),
        None => None,
    }
}

/// Stages overrides of single settings and makes a [`Configuration`] that
/// holds them over the defaults.
pub struct ConfigBuilder {
    clear_command_calls: Option<bool>,
    mute_bot: Option<bool>,
    flood_delay: Option<Seconds>,
    maintained: Option<bool>,
    poomp_delay: Option<Seconds>,
    assets_directory_path: Option<String>,
}

impl View for ConfigBuilder {
    type V = ConfigBuilderView;

    closed spec fn view(&self) -> ConfigBuilderView {
        ConfigBuilderView {
            clear_command_calls: self.clear_command_calls,
            mute_bot: self.mute_bot,
            flood_delay: self.flood_delay,
            maintained: self.maintained,
            poomp_delay: self.poomp_delay,
            assets_directory_path: path_view(self.assets_directory_path),
        }
    }
}

impl ConfigBuilder {
    /// A builder with no override staged.
    pub fn new() -> (builder: ConfigBuilder)
        ensures
            builder@ == ConfigBuilderView::unset(),
    {
        ConfigBuilder {
            clear_command_calls: None,
            mute_bot: None,
            flood_delay: None,
            maintained: None,
            poomp_delay: None,
            assets_directory_path: None,
        }
    }

    /// Stages whether command invocations are deleted after the command has
    /// run.
    pub fn clear_calls(&mut self, new_value: bool) -> (builder: &mut ConfigBuilder)
        ensures
            builder@ == old(self)@.with_clear_calls(Some(new_value)),
            *final(self) == *final(builder),
    {
        self.clear_command_calls = Some(new_value);
        self
    }

    /// Stages whether the bot's voice output is muted.
    pub fn mute_bot(&mut self, new_value: bool) -> (builder: &mut ConfigBuilder)
        ensures
            builder@ == old(self)@.with_mute_bot(Some(new_value)),
            *final(self) == *final(builder),
    {
        self.mute_bot = Some(new_value);
        self
    }

    /// Stages the pause between two messages of a bulk-message command, or
    /// with `None` takes back what was staged for it.
    pub fn flood_delay(&mut self, new_value: Option<Seconds>) -> (builder: &mut ConfigBuilder)
        ensures
            builder@ == old(self)@.with_flood_delay(new_value),
            *final(self) == *final(builder),
    {
        self.flood_delay = new_value;
        self
    }

    /// Stages whether a voice session stays open and waits for the next
    /// invocation, or with `None` takes back what was staged for it.
    pub fn maintained(&mut self, new_value: Option<bool>) -> (builder: &mut ConfigBuilder)
        ensures
            builder@ == old(self)@.with_maintained(new_value),
            *final(self) == *final(builder),
    {
        self.maintained = new_value;
        self
    }

    /// Stages how long an open voice session waits for the next invocation,
    /// or with `None` takes back what was staged for it.
    pub fn poomp_delay(&mut self, new_value: Option<Seconds>) -> (builder: &mut ConfigBuilder)
        ensures
            builder@ == old(self)@.with_poomp_delay(new_value),
            *final(self) == *final(builder),
    {
        self.poomp_delay = new_value;
        self
    }

    /// Stages the path of the directory that holds the bot's media, or with
    /// `None` takes back what was staged for it.
    pub fn assets_directory_path(
        &mut self,
        new_value: Option<String>,
    ) -> (builder: &mut ConfigBuilder)
        ensures
            builder@ == old(self)@.with_assets_directory_path(path_view(new_value)),
            *final(self) == *final(builder),
    {
        self.assets_directory_path = new_value;
        self
    }

    /// The record that the staged overrides describe. The builder stays as it
    /// is and can build again.
    pub fn build(&self) -> (config: Configuration)
        ensures
            config@ == self@.build(),
    {
        let mut new_conf = Configuration::new();

        if let Some(clr) = self.clear_command_calls {
            new_conf.clear_calls(clr)
        }
        if let Some(mute) = self.mute_bot {
            new_conf.mute(mute);
        }
        if let Some(delay) = self.flood_delay {
            new_conf.set_flood_delay(delay);
        }
        if let Some(maintained) = self.maintained {
            new_conf.set_maintained(maintained);
        }
        if let Some(delay) = self.poomp_delay {
            new_conf.set_poomp_delay(delay)
        }
        if let Some(strpath) = &self.assets_directory_path {
            new_conf.set_assets_dir(strpath);
        }
        new_conf
    }
}

} // verus!
