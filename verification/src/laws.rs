//! What holds of the settings record and of its builder, whatever the values.

use vstd::prelude::*;
use crate::builder::ConfigBuilderView;
use crate::config::ConfigurationView;
use crate::seconds::Seconds;

verus! {

/// Whether the builder has a NaN staged for one of the two delays.
pub open spec fn stages_nan(builder: ConfigBuilderView) -> bool {
    ||| builder.flood_delay matches Some(delay) && delay.is_nan()
    ||| builder.poomp_delay matches Some(delay) && delay.is_nan()
}

/// A setting that has just been set is read back exactly as it was given: a
/// delay bit for bit, a path character for character.
pub proof fn set_then_get(config: ConfigurationView, flag: bool, delay: Seconds, path: Seq<char>)
    ensures
        config.with_clear_calls(flag).clear_calls == flag,
        config.with_muted(flag).muted == flag,
        config.with_flood_delay(delay).flood_delay == delay,
        config.with_maintained(flag).maintained == flag,
        config.with_poomp_delay(delay).poomp_delay == delay,
        config.with_assets_directory_path(path).assets_directory_path == path,
{
}

/// A setting that has just been staged is what the built record holds,
/// exactly as it was given.
pub proof fn stage_then_build(
    builder: ConfigBuilderView,
    flag: bool,
    delay: Seconds,
    path: Seq<char>,
)
    ensures
        builder.with_clear_calls(Some(flag)).build().clear_calls == flag,
        builder.with_mute_bot(Some(flag)).build().muted == flag,
        builder.with_flood_delay(Some(delay)).build().flood_delay == delay,
        builder.with_maintained(Some(flag)).build().maintained == flag,
        builder.with_poomp_delay(Some(delay)).build().poomp_delay == delay,
        builder.with_assets_directory_path(Some(path)).build().assets_directory_path == path,
{
}

/// The defaults are: every switch off, both delays `+0.0`, and the path the
/// six letters of `assets`.
pub proof fn default_values()
    ensures
        ConfigurationView::defaults().clear_calls == false,
        ConfigurationView::defaults().muted == false,
        ConfigurationView::defaults().flood_delay.bits == 0,
        ConfigurationView::defaults().maintained == false,
        ConfigurationView::defaults().poomp_delay.bits == 0,
        ConfigurationView::defaults().assets_directory_path == seq!['a', 's', 's', 'e', 't', 's'],
{
    reveal_strlit("assets");
    assert(ConfigurationView::defaults().assets_directory_path =~= seq![
        'a',
        's',
        's',
        'e',
        't',
        's',
    ]);
}

/// A builder with nothing staged builds the defaults, and `==` finds the two
/// equal.
pub proof fn unset_builder_builds_defaults()
    ensures
        ConfigBuilderView::unset().build() == ConfigurationView::defaults(),
        ConfigBuilderView::unset().build().same_settings(ConfigurationView::defaults()),
{
}

/// A record equals itself, unless one of its delays is a NaN: then it equals
/// nothing.
pub proof fn equality_is_reflexive(config: ConfigurationView)
    ensures
        config.same_settings(config) <==> !config.flood_delay.is_nan()
            && !config.poomp_delay.is_nan(),
{
}

/// Which of two records stands on the left of `==` makes no difference.
pub proof fn equality_is_symmetric(left: ConfigurationView, right: ConfigurationView)
    ensures
        left.same_settings(right) == right.same_settings(left),
{
}

/// Two records that differ in one setting are unequal: a switch or a path
/// that has another value, a delay that is another number or a NaN.
pub proof fn one_difference_makes_unequal(
    config: ConfigurationView,
    flag: bool,
    delay: Seconds,
    path: Seq<char>,
)
    ensures
        flag != config.clear_calls ==> !config.with_clear_calls(flag).same_settings(config),
        flag != config.muted ==> !config.with_muted(flag).same_settings(config),
        !delay.same_number(config.flood_delay) ==> !config.with_flood_delay(delay).same_settings(
            config,
        ),
        flag != config.maintained ==> !config.with_maintained(flag).same_settings(config),
        !delay.same_number(config.poomp_delay) ==> !config.with_poomp_delay(delay).same_settings(
            config,
        ),
        path != config.assets_directory_path ==> !config.with_assets_directory_path(
            path,
        ).same_settings(config),
{
}

/// Two records built from the same overrides are equal, unless a NaN is
/// staged for a delay. So are two records that one builder builds one after
/// the other.
pub proof fn same_overrides_build_equal(builder: ConfigBuilderView)
    ensures
        builder.build().same_settings(builder.build()) <==> !stages_nan(builder),
{
}

/// Of two overrides staged for one setting the later one counts, and one that
/// was taken back leaves the default.
pub proof fn later_override_wins(
    builder: ConfigBuilderView,
    flag: Option<bool>,
    later_flag: Option<bool>,
    delay: Option<Seconds>,
    later_delay: Option<Seconds>,
    path: Option<Seq<char>>,
    later_path: Option<Seq<char>>,
)
    ensures
        builder.with_clear_calls(flag).with_clear_calls(later_flag) == builder.with_clear_calls(
            later_flag,
        ),
        builder.with_mute_bot(flag).with_mute_bot(later_flag) == builder.with_mute_bot(later_flag),
        builder.with_flood_delay(delay).with_flood_delay(later_delay) == builder.with_flood_delay(
            later_delay,
        ),
        builder.with_maintained(flag).with_maintained(later_flag) == builder.with_maintained(
            later_flag,
        ),
        builder.with_poomp_delay(delay).with_poomp_delay(later_delay) == builder.with_poomp_delay(
            later_delay,
        ),
        builder.with_assets_directory_path(path).with_assets_directory_path(later_path)
            == builder.with_assets_directory_path(later_path),
        builder.with_clear_calls(None).build().clear_calls
            == ConfigurationView::defaults().clear_calls,
        builder.with_mute_bot(None).build().muted == ConfigurationView::defaults().muted,
        builder.with_flood_delay(None).build().flood_delay
            == ConfigurationView::defaults().flood_delay,
        builder.with_maintained(None).build().maintained
            == ConfigurationView::defaults().maintained,
        builder.with_poomp_delay(None).build().poomp_delay
            == ConfigurationView::defaults().poomp_delay,
        builder.with_assets_directory_path(None).build().assets_directory_path
            == ConfigurationView::defaults().assets_directory_path,
{
}

} // verus!
