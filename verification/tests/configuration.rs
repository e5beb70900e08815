use bot_config::{ConfigStore, Configuration, Seconds, DEFAULT_ASSETS_DIR};

fn secs(value: f32) -> Seconds {
    Seconds::from_bits(value.to_bits())
}

fn number(delay: Seconds) -> f32 {
    f32::from_bits(delay.to_bits())
}

#[test]
fn new_has_the_default_values() {
    let config = Configuration::new();
    assert_eq!(config.get_clear_calls(), false);
    assert_eq!(config.muted(), false);
    assert_eq!(number(config.get_flood_delay()), 0.0);
    assert_eq!(config.get_flood_delay().to_bits(), 0);
    assert_eq!(config.get_maintained(), false);
    assert_eq!(number(config.get_poomp_delay()), 0.0);
    assert_eq!(config.get_poomp_delay().to_bits(), 0);
    assert_eq!(config.get_assets_dir(), "assets");
}

#[test]
fn default_assets_dir_is_assets() {
    assert_eq!(DEFAULT_ASSETS_DIR, "assets");
    assert_eq!(Configuration::new().get_assets_dir(), DEFAULT_ASSETS_DIR);
}

#[test]
fn default_is_new() {
    let config: Configuration = Default::default();
    assert!(config == Configuration::new());
    assert_eq!(config.get_assets_dir(), "assets");
    assert_eq!(config.get_flood_delay().to_bits(), 0);
}

#[test]
fn clear_calls_is_read_back() {
    let mut config = Configuration::new();
    config.clear_calls(true);
    assert_eq!(config.get_clear_calls(), true);
    config.clear_calls(false);
    assert_eq!(config.get_clear_calls(), false);
}

#[test]
fn muted_is_read_back() {
    let mut config = Configuration::new();
    config.mute(true);
    assert_eq!(config.muted(), true);
    config.mute(false);
    assert_eq!(config.muted(), false);
}

#[test]
fn maintained_is_read_back() {
    let mut config = Configuration::new();
    config.set_maintained(true);
    assert_eq!(config.get_maintained(), true);
    config.set_maintained(false);
    assert_eq!(config.get_maintained(), false);
}

#[test]
fn flood_delay_is_read_back() {
    let mut config = Configuration::new();
    for value in [1.0f32, 0.25, 1.0e-45, f32::MAX, 0.0] {
        config.set_flood_delay(secs(value));
        assert_eq!(number(config.get_flood_delay()), value);
    }
}

#[test]
fn poomp_delay_is_read_back() {
    let mut config = Configuration::new();
    for value in [30.0f32, 0.1, 86400.0, 0.0] {
        config.set_poomp_delay(secs(value));
        assert_eq!(number(config.get_poomp_delay()), value);
    }
}

#[test]
fn assets_dir_is_read_back() {
    let mut config = Configuration::new();
    for value in ["media", "/var/lib/bot/assets", "données/été", "a b\tc"] {
        config.set_assets_dir(value);
        assert_eq!(config.get_assets_dir(), value);
    }
}

#[test]
fn a_setter_leaves_the_other_settings() {
    let mut config = Configuration::new();
    config.set_flood_delay(secs(1.5));
    assert_eq!(config.get_clear_calls(), false);
    assert_eq!(config.muted(), false);
    assert_eq!(config.get_maintained(), false);
    assert_eq!(config.get_poomp_delay().to_bits(), 0);
    assert_eq!(config.get_assets_dir(), "assets");
    config.mute(true);
    config.set_assets_dir("media");
    assert_eq!(number(config.get_flood_delay()), 1.5);
    assert_eq!(config.get_clear_calls(), false);
    assert_eq!(config.muted(), true);
    assert_eq!(config.get_maintained(), false);
    assert_eq!(config.get_poomp_delay().to_bits(), 0);
}

#[test]
fn negative_and_zero_delays_are_accepted() {
    let mut config = Configuration::new();
    config.set_flood_delay(secs(-1.0));
    config.set_poomp_delay(secs(-0.0));
    assert_eq!(number(config.get_flood_delay()), -1.0);
    assert_eq!(config.get_poomp_delay().to_bits(), 0x8000_0000);
    config.set_flood_delay(secs(f32::NEG_INFINITY));
    assert_eq!(number(config.get_flood_delay()), f32::NEG_INFINITY);
}

#[test]
fn a_nan_delay_is_stored_bit_for_bit() {
    let mut config = Configuration::new();
    config.set_flood_delay(Seconds::from_bits(0x7fc0_1234));
    config.set_poomp_delay(Seconds::from_bits(0xff80_0001));
    assert_eq!(config.get_flood_delay().to_bits(), 0x7fc0_1234);
    assert_eq!(config.get_poomp_delay().to_bits(), 0xff80_0001);
    assert!(number(config.get_flood_delay()).is_nan());
}

#[test]
fn an_empty_path_is_accepted() {
    let mut config = Configuration::new();
    config.set_assets_dir("");
    assert_eq!(config.get_assets_dir(), "");
    assert!(config != Configuration::new());
}

#[test]
fn the_path_that_is_read_is_a_copy() {
    let mut config = Configuration::new();
    config.set_assets_dir("media");
    let mut path = config.get_assets_dir();
    path.push_str("/sounds");
    assert_eq!(path, "media/sounds");
    assert_eq!(config.get_assets_dir(), "media");
}

#[test]
fn the_path_that_was_given_is_copied() {
    let mut config = Configuration::new();
    let mut given = String::from("media");
    config.set_assets_dir(&given);
    given.push_str("/sounds");
    assert_eq!(config.get_assets_dir(), "media");
}

#[test]
fn a_record_equals_itself() {
    let mut config = Configuration::new();
    assert!(config == config);
    config.clear_calls(true);
    config.set_flood_delay(secs(-3.5));
    config.set_poomp_delay(secs(f32::INFINITY));
    config.set_assets_dir("media");
    assert!(config == config);
    assert!(!(config != config));
}

#[test]
fn equality_does_not_depend_on_the_side() {
    let mut left = Configuration::new();
    let mut right = Configuration::new();
    left.mute(true);
    left.set_flood_delay(secs(2.0));
    right.mute(true);
    right.set_flood_delay(secs(2.0));
    assert!(left == right);
    assert!(right == left);
    right.set_flood_delay(secs(2.5));
    assert!(!(left == right));
    assert!(!(right == left));
}

#[test]
fn records_with_the_same_values_are_equal() {
    let mut first = Configuration::new();
    first.clear_calls(true);
    first.mute(true);
    first.set_flood_delay(secs(0.75));
    first.set_maintained(true);
    first.set_poomp_delay(secs(45.0));
    first.set_assets_dir("media");
    let mut second = Configuration::new();
    second.set_assets_dir("media");
    second.set_poomp_delay(secs(45.0));
    second.set_maintained(true);
    second.set_flood_delay(secs(0.75));
    second.mute(true);
    second.clear_calls(true);
    assert!(first == second);
}

#[test]
fn a_difference_in_clear_calls_makes_unequal() {
    let mut changed = Configuration::new();
    changed.clear_calls(true);
    assert!(changed != Configuration::new());
    assert!(!(changed == Configuration::new()));
}

#[test]
fn a_difference_in_muted_makes_unequal() {
    let mut changed = Configuration::new();
    changed.mute(true);
    assert!(changed != Configuration::new());
}

#[test]
fn a_difference_in_flood_delay_makes_unequal() {
    let mut changed = Configuration::new();
    changed.set_flood_delay(secs(1.0e-45));
    assert!(changed != Configuration::new());
}

#[test]
fn a_difference_in_maintained_makes_unequal() {
    let mut changed = Configuration::new();
    changed.set_maintained(true);
    assert!(changed != Configuration::new());
}

#[test]
fn a_difference_in_poomp_delay_makes_unequal() {
    let mut changed = Configuration::new();
    changed.set_poomp_delay(secs(-30.0));
    assert!(changed != Configuration::new());
}

#[test]
fn a_difference_in_assets_dir_makes_unequal() {
    let mut changed = Configuration::new();
    changed.set_assets_dir("Assets");
    assert!(changed != Configuration::new());
    changed.set_assets_dir("assets ");
    assert!(changed != Configuration::new());
    changed.set_assets_dir("assets");
    assert!(changed == Configuration::new());
}

#[test]
fn a_record_with_a_nan_delay_equals_nothing() {
    let mut config = Configuration::new();
    config.set_flood_delay(secs(f32::NAN));
    assert!(!(config == config));
    config.set_flood_delay(secs(0.0));
    assert!(config == config);
    config.set_poomp_delay(secs(f32::NAN));
    assert!(!(config == config));
    assert!(!(config == Configuration::new()));
    assert!(!(Configuration::new() == config));
}

#[test]
fn the_two_zero_delays_make_equal_records() {
    let mut config = Configuration::new();
    config.set_flood_delay(secs(-0.0));
    config.set_poomp_delay(secs(-0.0));
    assert!(config == Configuration::new());
    assert!(Configuration::new() == config);
    assert_eq!(config.get_flood_delay().to_bits(), 0x8000_0000);
}

#[test]
fn the_store_key_holds_nothing() {
    assert_eq!(std::mem::size_of::<ConfigStore>(), 0);
    let _key = ConfigStore;
}
