use cfb_time_puller::zones::{resolve, TimeZone};

#[test]
fn resolve_base_offsets() {
    assert_eq!(resolve(TimeZone::Eastern, false), -5);
    assert_eq!(resolve(TimeZone::Central, false), -6);
    assert_eq!(resolve(TimeZone::Mountain, false), -7);
    assert_eq!(resolve(TimeZone::Pacific, false), -8);
}

#[test]
fn resolve_dst_adds_one_hour() {
    assert_eq!(resolve(TimeZone::Eastern, true), -4);
    assert_eq!(resolve(TimeZone::Central, true), -5);
    assert_eq!(resolve(TimeZone::Mountain, true), -6);
    assert_eq!(resolve(TimeZone::Pacific, true), -7);
}

#[test]
fn resolve_mountain_examples() {
    assert_eq!(resolve(TimeZone::Mountain, false), -7);
    assert_eq!(resolve(TimeZone::Mountain, true), -6);
}

#[test]
fn zone_suffixes() {
    assert_eq!(TimeZone::Eastern.to_suffix(), "ET");
    assert_eq!(TimeZone::Central.to_suffix(), "CT");
    assert_eq!(TimeZone::Mountain.to_suffix(), "MT");
    assert_eq!(TimeZone::Pacific.to_suffix(), "PT");
}

#[test]
fn zone_names() {
    assert_eq!(TimeZone::Eastern.name(), "Eastern");
    assert_eq!(TimeZone::Central.name(), "Central");
    assert_eq!(TimeZone::Mountain.name(), "Mountain");
    assert_eq!(TimeZone::Pacific.name(), "Pacific");
}

#[test]
fn default_zone_is_eastern() {
    assert_eq!(TimeZone::default(), TimeZone::Eastern);
}

#[test]
fn zone_base_offsets() {
    assert_eq!(TimeZone::Eastern.base_offset(), -5);
    assert_eq!(TimeZone::Pacific.base_offset(), -8);
}
