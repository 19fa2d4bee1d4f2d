use print_typewriter::build_default_only;
use print_typewriter::build_overrides_only;
use print_typewriter::build_table;
use print_typewriter::duration_from_tag;
use print_typewriter::parse_unit;
use print_typewriter::to_millis;
use print_typewriter::TimeUnit;

#[test]
fn unit_tags_convert_exactly() {
    assert_eq!(duration_from_tag(50, "ms"), Ok(50));
    assert_eq!(duration_from_tag(1, "s"), Ok(1000));
    assert_eq!(duration_from_tag(0, "ms"), Ok(0));
    assert_eq!(duration_from_tag(0, "s"), Ok(0));
    assert_eq!(duration_from_tag(250, "ms"), Ok(250));
    assert_eq!(duration_from_tag(3, "s"), Ok(3000));
}

#[test]
fn parse_unit_recognizes_only_ms_and_s() {
    assert_eq!(parse_unit("ms"), Some(TimeUnit::Millis));
    assert_eq!(parse_unit("s"), Some(TimeUnit::Seconds));
    assert_eq!(parse_unit(""), None);
    assert_eq!(parse_unit("m"), None);
    assert_eq!(parse_unit("sec"), None);
    assert_eq!(parse_unit("mS"), None);
    assert_eq!(parse_unit("min"), None);
}

#[test]
fn to_millis_scales_seconds() {
    assert_eq!(to_millis(50, TimeUnit::Millis), 50);
    assert_eq!(to_millis(1, TimeUnit::Seconds), 1000);
    assert_eq!(to_millis(2, TimeUnit::Seconds), 2000);
}

#[test]
fn huge_seconds_saturate() {
    assert_eq!(to_millis(u64::MAX, TimeUnit::Seconds), u64::MAX);
    assert_eq!(duration_from_tag(u64::MAX, "s"), Ok(u64::MAX));
    assert_eq!(to_millis(u64::MAX / 1000, TimeUnit::Seconds), (u64::MAX / 1000) * 1000);
}

#[test]
fn unrecognized_tag_rejected() {
    assert!(duration_from_tag(5, "min").is_err());
    assert!(build_default_only(5, "h").is_err());
    let overrides: Vec<(char, u64, &str)> = vec![(' ', 250, "ms")];
    assert!(build_table(90, "days", &overrides).is_err());
    let bad: Vec<(char, u64, &str)> = vec![(' ', 250, "ms"), ('.', 1, "hours")];
    assert!(build_table(90, "ms", &bad).is_err());
    assert!(build_overrides_only(&bad).is_err());
}

#[test]
fn default_only_form() {
    let table = build_default_only(20, "ms").unwrap();
    assert_eq!(table.default_duration, 20);
    assert!(table.specific_duration.is_empty());
    assert_eq!(table.duration(' '), 20);
    assert_eq!(table.duration('a'), 20);
}

#[test]
fn default_and_overrides_form() {
    let overrides: Vec<(char, u64, &str)> = vec![(' ', 1, "s"), (',', 100, "ms")];
    let table = build_table(50, "ms", &overrides).unwrap();
    assert_eq!(table.default_duration, 50);
    assert_eq!(table.specific_duration, vec![(' ', 1000), (',', 100)]);
    assert_eq!(table.duration(' '), 1000);
    assert_eq!(table.duration(','), 100);
    assert_eq!(table.duration('a'), 50);
}

#[test]
fn overrides_only_zero_default() {
    let overrides: Vec<(char, u64, &str)> = vec![(' ', 1, "s")];
    let table = build_overrides_only(&overrides).unwrap();
    assert_eq!(table.default_duration, 0);
    assert_eq!(table.specific_duration, vec![(' ', 1000)]);
    assert_eq!(table.duration(' '), 1000);
    assert_eq!(table.duration('a'), 0);
}
