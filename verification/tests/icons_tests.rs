use wedder::condition::WeatherCondition;
use wedder::icons::Icons;

#[test]
fn default_table_glyphs() {
    let icons = Icons::default();
    assert_eq!(icons.get("mist"), Some(&"\u{e313}".to_string()));
    assert_eq!(icons.get("rain"), Some(&"\u{e316}".to_string()));
    assert_eq!(icons.get("clear_sky"), Some(&"\u{e30d}".to_string()));
    assert_eq!(icons.get("no_such_condition"), None);
}

#[test]
fn first_matching_pair_wins() {
    let icons = Icons::new(vec![
        ("rain".to_string(), "first".to_string()),
        ("rain".to_string(), "second".to_string()),
    ]);
    assert_eq!(icons.get("rain"), Some(&"first".to_string()));
}

#[test]
fn resolve_uses_table_or_name() {
    let icons = Icons::default();
    assert_eq!(icons.resolve(&WeatherCondition::Mist), "\u{e313}");
    let empty = Icons::new(vec![]);
    assert_eq!(empty.resolve(&WeatherCondition::Mist), "Mist");
    assert_eq!(empty.resolve(&WeatherCondition::Rain), "Rain");
}
