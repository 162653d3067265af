use wedder::condition::{classify, classify_codes, UndefinedCondition, WeatherCondition};
use wedder::weather::condition_from_icon;

#[test]
fn classify_clear_sky() {
    assert_eq!(classify(800), Ok(WeatherCondition::ClearSky));
}

#[test]
fn classify_many_clouds() {
    assert_eq!(classify(803), Ok(WeatherCondition::ManyClouds));
    assert_eq!(classify(804), Ok(WeatherCondition::ManyClouds));
    assert_eq!(classify(803), classify(804));
}

#[test]
fn classify_families() {
    assert_eq!(classify(200), Ok(WeatherCondition::Thunderstorm));
    assert_eq!(classify(232), Ok(WeatherCondition::Thunderstorm));
    assert_eq!(classify(300), Ok(WeatherCondition::Rain));
    assert_eq!(classify(301), Ok(WeatherCondition::Rain));
    assert_eq!(classify(310), Ok(WeatherCondition::Rain));
    assert_eq!(classify(302), Ok(WeatherCondition::HeavyRain));
    assert_eq!(classify(321), Ok(WeatherCondition::HeavyRain));
    assert_eq!(classify(500), Ok(WeatherCondition::Rain));
    assert_eq!(classify(520), Ok(WeatherCondition::Rain));
    assert_eq!(classify(501), Ok(WeatherCondition::HeavyRain));
    assert_eq!(classify(531), Ok(WeatherCondition::HeavyRain));
    assert_eq!(classify(600), Ok(WeatherCondition::Snow));
    assert_eq!(classify(622), Ok(WeatherCondition::Snow));
    assert_eq!(classify(701), Ok(WeatherCondition::Mist));
    assert_eq!(classify(781), Ok(WeatherCondition::Mist));
    assert_eq!(classify(801), Ok(WeatherCondition::FewClouds));
    assert_eq!(classify(802), Ok(WeatherCondition::Clouds));
}

#[test]
fn classify_unknown_codes() {
    assert_eq!(classify(999), Err(UndefinedCondition));
    assert_eq!(classify(-1), Err(UndefinedCondition));
    assert_eq!(classify(0), Err(UndefinedCondition));
    assert_eq!(classify(315), Err(UndefinedCondition));
    assert_eq!(classify(510), Err(UndefinedCondition));
    assert_eq!(classify(805), Err(UndefinedCondition));
    assert_eq!(classify(400), Err(UndefinedCondition));
}

#[test]
fn classify_rain_sun() {
    assert_eq!(
        classify_codes(&vec![800, 500]),
        Ok(WeatherCondition::RainSun)
    );
    assert_eq!(
        classify_codes(&vec![500, 800]),
        Ok(WeatherCondition::RainSun)
    );
    assert_eq!(
        classify_codes(&vec![800, 501]),
        Ok(WeatherCondition::RainSun)
    );
}

#[test]
fn classify_pair_first_wins() {
    assert_eq!(
        classify_codes(&vec![600, 800]),
        Ok(WeatherCondition::Snow)
    );
    assert_eq!(
        classify_codes(&vec![800, 801]),
        Ok(WeatherCondition::ClearSky)
    );
}

#[test]
fn classify_unclassifiable_second_code() {
    assert_eq!(classify_codes(&vec![200, 999]), Err(UndefinedCondition));
    assert_eq!(classify_codes(&vec![999, 200]), Err(UndefinedCondition));
    assert_eq!(classify_codes(&vec![800]), Ok(WeatherCondition::ClearSky));
}

#[test]
fn condition_names() {
    assert_eq!(WeatherCondition::Rain.name(), "Rain");
    assert_eq!(WeatherCondition::ClearSky.name(), "ClearSky");
    assert_eq!(WeatherCondition::Rain.key(), "rain");
    assert_eq!(WeatherCondition::ClearSky.key(), "clear_sky");
    assert_eq!(WeatherCondition::RainSun.key(), "rain_sun");
}

#[test]
fn undefined_condition_message() {
    assert_eq!(UndefinedCondition.message(), "Undefined weather condition");
}

#[test]
fn icon_codes() {
    assert_eq!(condition_from_icon("01d"), Some(WeatherCondition::ClearSky));
    assert_eq!(condition_from_icon("01n"), Some(WeatherCondition::ClearSky));
    assert_eq!(condition_from_icon("02d"), Some(WeatherCondition::FewClouds));
    assert_eq!(condition_from_icon("03n"), Some(WeatherCondition::Clouds));
    assert_eq!(condition_from_icon("04d"), Some(WeatherCondition::ManyClouds));
    assert_eq!(condition_from_icon("09n"), Some(WeatherCondition::Rain));
    assert_eq!(condition_from_icon("10d"), Some(WeatherCondition::HeavyRain));
    assert_eq!(
        condition_from_icon("11n"),
        Some(WeatherCondition::Thunderstorm)
    );
    assert_eq!(condition_from_icon("13d"), Some(WeatherCondition::Snow));
    assert_eq!(condition_from_icon("50n"), Some(WeatherCondition::Mist));
    assert_eq!(condition_from_icon("99x"), None);
    assert_eq!(condition_from_icon(""), None);
}
