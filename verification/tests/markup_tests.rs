use spotify_status::config::{
    Config, DEFAULT_COLOR, DEFAULT_FEAT_REGEX, DEFAULT_ICON, DEFAULT_MAX_LENGTH,
    DEFAULT_REMOVE_FEAT,
};
use spotify_status::error::StatusError;
use spotify_status::markup::format_for_printing;
use spotify_status::pipeline::{compose_display, display_text, status_line};

#[test]
fn default_configuration_values() {
    let config = Config::default();
    assert_eq!(config.icon.as_deref(), Some("&#xf1bc;"));
    assert_eq!(config.color.as_deref(), Some("white"));
    assert_eq!(config.max_length, Some(45));
    assert_eq!(config.remove_feat, Some(false));
    assert_eq!(config.feat_regex.as_deref(), Some("\\(feat\\. [\\w* ]*\\)"));
    assert_eq!(DEFAULT_ICON, "&#xf1bc;");
    assert_eq!(DEFAULT_COLOR, "white");
    assert_eq!(DEFAULT_MAX_LENGTH, 45);
    assert!(!DEFAULT_REMOVE_FEAT);
    assert_eq!(DEFAULT_FEAT_REGEX, r"\(feat\. [\w* ]*\)");
}

#[test]
fn fields_fall_back_one_by_one() {
    let mut config = Config::unset();
    assert_eq!(config.icon_or_default(), "&#xf1bc;");
    assert_eq!(config.color_or_default(), "white");
    assert_eq!(config.max_length_or_default(), 45);
    assert!(!config.remove_feat_or_default());
    assert_eq!(config.feat_regex_or_default(), "\\(feat\\. [\\w* ]*\\)");
    config.color = Some("red".to_string());
    config.max_length = Some(10);
    assert_eq!(config.icon_or_default(), "&#xf1bc;");
    assert_eq!(config.color_or_default(), "red");
    assert_eq!(config.max_length_or_default(), 10);
    config.icon = Some("*".to_string());
    config.remove_feat = Some(true);
    config.feat_regex = Some("x".to_string());
    assert_eq!(config.icon_or_default(), "*");
    assert!(config.remove_feat_or_default());
    assert_eq!(config.feat_regex_or_default(), "x");
}

#[test]
fn formats_with_defaults() {
    assert_eq!(
        format_for_printing(&Config::unset(), "Song (by Artist)"),
        "<span color=\"white\">&#xf1bc; Song (by Artist)</span>"
    );
    assert_eq!(
        format_for_printing(&Config::default(), "Song (by Artist)"),
        "<span color=\"white\">&#xf1bc; Song (by Artist)</span>"
    );
}

#[test]
fn formats_with_configured_color_and_icon() {
    let mut config = Config::unset();
    config.color = Some("#1db954".to_string());
    config.icon = Some("♫".to_string());
    let out = format_for_printing(&config, "Song");
    assert_eq!(out, "<span color=\"#1db954\">♫ Song</span>");
    assert!(out.contains("#1db954"));
    assert!(out.contains("♫"));
}

#[test]
fn escapes_markup_characters() {
    assert_eq!(
        format_for_printing(&Config::default(), "a<b&c>\"d'e"),
        "<span color=\"white\">&#xf1bc; a&lt;b&amp;c&gt;&quot;d&#x27;e</span>"
    );
}

#[test]
fn cuts_before_it_escapes() {
    let mut config = Config::default();
    config.max_length = Some(5);
    assert_eq!(
        format_for_printing(&config, "<<<<<"),
        "<span color=\"white\">&#xf1bc; &lt;&lt;&lt;&lt;&lt;</span>"
    );
    assert_eq!(
        format_for_printing(&config, "<&abcdefg>"),
        "<span color=\"white\">&#xf1bc; &lt;...&gt;</span>"
    );
}

#[test]
fn cuts_to_the_default_budget() {
    let long = "0123456789012345678901234567890123456789012345";
    assert_eq!(long.len(), 46);
    assert_eq!(
        format_for_printing(&Config::unset(), long),
        "<span color=\"white\">&#xf1bc; 012345678901234567890...567890123456789012345</span>"
    );
}

#[test]
fn composes_with_the_first_artist() {
    let artists = vec!["Tame Impala".to_string(), "Someone Else".to_string()];
    assert_eq!(compose_display("1x1", &artists).unwrap(), "1x1 (by Tame Impala)");
}

#[test]
fn no_artist_is_an_error() {
    let artists: Vec<String> = Vec::new();
    assert_eq!(compose_display("1x1", &artists), Err(StatusError::NoArtist));
    assert_eq!(display_text(&Config::default(), "1x1", &artists), Err(StatusError::NoArtist));
    assert_eq!(status_line(&Config::default(), "1x1", &artists), Err(StatusError::NoArtist));
}

#[test]
fn invalid_pattern_comes_before_missing_artist() {
    let mut config = Config::default();
    config.remove_feat = Some(true);
    config.feat_regex = Some("[".to_string());
    let none: Vec<String> = Vec::new();
    assert_eq!(status_line(&config, "1x1", &none), Err(StatusError::InvalidPattern));
    let one = vec!["A".to_string()];
    assert_eq!(display_text(&config, "1x1", &one), Err(StatusError::InvalidPattern));
}

#[test]
fn end_to_end_with_defaults_keeps_the_annotation() {
    let config = Config::default();
    let artists = vec!["ArtistA".to_string()];
    let title = "Song Title (feat. Someone)";
    assert_eq!(
        display_text(&config, title, &artists).unwrap(),
        "Song Title (feat. Someone) (by ArtistA)"
    );
    assert_eq!(
        status_line(&config, title, &artists).unwrap(),
        "<span color=\"white\">&#xf1bc; Song Title (feat. Someone) (by ArtistA)</span>"
    );
}

#[test]
fn end_to_end_with_removal() {
    let mut config = Config::unset();
    config.remove_feat = Some(true);
    let artists = vec!["Tame Impala".to_string()];
    let title = "1x1 (feat. Nova Twins)";
    assert_eq!(display_text(&config, title, &artists).unwrap(), "1x1 (by Tame Impala)");
    assert_eq!(
        status_line(&config, title, &artists).unwrap(),
        "<span color=\"white\">&#xf1bc; 1x1 (by Tame Impala)</span>"
    );
}

#[test]
fn removal_does_not_see_the_artist() {
    let mut config = Config::unset();
    config.remove_feat = Some(true);
    let artists = vec!["(feat. Nobody)".to_string()];
    assert_eq!(
        display_text(&config, "Song (feat. X)", &artists).unwrap(),
        "Song (by (feat. Nobody))"
    );
}

#[test]
fn with_defaults_fills_only_what_is_missing() {
    let mut config = Config::unset();
    config.color = Some("red".to_string());
    config.remove_feat = Some(true);
    let full = config.with_defaults();
    assert_eq!(full.icon.as_deref(), Some("&#xf1bc;"));
    assert_eq!(full.color.as_deref(), Some("red"));
    assert_eq!(full.max_length, Some(45));
    assert_eq!(full.remove_feat, Some(true));
    assert_eq!(full.feat_regex.as_deref(), Some("\\(feat\\. [\\w* ]*\\)"));
}
