//! From a track's metadata to the status line.

use crate::config::Config;
use crate::error::{text_of, StatusError};
use crate::feat::{feat_removed, remove_feat};
use crate::markup::{
    escaped, escaped_is_inert, format_for_printing, inert_at, markup_holds_values, markup_line,
    stands_at,
};
use crate::truncate::elided;
use vstd::prelude::*;
use vstd::string::*;

verus! {

/// A title with the credit of one artist behind it.
pub open spec fn credited(title: Seq<char>, artist: Seq<char>) -> Seq<char> {
    title + " (by "@ + artist + ")"@
}

/// The text to display for a title as it is, and the artists of the track:
/// the title with the first artist credited. A track without an artist has
/// no such text.
pub open spec fn composed(title: Seq<char>, artists: Seq<String>) -> Result<
    Seq<char>,
    StatusError,
> {
    if artists.len() == 0 {
        Err(StatusError::NoArtist)
    } else {
        Ok(credited(title, artists[0]@))
    }
}

/// The text to display for a track under `config`: the title first loses its
/// "featuring" annotation, where the configuration asks for that, and only
/// then gets the credit, so that the pattern never sees the artist. A pattern
/// that does not compile is reported before a missing artist is.
pub open spec fn displayed(config: &Config, title: Seq<char>, artists: Seq<String>) -> Result<
    Seq<char>,
    StatusError,
> {
    match feat_removed(title, config) {
        Ok(cleaned) => composed(cleaned, artists),
        Err(e) => Err(e),
    }
}

/// The status line for a track under `config`, or the reason why there is
/// none.
pub open spec fn rendered(config: &Config, title: Seq<char>, artists: Seq<String>) -> Result<
    Seq<char>,
    StatusError,
> {
    match displayed(config, title, artists) {
        Ok(text) => Ok(
            markup_line(
                config.color_text(),
                config.icon_text(),
                escaped(elided(text, config.budget())),
            ),
        ),
        Err(e) => Err(e),
    }
}

/// Credits the first of `artists` behind `title`. Only the first artist is
/// shown; a track without one is an error.
pub fn compose_display(title: &str, artists: &Vec<String>) -> (r: Result<String, StatusError>)
    ensures
        text_of(r) == composed(title@, artists@),
{
    if artists.len() == 0 {
        return Err(StatusError::NoArtist);
    }
    let mut out = String::from_str(title);
    out.append(" (by ");
    out.append(artists[0].as_str());
    out.append(")");
    Ok(out)
}

/// The text to display for a track: its title, cleaned as `config` asks, with
/// the first artist credited.
pub fn display_text(config: &Config, title: &str, artists: &Vec<String>) -> (r: Result<
    String,
    StatusError,
>)
    ensures
        text_of(r) == displayed(config, title@, artists@),
{
    match remove_feat(title, config) {
        Ok(cleaned) => compose_display(cleaned.as_str(), artists),
        Err(e) => Err(e),
    }
}

/// The status line for a track: the text to display, cut to the budget,
/// escaped and wrapped in markup. On an error there is no line at all.
pub fn status_line(config: &Config, title: &str, artists: &Vec<String>) -> (r: Result<
    String,
    StatusError,
>)
    ensures
        text_of(r) == rendered(config, title@, artists@),
{
    match display_text(config, title, artists) {
        Ok(text) => Ok(format_for_printing(config, text.as_str())),
        Err(e) => Err(e),
    }
}

/// Whatever the configuration and the text to display are, the line that
/// `format_for_printing` makes holds the colour and the icon in effect as they
/// are, and behind them a text that is harmless in markup: no angle bracket,
/// no quote, and no ampersand but at the start of an entity.
pub proof fn line_holds_values_and_inert_text(config: &Config, display: Seq<char>)
    ensures
        ({
            let text = escaped(elided(display, config.budget()));
            let line = markup_line(config.color_text(), config.icon_text(), text);
            &&& stands_at(line, 13, config.color_text())
            &&& stands_at(line, (config.color_text().len() + 15) as int, config.icon_text())
            &&& stands_at(
                line,
                (config.color_text().len() + config.icon_text().len() + 16) as int,
                text,
            )
            &&& forall|i: int| 0 <= i < text.len() ==> inert_at(text, i)
        }),
{
    let text = escaped(elided(display, config.budget()));
    markup_holds_values(config.color_text(), config.icon_text(), text);
    escaped_is_inert(elided(display, config.budget()));
}

/// With the removal switched off, the text to display is the title as it
/// came, with the first artist credited, whatever the pattern is.
pub proof fn displayed_keeps_title_when_off(config: &Config, title: Seq<char>, artists: Seq<String>)
    requires
        !config.strips_feat(),
        artists.len() > 0,
    ensures
        displayed(config, title, artists) == Ok::<Seq<char>, StatusError>(
            credited(title, artists[0]@),
        ),
{
}

} // verus!
