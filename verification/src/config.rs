//! The colours of the status line, as the configuration file names them.

use regex::Regex;
use vstd::prelude::*;

verus! {

/// A colour: red, green and blue, each from 0 to 255.
#[derive(Debug, Clone, Copy, PartialEq, Eq, Structural)]
pub struct Rgb(pub u8, pub u8, pub u8);

/// Why a text names no colour.
#[derive(Debug, Clone, Copy, PartialEq, Eq, Structural)]
pub enum ConfigError {
    /// The text holds nothing of the form `rgb(r, g, b)`.
    NoColor,
    /// A component is no number from 0 to 255.
    BadComponent,
}

/// The configuration as the file holds it: each colour as text.
#[derive(Debug)]
pub struct RawConfig {
    pub status_line_bg_color: String,
    pub status_line_fg_color: String,
}

/// The configuration.
#[derive(Debug, Clone, Copy, PartialEq, Eq, Structural)]
pub struct Config {
    pub status_line_bg_color: Rgb,
    pub status_line_fg_color: Rgb,
}

/// The form of a colour: `rgb(`, three numbers of one to three digits with
/// a comma and at most one blank between them, and `)`. Each number is a
/// group of its own.
pub const RGB_PATTERN: &'static str = r"rgb\((\d{1,3}),\s?(\d{1,3}),\s?(\d{1,3})\)";

/// What the regular expression `pattern` captures in `haystack`: for the
/// leftmost match, the text of each group, the whole match being group 0
/// and a group that took no part being `None`. It is `None` where the
/// pattern does not match, and where it is no regular expression.
pub uninterp spec fn regex_captures(pattern: Seq<char>, haystack: Seq<char>) -> Option<
    Seq<Option<Seq<char>>>,
>;

/// The view of each group, in order.
pub open spec fn group_views(groups: Seq<Option<String>>) -> Seq<Option<Seq<char>>> {
    Seq::new(
        groups.len(),
        |i: int|
            match groups[i] {
                Some(text) => Some(text@),
                None => None,
            },
    )
}

/// The views of captured groups, if there are any.
pub open spec fn captures_view(captures: Option<Vec<Option<String>>>) -> Option<
    Seq<Option<Seq<char>>>,
> {
    match captures {
        Some(groups) => Some(group_views(groups@)),
        None => None,
    }
}

/// `Regex::new` and `Regex::captures` of the regex crate: compiles
/// `pattern` and searches `haystack` for its leftmost match. The contract
/// only names the outcome, as a function of the two texts.
#[verifier::external_body]
fn captures(pattern: &str, haystack: &str) -> (captured: Option<Vec<Option<String>>>)
    ensures
        captures_view(captured) == regex_captures(pattern@, haystack@),
{
    let regex = Regex::new(pattern).ok()?;
    let found = regex.captures(haystack)?;
    Some(found.iter().map(|group| group.map(|m| m.as_str().to_string())).collect())
}

/// Whether `c` is one of the digits `0` to `9`.
pub open spec fn is_digit(c: char) -> bool {
    48 <= c as u32 <= 57
}

/// Whether `s` consists of digits.
pub open spec fn all_digits(s: Seq<char>) -> bool {
    forall|i: int| 0 <= i < s.len() ==> is_digit(#[trigger] s[i])
}

/// The number that the digits of `s` write in decimal.
pub open spec fn number(s: Seq<char>) -> nat
    decreases s.len(),
{
    if s.len() == 0 {
        0
    } else {
        number(s.drop_last()) * 10 + (s.last() as u32 - 48) as nat
    }
}

/// The component of a colour that `s` writes: its number, where `s` is one
/// or more digits and the number is at most 255.
pub open spec fn component(s: Seq<char>) -> Option<u8> {
    if s.len() > 0 && all_digits(s) && number(s) <= 255 {
        Some(number(s) as u8)
    } else {
        None
    }
}

/// The colour that captured groups give: there must be the match and the
/// three numbers, in this order, and each number a component.
pub open spec fn rgb_of(groups: Seq<Option<Seq<char>>>) -> Result<Rgb, ConfigError> {
    if groups.len() == 4 && groups[1] is Some && groups[2] is Some && groups[3] is Some
        && component(groups[1]->0) is Some && component(groups[2]->0) is Some && component(
        groups[3]->0,
    ) is Some {
        Ok(
            Rgb(
                component(groups[1]->0)->0,
                component(groups[2]->0)->0,
                component(groups[3]->0)->0,
            ),
        )
    } else {
        Err(ConfigError::BadComponent)
    }
}

/// The colour that `text` names.
pub open spec fn color_of(text: Seq<char>) -> Result<Rgb, ConfigError> {
    match regex_captures(RGB_PATTERN@, text) {
        Some(groups) => rgb_of(groups),
        None => Err(ConfigError::NoColor),
    }
}

/// The configuration that `raw` gives. Of two colours that cannot be read,
/// the failure of the foreground is reported.
pub open spec fn config_of(bg: Seq<char>, fg: Seq<char>) -> Result<Config, ConfigError> {
    match color_of(fg) {
        Err(e) => Err(e),
        Ok(fg_color) => match color_of(bg) {
            Err(e) => Err(e),
            Ok(bg_color) => Ok(
                Config { status_line_bg_color: bg_color, status_line_fg_color: fg_color },
            ),
        },
    }
}

/// The digits read so far never write more than the whole does.
proof fn lemma_number_grows(s: Seq<char>, n: int)
    requires
        0 <= n <= s.len(),
        all_digits(s),
    ensures
        number(s.take(n)) <= number(s),
    decreases s.len() - n,
{
    if n == s.len() {
        assert(s.take(n) =~= s);
    } else {
        lemma_number_grows(s, n + 1);
        assert(s.take(n + 1).drop_last() =~= s.take(n));
        assert(is_digit(s[n]));
        assert(s.take(n + 1).last() == s[n]);
    }
}

/// The component of a colour that `s` writes; see [`component`].
pub fn parse_component(s: &str) -> (value: Option<u8>)
    ensures
        value == component(s@),
{
    let mut value: u16 = 0;
    let mut any = false;
    for c in it: s.chars()
        invariant
            it.seq() == s@,
            any == (it.index() > 0),
            all_digits(s@.take(it.index())),
            value == number(s@.take(it.index())),
            value <= 255,
    {
        let ghost n = it.index();
        proof {
            assert(s@.take(n + 1).drop_last() =~= s@.take(n));
            assert(s@.take(n + 1).last() == c);
        }
        let code = c as u32;
        if code < 48 || code > 57 {
            assert(!is_digit(s@[n]));
            return None;
        }
        value = value * 10 + (code - 48) as u16;
        if value > 255 {
            proof {
                if all_digits(s@) {
                    lemma_number_grows(s@, n + 1);
                }
            }
            return None;
        }
        any = true;
    }
    proof {
        assert(s@.take(s@.len() as int) =~= s@);
    }
    if any {
        Some(value as u8)
    } else {
        None
    }
}

/// The colour that captured groups give; see [`rgb_of`].
pub fn rgb_from_groups(groups: &Vec<Option<String>>) -> (color: Result<Rgb, ConfigError>)
    ensures
        color == rgb_of(group_views(groups@)),
{
    if groups.len() != 4 {
        return Err(ConfigError::BadComponent);
    }
    match (&groups[1], &groups[2], &groups[3]) {
        (Some(red), Some(green), Some(blue)) => {
            match (
                parse_component(red.as_str()),
                parse_component(green.as_str()),
                parse_component(blue.as_str()),
            ) {
                (Some(r), Some(g), Some(b)) => Ok(Rgb(r, g, b)),
                _ => Err(ConfigError::BadComponent),
            }
        },
        _ => Err(ConfigError::BadComponent),
    }
}

/// The colour that `string` names: the first `rgb(r, g, b)` in it; see
/// [`color_of`].
pub fn parse_rgb_string(string: &str) -> (color: Result<Rgb, ConfigError>)
    ensures
        color == color_of(string@),
{
    match captures(RGB_PATTERN, string) {
        Some(groups) => rgb_from_groups(&groups),
        None => Err(ConfigError::NoColor),
    }
}

impl RawConfig {
    /// The configuration with each colour read; see [`config_of`].
    pub fn to_config(&self) -> (config: Result<Config, ConfigError>)
        ensures
            config == config_of(self.status_line_bg_color@, self.status_line_fg_color@),
    {
        let fg = match parse_rgb_string(self.status_line_fg_color.as_str()) {
            Ok(color) => color,
            Err(e) => {
                return Err(e);
            },
        };
        let bg = match parse_rgb_string(self.status_line_bg_color.as_str()) {
            Ok(color) => color,
            Err(e) => {
                return Err(e);
            },
        };
        Ok(Config { status_line_bg_color: bg, status_line_fg_color: fg })
    }
}

} // verus!
