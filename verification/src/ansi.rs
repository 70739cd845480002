use colored::Colorize;
use vstd::prelude::*;

verus! {

/// A character that may stand in the body of an ANSI escape sequence
/// `ESC [ body m`: a decimal digit or a semicolon.
pub open spec fn is_code_body_char(c: char) -> bool {
    ('0' <= c && c <= '9') || c == ';'
}

/// The length of the longest prefix of body characters.
pub open spec fn run_len(s: Seq<char>) -> nat
    decreases s.len(),
{
    if s.len() == 0 || !is_code_body_char(s[0]) {
        0
    } else {
        1 + run_len(s.drop_first())
    }
}

/// The length of the ANSI escape sequence standing at the head of `s`, if one
/// does: `ESC [`, a run of digits and semicolons, then `m`.
pub open spec fn code_len(s: Seq<char>) -> Option<int> {
    if s.len() >= 3 && s[0] == '\u{1b}' && s[1] == '[' {
        let n = run_len(s.skip(2)) as int;
        if 2 + n < s.len() && s[2 + n] == 'm' {
            Some(3 + n)
        } else {
            None
        }
    } else {
        None
    }
}

/// The text with every ANSI escape sequence removed, scanning left to right.
pub open spec fn strip_ansi(s: Seq<char>) -> Seq<char>
    decreases s.len(),
{
    if s.len() == 0 {
        s
    } else {
        match code_len(s) {
            Some(n) => strip_ansi(s.skip(n)),
            None => seq![s[0]] + strip_ansi(s.drop_first()),
        }
    }
}

/// The text holds no escape character, so no ANSI escape sequence either.
pub open spec fn no_esc(s: Seq<char>) -> bool {
    forall|i: int| 0 <= i < s.len() ==> s[i] != '\u{1b}'
}

/// Stripping escape sequences from text that has none leaves it unchanged.
pub proof fn lemma_strip_no_esc(s: Seq<char>)
    requires
        no_esc(s),
    ensures
        strip_ansi(s) == s,
    decreases s.len(),
{
    if s.len() > 0 {
        assert(s[0] != '\u{1b}');
        assert(code_len(s) is None);
        lemma_strip_no_esc(s.drop_first());
        assert(seq![s[0]] + s.drop_first() =~= s);
    }
}

/// Relies on regex's Regex::replace_all with the pattern `\x1b\[[0-9;]*m` and
/// an empty replacement: it removes every ANSI escape sequence, scanning left
/// to right for non-overlapping matches. Regex::new cannot fail on this fixed,
/// valid pattern.
#[verifier::external_body]
pub(crate) fn strip_colors_text(input: &str) -> (r: String)
    ensures
        r@ == strip_ansi(input@),
{
    let re = regex::Regex::new("\\x1b\\[[0-9;]*m").unwrap();
    re.replace_all(input, "").to_string()
}

/// Relies on colored's Colorize::color (through Color::from on the color
/// name) and ColoredString's Display: the output is the input with ANSI
/// escape sequences added around it (and, after inner reset sequences,
/// rearranged), or the input unchanged when colors are off; stripped of
/// escape sequences it reads the same as the input.
#[verifier::external_body]
pub(crate) fn paint_color(text: &str, name: &str) -> (r: String)
    ensures
        strip_ansi(r@) == strip_ansi(text@),
{
    text.color(colored::Color::from(name)).to_string()
}

/// Relies on colored's Colorize::on_color and ColoredString's Display, as
/// `paint_color`: the escape-stripped text is unchanged.
#[verifier::external_body]
pub(crate) fn paint_on_color(text: &str, name: &str) -> (r: String)
    ensures
        strip_ansi(r@) == strip_ansi(text@),
{
    text.on_color(colored::Color::from(name)).to_string()
}

/// Relies on colored's Colorize::bold and ColoredString's Display: the
/// escape-stripped text is unchanged.
#[verifier::external_body]
pub(crate) fn paint_bold(text: &str) -> (r: String)
    ensures
        strip_ansi(r@) == strip_ansi(text@),
{
    text.bold().to_string()
}

/// Relies on colored's Colorize::underline and ColoredString's Display: the
/// escape-stripped text is unchanged.
#[verifier::external_body]
pub(crate) fn paint_underline(text: &str) -> (r: String)
    ensures
        strip_ansi(r@) == strip_ansi(text@),
{
    text.underline().to_string()
}

/// Relies on colored's Colorize::italic and ColoredString's Display: the
/// escape-stripped text is unchanged.
#[verifier::external_body]
pub(crate) fn paint_italic(text: &str) -> (r: String)
    ensures
        strip_ansi(r@) == strip_ansi(text@),
{
    text.italic().to_string()
}

/// Relies on colored's Colorize::dimmed and ColoredString's Display: the
/// escape-stripped text is unchanged.
#[verifier::external_body]
pub(crate) fn paint_dimmed(text: &str) -> (r: String)
    ensures
        strip_ansi(r@) == strip_ansi(text@),
{
    text.dimmed().to_string()
}

/// Relies on colored's Colorize::reversed and ColoredString's Display: the
/// escape-stripped text is unchanged.
#[verifier::external_body]
pub(crate) fn paint_reversed(text: &str) -> (r: String)
    ensures
        strip_ansi(r@) == strip_ansi(text@),
{
    text.reversed().to_string()
}

/// Relies on colored's Colorize::blink and ColoredString's Display: the
/// escape-stripped text is unchanged.
#[verifier::external_body]
pub(crate) fn paint_blink(text: &str) -> (r: String)
    ensures
        strip_ansi(r@) == strip_ansi(text@),
{
    text.blink().to_string()
}

/// Relies on colored's Colorize::hidden and ColoredString's Display: the
/// escape-stripped text is unchanged.
#[verifier::external_body]
pub(crate) fn paint_hidden(text: &str) -> (r: String)
    ensures
        strip_ansi(r@) == strip_ansi(text@),
{
    text.hidden().to_string()
}

/// Relies on colored's Colorize::strikethrough and ColoredString's Display:
/// the escape-stripped text is unchanged.
#[verifier::external_body]
pub(crate) fn paint_strikethrough(text: &str) -> (r: String)
    ensures
        strip_ansi(r@) == strip_ansi(text@),
{
    text.strikethrough().to_string()
}

} // verus!
