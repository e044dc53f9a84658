//! Tooltip text and the phrases handed to the localization lookup.

use vstd::prelude::*;
use vstd::string::*;

verus! {

/// The character that writes the decimal digit `d`.
pub open spec fn digit_char(d: int) -> char {
    if d == 0 {
        '0'
    } else if d == 1 {
        '1'
    } else if d == 2 {
        '2'
    } else if d == 3 {
        '3'
    } else if d == 4 {
        '4'
    } else if d == 5 {
        '5'
    } else if d == 6 {
        '6'
    } else if d == 7 {
        '7'
    } else if d == 8 {
        '8'
    } else {
        '9'
    }
}

/// The decimal numeral of `n`, most significant digit first, without leading zeros.
pub open spec fn decimal(n: nat) -> Seq<char>
    decreases n,
{
    if n < 10 {
        seq![digit_char(n as int)]
    } else {
        decimal(n / 10).push(digit_char((n % 10) as int))
    }
}

fn digit_str(d: usize) -> (s: &'static str)
    requires
        d < 10,
    ensures
        s@ == seq![digit_char(d as int)],
{
    proof {
        reveal_strlit("0");
        reveal_strlit("1");
        reveal_strlit("2");
        reveal_strlit("3");
        reveal_strlit("4");
        reveal_strlit("5");
        reveal_strlit("6");
        reveal_strlit("7");
        reveal_strlit("8");
        reveal_strlit("9");
    }
    let s = if d == 0 {
        "0"
    } else if d == 1 {
        "1"
    } else if d == 2 {
        "2"
    } else if d == 3 {
        "3"
    } else if d == 4 {
        "4"
    } else if d == 5 {
        "5"
    } else if d == 6 {
        "6"
    } else if d == 7 {
        "7"
    } else if d == 8 {
        "8"
    } else {
        "9"
    };
    assert(s@ =~= seq![digit_char(d as int)]);
    s
}

/// Writes `n` in decimal.
pub fn decimal_string(n: usize) -> (s: String)
    ensures
        s@ == decimal(n as nat),
    decreases n,
{
    if n < 10 {
        digit_str(n).to_owned()
    } else {
        let mut s = decimal_string(n / 10);
        s.append(digit_str(n % 10));
        assert(s@ =~= decimal((n / 10) as nat).push(digit_char((n % 10) as int)));
        s
    }
}

/// The texts of a tooltip that do not depend on the session count, already
/// localized by the caller.
#[derive(Clone, Debug)]
pub struct Labels {
    /// The application's display name.
    pub app_name: String,
    /// The localized form of [`SERVICE_RUNNING_PHRASE`].
    pub service_running: String,
    /// The localized form of [`READY_PHRASE`].
    pub ready: String,
}

/// The phrase shown while no session is active, before localization.
pub const SERVICE_RUNNING_PHRASE: &'static str = "Service is running";

/// The phrase shown while sessions are active, before localization.
pub const READY_PHRASE: &'static str = "Ready";

/// The characters of `" sessions"` after the closing brace of a sessions phrase.
pub open spec fn sessions_suffix() -> Seq<char> {
    seq!['}', ' ', 's', 'e', 's', 's', 'i', 'o', 'n', 's']
}

/// The phrase that announces `count` sessions, before localization: the
/// count in braces, so that the lookup can find the phrase's template and
/// put the number where the language wants it.
pub open spec fn sessions_phrase_text(count: nat) -> Seq<char> {
    seq!['{'] + decimal(count) + sessions_suffix()
}

impl Labels {
    /// The tooltip for `count` active sessions, where `sessions` is the
    /// localized sessions phrase for that count.
    ///
    /// With no session it is the name, a space and the "service is running"
    /// text, and `sessions` is not read. Otherwise it is the name, `" - "`,
    /// the "ready" text, a line break and `sessions`.
    pub open spec fn tooltip_text(&self, count: nat, sessions: Seq<char>) -> Seq<char> {
        if count == 0 {
            self.app_name@ + seq![' '] + self.service_running@
        } else {
            self.app_name@ + seq![' ', '-', ' '] + self.ready@ + seq!['\n'] + sessions
        }
    }
}

/// Builds the phrase to localize for `count` sessions, such as `{3} sessions`.
pub fn sessions_phrase(count: usize) -> (phrase: String)
    ensures
        phrase@ == sessions_phrase_text(count as nat),
{
    proof {
        reveal_strlit("{");
        reveal_strlit("} sessions");
    }
    let mut phrase = "{".to_owned();
    let digits = decimal_string(count);
    phrase.append(digits.as_str());
    phrase.append("} sessions");
    assert(phrase@ =~= sessions_phrase_text(count as nat));
    phrase
}

/// Builds the tooltip for `count` active sessions from `labels` and the
/// localized sessions phrase.
pub fn tooltip(labels: &Labels, count: usize, sessions: &str) -> (text: String)
    ensures
        text@ == labels.tooltip_text(count as nat, sessions@),
{
    proof {
        reveal_strlit(" ");
        reveal_strlit(" - ");
        reveal_strlit("\n");
    }
    let mut text = labels.app_name.clone();
    if count == 0 {
        text.append(" ");
        text.append(labels.service_running.as_str());
    } else {
        text.append(" - ");
        text.append(labels.ready.as_str());
        text.append("\n");
        text.append(sessions);
    }
    assert(text@ =~= labels.tooltip_text(count as nat, sessions@));
    text
}

/// The tooltip has two forms and the session count alone picks one. With no
/// session it is the "service is running" form, whatever the sessions phrase
/// holds; with any session it is the "ready" form, which ends in the
/// sessions phrase.
pub proof fn law_tooltip_forms(labels: Labels, count: nat, sessions: Seq<char>, other: Seq<char>)
    ensures
        labels.tooltip_text(0, sessions) == labels.app_name@ + seq![' '] + labels.service_running@,
        labels.tooltip_text(0, sessions) == labels.tooltip_text(0, other),
        count > 0 ==> labels.tooltip_text(count, sessions) == labels.app_name@ + seq![' ', '-', ' ']
            + labels.ready@ + seq!['\n'] + sessions,
        count > 0 ==> labels.tooltip_text(count, sessions) == labels.tooltip_text(1, sessions),
{
}

/// A decimal numeral is never empty and has no leading zero, but for zero
/// itself.
pub proof fn law_decimal_shape(n: nat)
    ensures
        decimal(n).len() >= 1,
        n > 0 ==> decimal(n)[0] != '0',
        n == 0 ==> decimal(n) == seq!['0'],
    decreases n,
{
    if n >= 10 {
        law_decimal_shape(n / 10);
    }
}

} // verus!
