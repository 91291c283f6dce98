//! Classification of output lines.
//!
//! A line is tested against a fixed, ordered list of patterns. The style of
//! the first pattern that matches is the style of the line; a line that no
//! pattern matches has the default style. The matching itself is done by the
//! `regex` crate; which rule wins is decided here.

use regex::RegexSet;
use vstd::prelude::*;

verus! {

/// Foreground colour of a line.
#[derive(Clone, Copy, Debug, PartialEq, Eq, Structural)]
pub enum Color {
    White,
    Blue,
    Yellow,
    Cyan,
    Red,
    Green,
}

/// Style of a line: its colour and whether it is set in bold.
#[derive(Clone, Copy, Debug, PartialEq, Eq, Structural)]
pub struct Style {
    pub color: Color,
    pub bold: bool,
}

/// Number of rules.
pub const RULE_COUNT: usize = 9;

/// The patterns of the rules, in the order in which they are tried.
pub open spec fn rule_texts() -> Seq<Seq<char>> {
    seq![
        r"^(\x60|\.|:|/|-|\+|o|s|h|d|y| ){50,}"@,
        r"^# "@,
        r"(?m)^\s*(-|=|#)+\s*$"@,
        r"^\[ =+ ?.* ?=+ \]"@,
        r"^> \w+"@,
        r"^(ERROR)|(WARNING): "@,
        r"^.*: +.*"@,
        r"^\[.*\]"@,
        r"(?m)^\S+( \[?-\S*( <\S*>)?\]?)*\s*$"@,
    ]
}

/// The style that rule number `rule` gives: picture made of characters,
/// command marker, separator line, headline banner, status line, error or
/// warning, key and value, bracketed annotation, command usage.
pub open spec fn rule_style(rule: int) -> Style {
    if rule == 0 {
        Style { color: Color::White, bold: false }
    } else if rule == 1 {
        Style { color: Color::White, bold: true }
    } else if rule == 2 {
        Style { color: Color::Blue, bold: false }
    } else if rule == 3 {
        Style { color: Color::Yellow, bold: true }
    } else if rule == 4 {
        Style { color: Color::Cyan, bold: false }
    } else if rule == 5 {
        Style { color: Color::Red, bold: false }
    } else if rule == 6 {
        Style { color: Color::Green, bold: false }
    } else if rule == 7 {
        Style { color: Color::Green, bold: true }
    } else {
        Style { color: Color::Yellow, bold: false }
    }
}

/// The style of a line that no rule matches.
pub open spec fn default_style() -> Style {
    Style { color: Color::White, bold: false }
}

/// The patterns that a `RegexSet` was built from, in their order.
pub uninterp spec fn set_patterns(set: RegexSet) -> Seq<Seq<char>>;

/// Whether `RegexSet::new` accepts `patterns`.
pub uninterp spec fn compiles(patterns: Seq<Seq<char>>) -> bool;

/// The indices of those of `patterns` that match somewhere in `text`, as a
/// `RegexSet` built from `patterns` by `RegexSet::new` reports them.
pub uninterp spec fn set_matches(patterns: Seq<Seq<char>>, text: Seq<char>) -> Seq<usize>;

/// Whether rule number `rule` matches `text`.
pub open spec fn rule_matches(rule: int, text: Seq<char>) -> bool {
    0 <= rule < RULE_COUNT && set_matches(rule_texts(), text).contains(rule as usize)
}

/// The first rule from number `from` on that matches `text`, or
/// [`RULE_COUNT`] if there is none.
pub open spec fn first_rule(text: Seq<char>, from: int) -> int
    decreases RULE_COUNT - from,
{
    if from >= RULE_COUNT {
        RULE_COUNT as int
    } else if rule_matches(from, text) {
        from
    } else {
        first_rule(text, from + 1)
    }
}

/// The style of the line `text`: that of the first rule that matches it.
pub open spec fn style_of_text(text: Seq<char>) -> Style {
    let rule = first_rule(text, 0);
    if rule < RULE_COUNT {
        rule_style(rule)
    } else {
        default_style()
    }
}

/// The style that a list of matching rules stands for: that of the rule named
/// first, the default style if the list is empty or names no rule first.
pub open spec fn style_of_hits(hits: Seq<usize>) -> Style {
    if hits.len() > 0 && hits[0] < RULE_COUNT {
        rule_style(hits[0] as int)
    } else {
        default_style()
    }
}

/// `regex::RegexSet`, carried through as an opaque value.
#[verifier::external_type_specification]
#[verifier::external_body]
pub struct ExRegexSet(RegexSet);

/// The texts of a list of string slices.
pub open spec fn texts_of(patterns: Seq<&str>) -> Seq<Seq<char>> {
    Seq::new(patterns.len(), |i: int| patterns[i]@)
}

/// Calls `RegexSet::new`. Trusted: a set is returned exactly if the patterns
/// are accepted, which depends on the patterns alone, and the set then holds
/// these patterns in this order.
#[verifier::external_body]
fn compile_set(patterns: &Vec<&str>) -> (compiled: Option<RegexSet>)
    ensures
        compiled is Some <==> compiles(texts_of(patterns@)),
        compiled matches Some(set) ==> set_patterns(set) == texts_of(patterns@),
{
    RegexSet::new(patterns).ok()
}

/// Calls `RegexSet::matches` and lists the indices that it reports. Trusted:
/// for a set built by `RegexSet::new`, as every set in this crate is, the
/// list depends on the patterns and the text alone; it is in ascending order
/// and names only patterns of the set.
#[verifier::external_body]
fn matching_rules(set: &RegexSet, text: &str) -> (hits: Vec<usize>)
    ensures
        hits@ == set_matches(set_patterns(*set), text@),
        forall|i: int, j: int| 0 <= i < j < hits@.len() ==> hits@[i] < hits@[j],
        forall|i: int| 0 <= i < hits@.len() ==> hits@[i] < set_patterns(*set).len(),
{
    set.matches(text).into_iter().collect()
}

/// The rule table in compiled form.
pub struct OutputClassifier {
    set: RegexSet,
}

/// Looks up [`rule_style`]; a number that names no rule gives the default
/// style.
pub fn style_of_rule(rule: usize) -> (style: Style)
    ensures
        style == if rule < RULE_COUNT {
            rule_style(rule as int)
        } else {
            default_style()
        },
{
    match rule {
        0 => Style { color: Color::White, bold: false },
        1 => Style { color: Color::White, bold: true },
        2 => Style { color: Color::Blue, bold: false },
        3 => Style { color: Color::Yellow, bold: true },
        4 => Style { color: Color::Cyan, bold: false },
        5 => Style { color: Color::Red, bold: false },
        6 => Style { color: Color::Green, bold: false },
        7 => Style { color: Color::Green, bold: true },
        8 => Style { color: Color::Yellow, bold: false },
        _ => Style { color: Color::White, bold: false },
    }
}

/// Picks the style for a line from the list of rules that match it.
pub fn pick_style(hits: &Vec<usize>) -> (style: Style)
    ensures
        style == style_of_hits(hits@),
{
    if hits.len() > 0 {
        style_of_rule(hits[0])
    } else {
        Style { color: Color::White, bold: false }
    }
}

/// If no rule from `from` on matches, there is no first rule.
proof fn lemma_first_rule_none(text: Seq<char>, from: int)
    requires
        0 <= from,
        forall|rule: int| from <= rule < RULE_COUNT ==> !rule_matches(rule, text),
    ensures
        first_rule(text, from) == RULE_COUNT,
    decreases RULE_COUNT - from,
{
    if from < RULE_COUNT {
        lemma_first_rule_none(text, from + 1);
    }
}

/// A rule that matches, with no matching rule between `from` and it, is the
/// first rule from `from` on.
proof fn lemma_first_rule_found(text: Seq<char>, from: int, rule: int)
    requires
        0 <= from <= rule < RULE_COUNT,
        rule_matches(rule, text),
        forall|earlier: int| from <= earlier < rule ==> !rule_matches(earlier, text),
    ensures
        first_rule(text, from) == rule,
    decreases rule - from,
{
    if from < rule {
        lemma_first_rule_found(text, from + 1, rule);
    }
}

/// A line that rule number `rule` matches, and no rule before it, has the
/// style of that rule.
pub proof fn lemma_first_matching_rule_decides(text: Seq<char>, rule: int)
    requires
        0 <= rule < RULE_COUNT,
        rule_matches(rule, text),
        forall|earlier: int| 0 <= earlier < rule ==> !rule_matches(earlier, text),
    ensures
        style_of_text(text) == rule_style(rule),
{
    lemma_first_rule_found(text, 0, rule);
}

/// A line that no rule matches has the default style.
pub proof fn lemma_unmatched_line_is_default(text: Seq<char>)
    requires
        forall|rule: int| 0 <= rule < RULE_COUNT ==> !rule_matches(rule, text),
    ensures
        style_of_text(text) == default_style(),
{
    lemma_first_rule_none(text, 0);
}

impl OutputClassifier {
    /// The set holds the rules of this module.
    pub closed spec fn wf(&self) -> bool {
        set_patterns(self.set) == rule_texts()
    }

    /// Compiles the rule table. There is a classifier exactly if the patterns
    /// are accepted.
    pub fn new() -> (classifier: Option<Self>)
        ensures
            classifier is Some <==> compiles(rule_texts()),
            classifier matches Some(c) ==> c.wf(),
    {
        let patterns: Vec<&str> = vec![
            r"^(\x60|\.|:|/|-|\+|o|s|h|d|y| ){50,}",
            r"^# ",
            r"(?m)^\s*(-|=|#)+\s*$",
            r"^\[ =+ ?.* ?=+ \]",
            r"^> \w+",
            r"^(ERROR)|(WARNING): ",
            r"^.*: +.*",
            r"^\[.*\]",
            r"(?m)^\S+( \[?-\S*( <\S*>)?\]?)*\s*$",
        ];
        assert(texts_of(patterns@) =~= rule_texts());
        match compile_set(&patterns) {
            Some(set) => Some(OutputClassifier { set }),
            None => None,
        }
    }

    /// The style of the line `text`.
    pub fn classify(&self, text: &str) -> (style: Style)
        requires
            self.wf(),
        ensures
            style == style_of_text(text@),
    {
        let hits = matching_rules(&self.set, text);
        proof {
            if hits@.len() == 0 {
                lemma_first_rule_none(text@, 0);
            } else {
                let rule = hits@[0] as int;
                assert forall|earlier: int| 0 <= earlier < rule implies !rule_matches(
                    earlier,
                    text@,
                ) by {
                    if rule_matches(earlier, text@) {
                        let at = choose|at: int|
                            0 <= at < hits@.len() && hits@[at] == earlier as usize;
                        assert(hits@[0] <= hits@[at]);
                    }
                }
                lemma_first_rule_found(text@, 0, rule);
            }
        }
        pick_style(&hits)
    }
}

} // verus!
