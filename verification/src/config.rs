//! The immutable rule table: validation of raw configuration entries and
//! first-match lookup.

use crate::action::{shell_split, ActionParseError, ActionSpec};
use crate::keys::{key_code_of, KeyIdentity};
use crate::trigger::TriggerState;
use vstd::prelude::*;

verus! {

/// Compares two strings character for character.
pub fn string_eq(a: &String, b: &String) -> (r: bool)
    ensures
        r == (a@ == b@),
{
    a.eq(b)
}

/// The trigger state named by a configuration string: exactly "press",
/// "release" and "repeat" are recognized, case-sensitively.
pub open spec fn spec_trigger_from_name(s: Seq<char>) -> Option<TriggerState> {
    if s == "press"@ {
        Some(TriggerState::Press)
    } else if s == "release"@ {
        Some(TriggerState::Release)
    } else if s == "repeat"@ {
        Some(TriggerState::Repeat)
    } else {
        None
    }
}

/// The trigger state of a rule whose configuration names `on` as given:
/// an absent `on` defaults to `Press`.
pub open spec fn spec_rule_trigger(on: Option<Seq<char>>) -> Option<TriggerState> {
    match on {
        None => Some(TriggerState::Press),
        Some(s) => spec_trigger_from_name(s),
    }
}

/// Parses the trigger-state name of a rule.
pub fn trigger_from_name(s: &String) -> (r: Option<TriggerState>)
    ensures
        r == spec_trigger_from_name(s@),
{
    let press: String = String::from_str("press");
    let release: String = String::from_str("release");
    let repeat: String = String::from_str("repeat");
    if string_eq(s, &press) {
        Some(TriggerState::Press)
    } else if string_eq(s, &release) {
        Some(TriggerState::Release)
    } else if string_eq(s, &repeat) {
        Some(TriggerState::Repeat)
    } else {
        None
    }
}

/// A rule whose configuration names no trigger state triggers on `Press`.
pub proof fn lemma_absent_trigger_defaults_to_press()
    ensures
        spec_rule_trigger(None) == Some(TriggerState::Press),
{
}

/// One configured mapping from a key identity and a trigger state to a
/// command line. Several rules may share a key with different trigger
/// states; their order in the configuration is significant.
#[derive(Debug, Clone, PartialEq, Eq)]
pub struct Rule {
    pub key: KeyIdentity,
    pub on: TriggerState,
    pub action: ActionSpec,
}

impl Rule {
    pub open spec fn wf(&self) -> bool {
        self.action.wf()
    }

    /// Whether this rule fires for the given key and trigger state.
    pub open spec fn spec_matches(&self, key: KeyIdentity, on: TriggerState) -> bool {
        self.key == key && self.on == on
    }

    pub fn matches(&self, key: KeyIdentity, on: TriggerState) -> (r: bool)
        ensures
            r == self.spec_matches(key, on),
    {
        self.key.code == key.code && self.on == on
    }
}

/// A rule as read from the configuration source, before validation: a
/// symbolic key name, an optional trigger-state name, and one command
/// string.
#[derive(Debug, Clone, PartialEq, Eq)]
pub struct RawRule {
    pub key: String,
    pub on: Option<String>,
    pub action: String,
}

/// The optional trigger-state name of a raw rule, as a sequence view.
pub open spec fn on_view(r: RawRule) -> Option<Seq<char>> {
    match r.on {
        None => None,
        Some(s) => Some(s@),
    }
}

/// The key name of a raw rule is recognized.
pub open spec fn raw_key_ok(r: RawRule) -> bool {
    key_code_of(r.key@) is Some
}

/// The trigger-state name of a raw rule is recognized (or absent).
pub open spec fn raw_trigger_ok(r: RawRule) -> bool {
    spec_rule_trigger(on_view(r)) is Some
}

/// The command string of a raw rule tokenizes to at least one word.
pub open spec fn raw_action_ok(r: RawRule) -> bool {
    shell_split(r.action@) matches Some(w) && w.len() > 0
}

/// A raw rule that validation accepts.
pub open spec fn raw_rule_ok(r: RawRule) -> bool {
    raw_key_ok(r) && raw_trigger_ok(r) && raw_action_ok(r)
}

/// How a validated rule corresponds to the raw entry it was built from.
pub open spec fn rule_of_raw(raw: RawRule, rule: Rule) -> bool {
    &&& key_code_of(raw.key@) == Some(rule.key.code)
    &&& spec_rule_trigger(on_view(raw)) == Some(rule.on)
    &&& shell_split(raw.action@) == Some(rule.action@)
}

/// Why a configuration was rejected. Fatal at startup: no device is
/// watched before the whole configuration has been validated.
#[derive(Debug, Clone, PartialEq, Eq)]
pub enum ConfigError {
    /// A rule names a key that the input subsystem does not know.
    UnknownKeyName(String),
    /// A rule names a trigger state other than press, release or repeat.
    InvalidTriggerName(String),
    /// A command string with an unmatched quote.
    UnparsableCommand(String),
    /// A command string that is empty or all whitespace.
    EmptyCommand(String),
}

/// The error that validation reports for an invalid raw rule: the first
/// failing part of the entry, in the order key, trigger state, command.
pub open spec fn raw_rule_error(raw: RawRule, e: ConfigError) -> bool {
    if !raw_key_ok(raw) {
        e matches ConfigError::UnknownKeyName(n) && n@ == raw.key@
    } else if !raw_trigger_ok(raw) {
        e matches ConfigError::InvalidTriggerName(n) && Some(n@) == on_view(raw)
    } else if shell_split(raw.action@) is None {
        e matches ConfigError::UnparsableCommand(n) && n@ == raw.action@
    } else {
        e matches ConfigError::EmptyCommand(n) && n@ == raw.action@
    }
}

/// Validates one raw rule into a rule of the table.
pub fn build_rule(raw: &RawRule) -> (r: Result<Rule, ConfigError>)
    ensures
        r matches Ok(rule) ==> rule.wf() && rule_of_raw(*raw, rule),
        (r is Ok) <==> raw_rule_ok(*raw),
        r matches Err(e) ==> raw_rule_error(*raw, e),
{
    let key = match KeyIdentity::parse(self_key_str(raw)) {
        Some(k) => k,
        None => {
            return Err(ConfigError::UnknownKeyName(raw.key.clone()));
        },
    };
    let on = match &raw.on {
        None => TriggerState::Press,
        Some(name) => match trigger_from_name(name) {
            Some(t) => t,
            None => {
                return Err(ConfigError::InvalidTriggerName(name.clone()));
            },
        },
    };
    let action = match ActionSpec::parse(self_action_str(raw)) {
        Ok(a) => a,
        Err(ActionParseError::Unparsable) => {
            return Err(ConfigError::UnparsableCommand(raw.action.clone()));
        },
        Err(ActionParseError::Empty) => {
            return Err(ConfigError::EmptyCommand(raw.action.clone()));
        },
    };
    Ok(Rule { key, on, action })
}

/// The key name of a raw rule as a string slice.
fn self_key_str(raw: &RawRule) -> (r: &str)
    ensures
        r@ == raw.key@,
{
    raw.key.as_str()
}

/// The command string of a raw rule as a string slice.
fn self_action_str(raw: &RawRule) -> (r: &str)
    ensures
        r@ == raw.action@,
{
    raw.action.as_str()
}

/// The rule at index `i` is the first of the table to fire for the given
/// key and trigger state.
pub open spec fn is_first_match(
    rules: Seq<Rule>,
    key: KeyIdentity,
    on: TriggerState,
    i: int,
) -> bool {
    &&& 0 <= i < rules.len()
    &&& rules[i].spec_matches(key, on)
    &&& forall|j: int| 0 <= j < i ==> !(#[trigger] rules[j]).spec_matches(key, on)
}

/// At most one index is the first match for a key and trigger state.
pub proof fn lemma_first_match_unique(
    rules: Seq<Rule>,
    key: KeyIdentity,
    on: TriggerState,
    i: int,
    j: int,
)
    requires
        is_first_match(rules, key, on, i),
        is_first_match(rules, key, on, j),
    ensures
        i == j,
{
}

/// Every matching rule other than the first match stands strictly later
/// in the table: a later duplicate of a key and trigger state is never
/// the one found.
pub proof fn lemma_later_duplicates_unreachable(
    rules: Seq<Rule>,
    key: KeyIdentity,
    on: TriggerState,
    i: int,
    j: int,
)
    requires
        is_first_match(rules, key, on, i),
        0 <= j < rules.len(),
        rules[j].spec_matches(key, on),
        j != i,
    ensures
        i < j,
{
}

/// The immutable configuration: the exact name of the one target device,
/// and the ordered rule table. Constructed once at startup and never
/// mutated afterwards.
#[derive(Debug, Clone, PartialEq, Eq)]
pub struct Config {
    pub name: String,
    pub rules: Vec<Rule>,
}

impl Config {
    pub open spec fn wf(&self) -> bool {
        forall|i: int| 0 <= i < self.rules@.len() ==> (#[trigger] self.rules@[i]).wf()
    }

    /// Validates a whole configuration: the target device name and the
    /// raw rule entries, in order. Returns either a fully valid rule
    /// table or the error of the first invalid entry.
    pub fn new(name: String, entries: &Vec<RawRule>) -> (r: Result<Config, ConfigError>)
        ensures
            r matches Ok(c) ==> {
                &&& c.wf()
                &&& c.name == name
                &&& c.rules@.len() == entries@.len()
                &&& forall|i: int|
                    0 <= i < entries@.len() ==> rule_of_raw(
                        entries@[i],
                        #[trigger] c.rules@[i],
                    )
            },
            (r is Ok) <==> (forall|i: int|
                0 <= i < entries@.len() ==> raw_rule_ok(#[trigger] entries@[i])),
            r matches Err(e) ==> exists|i: int|
                {
                    &&& 0 <= i < entries@.len()
                    &&& !raw_rule_ok(#[trigger] entries@[i])
                    &&& forall|j: int| 0 <= j < i ==> raw_rule_ok(#[trigger] entries@[j])
                    &&& raw_rule_error(entries@[i], e)
                },
    {
        let mut rules: Vec<Rule> = Vec::new();
        let n = entries.len();
        let mut i: usize = 0;
        while i < n
            invariant
                0 <= i <= n,
                n == entries@.len(),
                rules@.len() == i,
                forall|j: int| 0 <= j < i ==> raw_rule_ok(#[trigger] entries@[j]),
                forall|j: int|
                    0 <= j < i ==> rule_of_raw(entries@[j], #[trigger] rules@[j]),
                forall|j: int| 0 <= j < i ==> (#[trigger] rules@[j]).wf(),
            decreases n - i,
        {
            match build_rule(&entries[i]) {
                Ok(rule) => {
                    rules.push(rule);
                },
                Err(e) => {
                    return Err(e);
                },
            }
            i = i + 1;
        }
        Ok(Config { name, rules })
    }

    /// First-match lookup: the index of the first rule in source order
    /// that fires for the given key and trigger state, if any rule does.
    pub fn find(&self, key: KeyIdentity, on: TriggerState) -> (r: Option<usize>)
        ensures
            r matches Some(i) ==> is_first_match(self.rules@, key, on, i as int),
            r is None ==> forall|j: int|
                0 <= j < self.rules@.len() ==> !(#[trigger] self.rules@[j]).spec_matches(
                    key,
                    on,
                ),
            (r is Some) <==> exists|j: int|
                0 <= j < self.rules@.len() && (#[trigger] self.rules@[j]).spec_matches(
                    key,
                    on,
                ),
    {
        let n = self.rules.len();
        let mut i: usize = 0;
        while i < n
            invariant
                0 <= i <= n,
                n == self.rules@.len(),
                forall|j: int|
                    0 <= j < i ==> !(#[trigger] self.rules@[j]).spec_matches(key, on),
            decreases n - i,
        {
            if self.rules[i].matches(key, on) {
                return Some(i);
            }
            i = i + 1;
        }
        None
    }
}

} // verus!
