use vstd::prelude::*;
use crate::config::{Config, ConfigView, DirectoryConfig, RuleView};
use crate::path::{path_starts_with, starts_with_path};

verus! {

pub open spec fn rule_matches(rule: RuleView, dir: Seq<char>) -> bool {
    path_starts_with(dir, rule.path)
}

/// The key of the first rule from index `i` on that matches `dir`, else the default.
pub open spec fn resolve_from(c: ConfigView, dir: Seq<char>, i: int) -> Seq<char>
    decreases c.rules.len() - i,
{
    if i < 0 || i >= c.rules.len() {
        c.default
    } else if rule_matches(c.rules[i], dir) {
        c.rules[i].key
    } else {
        resolve_from(c, dir, i + 1)
    }
}

/// The key for working directory `dir`: that of the first matching rule, else the default.
pub open spec fn resolve(c: ConfigView, dir: Seq<char>) -> Seq<char> {
    resolve_from(c, dir, 0)
}

/// The key that applies in `current_dir`: the key of the first rule, in order,
/// whose path contains `current_dir` component by component, else the default.
pub fn determine_ssh_key(config: &Config, current_dir: &str) -> (r: String)
    ensures
        r@ == resolve(config@, current_dir@),
{
    let ghost c = config@;
    let mut i: usize = 0;
    while i < config.directories.len()
        invariant
            c == config@,
            0 <= i <= c.rules.len(),
            resolve(c, current_dir@) == resolve_from(c, current_dir@, i as int),
        decreases c.rules.len() - i,
    {
        let rule: &DirectoryConfig = &config.directories[i];
        assert(rule@ == c.rules[i as int]);
        if starts_with_path(current_dir, rule.path.as_str()) {
            return rule.key.clone();
        }
        i = i + 1;
    }
    config.default.clone()
}

proof fn lemma_resolve_none_from(c: ConfigView, dir: Seq<char>, i: int)
    requires
        0 <= i <= c.rules.len(),
        forall|j: int| i <= j < c.rules.len() ==> !rule_matches(#[trigger] c.rules[j], dir),
    ensures
        resolve_from(c, dir, i) == c.default,
    decreases c.rules.len() - i,
{
    if i < c.rules.len() {
        lemma_resolve_none_from(c, dir, i + 1);
    }
}

proof fn lemma_resolve_first_from(c: ConfigView, dir: Seq<char>, i: int, k: int)
    requires
        0 <= k <= i < c.rules.len(),
        rule_matches(c.rules[i], dir),
        forall|j: int| k <= j < i ==> !rule_matches(#[trigger] c.rules[j], dir),
    ensures
        resolve_from(c, dir, k) == c.rules[i].key,
    decreases i - k,
{
    if k < i {
        lemma_resolve_first_from(c, dir, i, k + 1);
    }
}

/// Where no rule matches the working directory, the default key is chosen.
pub proof fn law_default_when_no_rule_matches(c: ConfigView, dir: Seq<char>)
    requires
        forall|j: int| 0 <= j < c.rules.len() ==> !rule_matches(#[trigger] c.rules[j], dir),
    ensures
        resolve(c, dir) == c.default,
{
    lemma_resolve_none_from(c, dir, 0);
}

/// Where rule `i` matches the working directory and no earlier rule does, its key
/// is chosen.
pub proof fn law_first_matching_rule_wins(c: ConfigView, dir: Seq<char>, i: int)
    requires
        0 <= i < c.rules.len(),
        rule_matches(c.rules[i], dir),
        forall|j: int| 0 <= j < i ==> !rule_matches(#[trigger] c.rules[j], dir),
    ensures
        resolve(c, dir) == c.rules[i].key,
{
    lemma_resolve_first_from(c, dir, i, 0);
}

/// Of two matching rules `i < k`, with no matching rule before `i`, the key of
/// rule `i` is chosen, however long either path is.
pub proof fn law_earlier_rule_beats_later(c: ConfigView, dir: Seq<char>, i: int, k: int)
    requires
        0 <= i < k < c.rules.len(),
        rule_matches(c.rules[i], dir),
        rule_matches(c.rules[k], dir),
        forall|j: int| 0 <= j < i ==> !rule_matches(#[trigger] c.rules[j], dir),
    ensures
        resolve(c, dir) == c.rules[i].key,
{
    lemma_resolve_first_from(c, dir, i, 0);
}

} // verus!
