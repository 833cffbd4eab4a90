//! Rules and rule sets: compiling them, and applying them to one text.

use vstd::prelude::*;
use regex::Regex;
use crate::error::ReplacerError;
use crate::matcher::{compiled, pattern_compiles, replace_all, replaced_text};

verus! {

/// What a rule is to the contracts: a compiled matcher and the template
/// that is put in place of each match.
pub struct RuleSpec {
    pub matcher: Regex,
    pub template: Seq<char>,
}

/// The rule that a pattern which compiles and a template ask for.
pub open spec fn rule_of(pattern: Seq<char>, template: Seq<char>) -> RuleSpec {
    RuleSpec { matcher: compiled(pattern).unwrap(), template }
}

/// The text that one rule makes of `text`.
pub open spec fn apply_rule(rule: RuleSpec, text: Seq<char>) -> Seq<char> {
    replaced_text(rule.matcher, text, rule.template)
}

/// The text that a list of rules makes of `text`: the rules are applied in
/// list order, each to what the one before it produced.
pub open spec fn apply_rules(rules: Seq<RuleSpec>, text: Seq<char>) -> Seq<char>
    decreases rules.len(),
{
    if rules.len() == 0 {
        text
    } else {
        apply_rule(rules.last(), apply_rules(rules.drop_last(), text))
    }
}

/// A batch of texts as the contracts see it: each text as its characters.
pub open spec fn batch_view(texts: Seq<String>) -> Seq<Seq<char>> {
    Seq::new(texts.len(), |i: int| texts[i]@)
}

/// What a list of rules makes of a batch: as many texts as went in, in the
/// same order, each rewritten on its own.
pub open spec fn rewrite_batch(rules: Seq<RuleSpec>, batch: Seq<Seq<char>>) -> Seq<Seq<char>> {
    Seq::new(batch.len(), |i: int| apply_rules(rules, batch[i]))
}

/// The rules that a list of (pattern, template) pairs asks for, where every
/// pattern compiles.
pub open spec fn rules_of(pairs: Seq<(&str, &str)>) -> Seq<RuleSpec> {
    Seq::new(pairs.len(), |i: int| rule_of(pairs[i].0@, pairs[i].1@))
}

/// Whether `i` is the position of the first pattern of `pairs` that does not
/// compile.
pub open spec fn first_rejected(pairs: Seq<(&str, &str)>, i: int) -> bool {
    &&& 0 <= i < pairs.len()
    &&& !pattern_compiles(pairs[i].0@)
    &&& forall|j: int| 0 <= j < i ==> pattern_compiles(#[trigger] pairs[j].0@)
}

/// Whether every pattern of `pairs` compiles.
pub open spec fn all_compile(pairs: Seq<(&str, &str)>) -> bool {
    forall|j: int| 0 <= j < pairs.len() ==> pattern_compiles(#[trigger] pairs[j].0@)
}

/// A compiled matcher with its replacement template. Immutable once made.
pub struct Rule {
    matcher: Regex,
    template: String,
}

impl View for Rule {
    type V = RuleSpec;

    closed spec fn view(&self) -> RuleSpec {
        RuleSpec { matcher: self.matcher, template: self.template@ }
    }
}

impl Rule {
    /// Makes a rule of what compiling `pattern` gave: the rule where it
    /// compiled, and the error that names the pattern and its position
    /// `index` in the rule list where it did not.
    pub fn from_compiled(
        compiled: Result<Regex, regex::Error>,
        index: usize,
        pattern: &str,
        template: &str,
    ) -> (r: Result<Rule, ReplacerError>)
        ensures
            match compiled {
                Ok(m) => r matches Ok(rule) && rule@ == (RuleSpec {
                    matcher: m,
                    template: template@,
                }),
                Err(_) => r matches Err(e) && e.rejects_pattern(index as int, pattern@),
            },
    {
        match compiled {
            Ok(matcher) => Ok(Rule { matcher, template: template.to_owned() }),
            Err(_) => Err(ReplacerError::PatternCompile { index, pattern: pattern.to_owned() }),
        }
    }

    /// Compiles `pattern` and pairs the matcher with `template`. Succeeds
    /// exactly where the pattern compiles.
    pub fn compile(index: usize, pattern: &str, template: &str) -> (r: Result<Rule, ReplacerError>)
        ensures
            pattern_compiles(pattern@) ==> (r matches Ok(rule) && rule@ == rule_of(
                pattern@,
                template@,
            )),
            !pattern_compiles(pattern@) ==> (r matches Err(e) && e.rejects_pattern(
                index as int,
                pattern@,
            )),
    {
        Rule::from_compiled(Regex::new(pattern), index, pattern, template)
    }

    /// The template that this rule puts in place of each match.
    pub fn template(&self) -> (s: &str)
        ensures
            s@ == self@.template,
    {
        self.template.as_str()
    }

    /// Replaces every non-overlapping match of the rule's pattern in `text`
    /// by its template.
    pub fn apply(&self, text: &str) -> (out: String)
        ensures
            out@ == apply_rule(self@, text@),
    {
        replace_all(&self.matcher, text, self.template.as_str())
    }
}

/// An ordered list of rules, built once and never changed afterwards.
pub struct RuleSet {
    rules: Vec<Rule>,
}

impl View for RuleSet {
    type V = Seq<RuleSpec>;

    closed spec fn view(&self) -> Seq<RuleSpec> {
        Seq::new(self.rules@.len(), |i: int| self.rules@[i]@)
    }
}

impl RuleSet {
    /// Compiles the patterns of `pairs` in list order and stops at the first
    /// that does not compile: no rule set is returned then, and the error
    /// names that pattern.
    pub fn compile(pairs: &Vec<(&str, &str)>) -> (r: Result<RuleSet, ReplacerError>)
        ensures
            r is Ok <==> all_compile(pairs@),
            r matches Ok(set) ==> set@ == rules_of(pairs@),
            forall|i: int|
                first_rejected(pairs@, i) ==> (r matches Err(e) && e.rejects_pattern(
                    i,
                    pairs@[i].0@,
                )),
    {
        let mut rules: Vec<Rule> = Vec::new();
        let mut k: usize = 0;
        while k < pairs.len()
            invariant
                k <= pairs@.len(),
                rules@.len() == k,
                forall|j: int| 0 <= j < k ==> pattern_compiles(#[trigger] pairs@[j].0@),
                forall|j: int| 0 <= j < k ==> (#[trigger] rules@[j])@ == rules_of(pairs@)[j],
            decreases pairs@.len() - k,
        {
            let (pattern, template) = pairs[k];
            match Rule::compile(k, pattern, template) {
                Ok(rule) => {
                    rules.push(rule);
                },
                Err(e) => {
                    return Err(e);
                },
            }
            k += 1;
        }
        let set = RuleSet { rules };
        assert(set@ =~= rules_of(pairs@));
        Ok(set)
    }

    /// The number of rules.
    pub fn len(&self) -> (n: usize)
        ensures
            n == self@.len(),
    {
        self.rules.len()
    }

    /// Applies every rule to `text` in list order, each rule to what the one
    /// before it produced. With no rules the text comes back unchanged.
    pub fn apply(&self, text: &str) -> (out: String)
        ensures
            out@ == apply_rules(self@, text@),
    {
        let mut res = text.to_owned();
        let mut k: usize = 0;
        while k < self.rules.len()
            invariant
                k <= self.rules@.len(),
                res@ == apply_rules(self@.take(k as int), text@),
            decreases self.rules@.len() - k,
        {
            let next = self.rules[k].apply(res.as_str());
            proof {
                let done = self@.take(k + 1);
                assert(done.drop_last() =~= self@.take(k as int));
                assert(done.last() == self.rules@[k as int]@);
            }
            res = next;
            k += 1;
        }
        proof {
            assert(self@.take(k as int) =~= self@);
        }
        res
    }

    /// Applies the rules to every text of `texts` on the calling thread, in
    /// batch order.
    pub fn apply_each(&self, texts: &Vec<String>) -> (out: Vec<String>)
        ensures
            batch_view(out@) == rewrite_batch(self@, batch_view(texts@)),
    {
        let mut out: Vec<String> = Vec::new();
        let mut k: usize = 0;
        while k < texts.len()
            invariant
                k <= texts@.len(),
                out@.len() == k,
                forall|j: int| 0 <= j < k ==> (#[trigger] out@[j])@ == apply_rules(self@, texts@[j]@),
            decreases texts@.len() - k,
        {
            let rewritten = self.apply(texts[k].as_str());
            out.push(rewritten);
            k += 1;
        }
        assert(batch_view(out@) =~= rewrite_batch(self@, batch_view(texts@)));
        out
    }
}

} // verus!
