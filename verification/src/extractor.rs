//! Data extraction engine for structured data extraction.

use crate::error::FerrisFetcherError;
use crate::html_parser::{
    attributes_of, markups_of, reports_invalid_selector, pattern_complaint, texts_of, HtmlParser,
};
use crate::string_map::{keys_with, position, values_with, StringMap};
use crate::text::concat3;
use crate::types::{optional_text, ExtractionRule, ExtractionType, RuleModel};
use vstd::prelude::*;

pub mod presets;

verus! {

/// A sequence with the one value of `value`, or none.
pub open spec fn at_most_one(value: Option<Seq<char>>) -> Seq<Seq<char>> {
    match value {
        Some(v) => seq![v],
        None => Seq::empty(),
    }
}

/// Whether a rule is an attribute rule without an attribute name.
pub open spec fn lacks_attribute(rule: RuleModel) -> bool {
    rule.extraction_type is Attribute && rule.attribute is None
}

/// Whether applying a rule fails: an attribute rule names no attribute, or
/// a rule for multiple values has a pattern that is no selector.
pub open spec fn rule_fails(rule: RuleModel) -> bool {
    lacks_attribute(rule) || (rule.multiple && pattern_complaint(rule.selector) is Some)
}

/// What a rule that does not fail extracts from a document.
pub open spec fn rule_values(parser: HtmlParser, rule: RuleModel) -> Seq<Seq<char>> {
    match rule.extraction_type {
        ExtractionType::Text => if rule.multiple {
            texts_of(parser.matches(rule.selector))
        } else {
            at_most_one(parser.spec_first_text(rule.selector))
        },
        ExtractionType::Html | ExtractionType::OuterHtml => if rule.multiple {
            markups_of(parser.matches(rule.selector))
        } else {
            at_most_one(parser.spec_first_html(rule.selector))
        },
        ExtractionType::Attribute => if rule.multiple {
            attributes_of(parser.matches(rule.selector), rule.attribute->Some_0)
        } else {
            at_most_one(parser.spec_first_attr(rule.selector, rule.attribute->Some_0))
        },
    }
}

/// Whether `e` is the error owed for a rule that fails.
pub open spec fn reports_rule_failure(e: FerrisFetcherError, rule: RuleModel) -> bool {
    if lacks_attribute(rule) {
        &&& e is ExtractionError
        &&& e->ExtractionError_0@ == "Attribute extraction requires attribute name for rule '"@
            + rule.name + "'"@
    } else {
        reports_invalid_selector(e, rule.selector)
    }
}

/// What is wrong with the rule stored under `key`, if anything: an empty
/// pattern, an empty name, or an attribute rule without attribute name.
pub open spec fn rule_problem(key: Seq<char>, rule: RuleModel) -> Option<Seq<char>> {
    if rule.selector.len() == 0 {
        Some("Rule '"@ + key + "' has empty selector"@)
    } else if rule.name.len() == 0 {
        Some("Rule has empty name"@)
    } else if lacks_attribute(rule) {
        Some("Rule '"@ + key + "' with Attribute extraction type requires attribute name"@)
    } else {
        None
    }
}

/// Whether none of the first `n` rules has a problem.
pub open spec fn no_problem_before(keys: Seq<Seq<char>>, rules: Seq<ExtractionRule>, n: int) -> bool {
    forall|j: int| 0 <= j < n ==> (#[trigger] rule_problem(keys[j], rules[j]@)) is None
}

/// Whether rule `i` is the first one with a problem.
pub open spec fn is_first_problem(keys: Seq<Seq<char>>, rules: Seq<ExtractionRule>, i: int) -> bool {
    &&& 0 <= i < keys.len()
    &&& i < rules.len()
    &&& no_problem_before(keys, rules, i)
    &&& rule_problem(keys[i], rules[i]@) is Some
}

/// Whether `e` reports the problem of rule `i`, the first rule that has
/// one.
pub open spec fn reports_first_problem(
    keys: Seq<Seq<char>>,
    rules: Seq<ExtractionRule>,
    e: FerrisFetcherError,
    i: int,
) -> bool {
    &&& is_first_problem(keys, rules, i)
    &&& e is ExtractionError
    &&& e->ExtractionError_0@ == rule_problem(keys[i], rules[i]@)->Some_0
}

/// An attribute rule that names no attribute has a problem, so a rule set
/// that holds one is never found valid; the rule reported is this one or an
/// earlier one, and where nothing else is wrong with this rule, the report
/// on it quotes the name under which it is stored.
pub proof fn lemma_attribute_rule_needs_name(
    keys: Seq<Seq<char>>,
    rules: Seq<ExtractionRule>,
    i: int,
)
    requires
        0 <= i < keys.len(),
        keys.len() == rules.len(),
        lacks_attribute(rules[i]@),
    ensures
        rule_problem(keys[i], rules[i]@) is Some,
        !no_problem_before(keys, rules, keys.len() as int),
        forall|e: FerrisFetcherError, j: int| reports_first_problem(keys, rules, e, j) ==> j <= i,
        rules[i]@.selector.len() > 0 && rules[i]@.name.len() > 0 ==> rule_problem(
            keys[i],
            rules[i]@,
        ) == Some(
            "Rule '"@ + keys[i]
                + "' with Attribute extraction type requires attribute name"@,
        ),
{
    assert(rule_problem(keys[i], rules[i]@) is Some);
}

/// The keys of an extractor that was given `rules` one after the other.
pub open spec fn keys_after(rules: Seq<ExtractionRule>) -> Seq<Seq<char>>
    decreases rules.len(),
{
    if rules.len() == 0 {
        Seq::empty()
    } else {
        keys_with(keys_after(rules.drop_last()), rules.last().name@)
    }
}

/// The rules of an extractor that was given `rules` one after the other:
/// of two rules with one name the later one stays.
pub open spec fn rules_after(rules: Seq<ExtractionRule>) -> Seq<ExtractionRule>
    decreases rules.len(),
{
    if rules.len() == 0 {
        Seq::empty()
    } else {
        values_with(
            keys_after(rules.drop_last()),
            rules_after(rules.drop_last()),
            rules.last().name@,
            rules.last(),
        )
    }
}

/// A vector holding `value`, if there is one.
fn one_or_none(value: Option<String>) -> (r: Vec<String>)
    ensures
        r.deep_view() == at_most_one(optional_text(value)),
{
    let mut values: Vec<String> = Vec::new();
    match value {
        Some(v) => {
            values.push(v);
            assert(values.deep_view() =~= seq![v@]);
        },
        None => {
            assert(values.deep_view() =~= Seq::<Seq<char>>::empty());
        },
    }
    values
}

/// Data extraction engine with configurable rules.
#[derive(Debug, Clone)]
pub struct DataExtractor {
    /// Extraction rules indexed by name.
    rules: StringMap<ExtractionRule>,
}

impl DataExtractor {
    /// The rules, keyed by the name under which each was added.
    pub closed spec fn spec_rules(&self) -> StringMap<ExtractionRule> {
        self.rules
    }

    /// Whether the rule stored under `name` contributes to `extract_all`:
    /// it exists, does not fail, and extracts at least one value.
    pub open spec fn yields(&self, parser: HtmlParser, name: Seq<char>) -> bool {
        &&& self.spec_rules()@.contains_key(name)
        &&& !rule_fails(self.spec_rules()@[name]@)
        &&& rule_values(parser, self.spec_rules()@[name]@).len() > 0
    }

    /// Create a new data extractor.
    pub fn new() -> (r: Self)
        ensures
            r.spec_rules()@ == Map::<Seq<char>, ExtractionRule>::empty(),
            r.spec_rules().keys() == Seq::<Seq<char>>::empty(),
            r.spec_rules().values() == Seq::<ExtractionRule>::empty(),
    {
        DataExtractor { rules: StringMap::new() }
    }

    /// Create a data extractor with predefined rules. Of two rules with the
    /// same name the later one is kept.
    pub fn with_rules(rules: Vec<ExtractionRule>) -> (r: Self)
        ensures
            r.spec_rules().keys() == keys_after(rules@),
            r.spec_rules().values() == rules_after(rules@),
    {
        let mut extractor = Self::new();
        let mut i: usize = 0;
        assert(rules@.take(0) =~= Seq::<ExtractionRule>::empty());
        while i < rules.len()
            invariant
                i <= rules.len(),
                extractor.spec_rules().keys() == keys_after(rules@.take(i as int)),
                extractor.spec_rules().values() == rules_after(rules@.take(i as int)),
            decreases rules.len() - i,
        {
            proof {
                assert(rules@.take(i + 1).drop_last() =~= rules@.take(i as int));
            }
            extractor.add_rule(rules[i].duplicate());
            i += 1;
        }
        assert(rules@.take(rules.len() as int) =~= rules@);
        extractor
    }

    /// Add an extraction rule under its name, replacing any rule of that
    /// name.
    pub fn add_rule(&mut self, rule: ExtractionRule)
        ensures
            final(self).spec_rules()@ == old(self).spec_rules()@.insert(rule.name@, rule),
            final(self).spec_rules().keys() == keys_with(old(self).spec_rules().keys(), rule.name@),
            final(self).spec_rules().values() == values_with(
                old(self).spec_rules().keys(),
                old(self).spec_rules().values(),
                rule.name@,
                rule,
            ),
    {
        let name = rule.name.clone();
        self.rules.insert(name, rule);
    }

    /// Remove an extraction rule by name.
    pub fn remove_rule(&mut self, name: &str) -> (removed: Option<ExtractionRule>)
        ensures
            final(self).spec_rules()@ == old(self).spec_rules()@.remove(name@),
            removed == if old(self).spec_rules()@.contains_key(name@) {
                Some(old(self).spec_rules()@[name@])
            } else {
                None
            },
            old(self).spec_rules()@.contains_key(name@) ==> final(self).spec_rules().keys() == old(
                self,
            ).spec_rules().keys().remove(position(old(self).spec_rules().keys(), name@))
                && final(self).spec_rules().values() == old(self).spec_rules().values().remove(
                position(old(self).spec_rules().keys(), name@),
            ),
            !old(self).spec_rules()@.contains_key(name@) ==> final(self).spec_rules().keys() == old(
                self,
            ).spec_rules().keys() && final(self).spec_rules().values() == old(
                self,
            ).spec_rules().values(),
    {
        self.rules.remove(name)
    }

    /// Get an extraction rule by name.
    pub fn get_rule(&self, name: &str) -> (r: Option<&ExtractionRule>)
        ensures
            match r {
                Some(rule) => self.spec_rules()@.contains_key(name@) && *rule
                    == self.spec_rules()@[name@],
                None => !self.spec_rules()@.contains_key(name@),
            },
    {
        self.rules.get(name)
    }

    /// Get all extraction rules.
    pub fn rules(&self) -> (r: &StringMap<ExtractionRule>)
        ensures
            *r == self.spec_rules(),
    {
        &self.rules
    }

    /// Extract data using all configured rules. A rule that fails, or that
    /// extracts nothing, leaves no entry; the call itself never fails.
    pub fn extract_all(&self, parser: &HtmlParser) -> (r: Result<
        StringMap<Vec<String>>,
        FerrisFetcherError,
    >)
        ensures
            r is Ok,
            forall|name: Seq<char>| #[trigger]
                r->Ok_0@.contains_key(name) <==> self.yields(*parser, name),
            forall|name: Seq<char>| #[trigger]
                r->Ok_0@.contains_key(name) ==> r->Ok_0@[name].deep_view() == rule_values(
                    *parser,
                    self.spec_rules()@[name]@,
                ),
            forall|name: Seq<char>| #[trigger]
                r->Ok_0@.contains_key(name) ==> r->Ok_0@[name].len() > 0,
    {
        let mut results: StringMap<Vec<String>> = StringMap::new();
        let n = self.rules.len();
        let ghost keys = self.rules.keys();
        let ghost rules = self.rules.values();
        proof {
            self.rules.lemma_shape();
        }
        let mut i: usize = 0;
        while i < n
            invariant
                i <= n,
                n == keys.len(),
                keys == self.rules.keys(),
                rules == self.rules.values(),
                self.rules.shaped(),
                forall|name: Seq<char>| #[trigger]
                    results@.contains_key(name) <==> exists|j: int|
                        0 <= j < i && keys[j] == name && !rule_fails(rules[j]@) && rule_values(
                            *parser,
                            rules[j]@,
                        ).len() > 0,
                forall|j: int|
                    0 <= j < i && results@.contains_key(#[trigger] keys[j])
                        ==> results@[keys[j]].deep_view() == rule_values(*parser, rules[j]@),
            decreases n - i,
        {
            let name = self.rules.key_at(i);
            let rule = self.rules.value_at(i);
            let ghost before = results@;
            proof {
                self.rules.lemma_shape();
            }
            match self.extract_by_rule(parser, rule) {
                Ok(values) => {
                    if values.len() > 0 {
                        results.insert(name.clone(), values);
                        proof {
                            assert forall|k: Seq<char>| #[trigger]
                                results@.contains_key(k) <==> exists|j: int|
                                    0 <= j < i + 1 && keys[j] == k && !rule_fails(rules[j]@)
                                        && rule_values(*parser, rules[j]@).len() > 0 by {
                                if results@.contains_key(k) {
                                    if k == keys[i as int] {
                                        assert(keys[i as int] == k && !rule_fails(
                                            rules[i as int]@,
                                        ));
                                    } else {
                                        assert(before.contains_key(k));
                                    }
                                }
                            }
                            assert forall|j: int|
                                0 <= j < i + 1 && results@.contains_key(
                                    #[trigger] keys[j],
                                ) implies results@[keys[j]].deep_view() == rule_values(
                                *parser,
                                rules[j]@,
                            ) by {
                                if j < i {
                                    assert(keys[j] != keys[i as int]);
                                    assert(before.contains_key(keys[j]));
                                }
                            }
                        }
                    } else {
                        proof {
                            assert forall|k: Seq<char>| #[trigger]
                                results@.contains_key(k) <==> exists|j: int|
                                    0 <= j < i + 1 && keys[j] == k && !rule_fails(rules[j]@)
                                        && rule_values(*parser, rules[j]@).len() > 0 by {}
                        }
                    }
                },
                Err(_) => {
                    proof {
                        assert forall|k: Seq<char>| #[trigger]
                            results@.contains_key(k) <==> exists|j: int|
                                0 <= j < i + 1 && keys[j] == k && !rule_fails(rules[j]@)
                                    && rule_values(*parser, rules[j]@).len() > 0 by {}
                    }
                },
            }
            i += 1;
        }
        proof {
            assert forall|name: Seq<char>| #[trigger]
                results@.contains_key(name) <==> self.yields(*parser, name) by {
                if results@.contains_key(name) {
                    let j = choose|j: int|
                        0 <= j < n && keys[j] == name && !rule_fails(rules[j]@) && rule_values(
                            *parser,
                            rules[j]@,
                        ).len() > 0;
                    assert(self.rules@.contains_key(keys[j]));
                }
                if self.yields(*parser, name) {
                    crate::string_map::lemma_position(keys, name);
                    let j = crate::string_map::position(keys, name);
                    assert(self.rules@.contains_key(keys[j]));
                }
            }
            assert forall|name: Seq<char>| #[trigger]
                results@.contains_key(name) implies results@[name].deep_view() == rule_values(
                *parser,
                self.spec_rules()@[name]@,
            ) && results@[name].len() > 0 by {
                let j = choose|j: int|
                    0 <= j < n && keys[j] == name && !rule_fails(rules[j]@) && rule_values(
                        *parser,
                        rules[j]@,
                    ).len() > 0;
                assert(self.rules@.contains_key(keys[j]));
                assert(results@[keys[j]].deep_view().len() == results@[keys[j]].len());
            }
        }
        Ok(results)
    }

    /// Extract data using a specific rule.
    pub fn extract_by_rule(&self, parser: &HtmlParser, rule: &ExtractionRule) -> (r: Result<
        Vec<String>,
        FerrisFetcherError,
    >)
        ensures
            match r {
                Ok(values) => !rule_fails(rule@) && values.deep_view() == rule_values(
                    *parser,
                    rule@,
                ),
                Err(e) => rule_fails(rule@) && reports_rule_failure(e, rule@),
            },
    {
        let values = match rule.extraction_type {
            ExtractionType::Text => {
                if rule.multiple {
                    parser.select_text(rule.selector.as_str())?
                } else {
                    one_or_none(parser.select_first_text(rule.selector.as_str()))
                }
            },
            ExtractionType::Html => {
                if rule.multiple {
                    parser.select_html(rule.selector.as_str())?
                } else {
                    one_or_none(parser.select_first_html(rule.selector.as_str()))
                }
            },
            ExtractionType::Attribute => {
                let attr_name = match &rule.attribute {
                    Some(name) => name,
                    None => {
                        return Err(
                            FerrisFetcherError::ExtractionError(
                                concat3(
                                    "Attribute extraction requires attribute name for rule '",
                                    rule.name.as_str(),
                                    "'",
                                ),
                            ),
                        );
                    },
                };
                if rule.multiple {
                    parser.select_attr(rule.selector.as_str(), attr_name.as_str())?
                } else {
                    one_or_none(
                        parser.select_first_attr(rule.selector.as_str(), attr_name.as_str()),
                    )
                }
            },
            ExtractionType::OuterHtml => {
                if rule.multiple {
                    parser.select_outer_html(rule.selector.as_str())?
                } else {
                    one_or_none(parser.select_first_html(rule.selector.as_str()))
                }
            },
        };
        Ok(values)
    }

    /// Extract data by rule name.
    pub fn extract_by_name(&self, parser: &HtmlParser, rule_name: &str) -> (r: Result<
        Vec<String>,
        FerrisFetcherError,
    >)
        ensures
            match r {
                Ok(values) => self.spec_rules()@.contains_key(rule_name@) && !rule_fails(
                    self.spec_rules()@[rule_name@]@,
                ) && values.deep_view() == rule_values(*parser, self.spec_rules()@[rule_name@]@),
                Err(e) => if self.spec_rules()@.contains_key(rule_name@) {
                    rule_fails(self.spec_rules()@[rule_name@]@) && reports_rule_failure(
                        e,
                        self.spec_rules()@[rule_name@]@,
                    )
                } else {
                    e is ExtractionError && e->ExtractionError_0@ == "Extraction rule '"@
                        + rule_name@ + "' not found"@
                },
            },
    {
        match self.rules.get(rule_name) {
            Some(rule) => self.extract_by_rule(parser, rule),
            None => Err(
                FerrisFetcherError::ExtractionError(
                    concat3("Extraction rule '", rule_name, "' not found"),
                ),
            ),
        }
    }

    /// The first value that the rule stored under `name` extracts, if the
    /// rule exists, does not fail and extracts anything.
    pub open spec fn spec_extract_single(&self, parser: HtmlParser, name: Seq<char>) -> Option<
        Seq<char>,
    > {
        if self.yields(parser, name) {
            Some(rule_values(parser, self.spec_rules()@[name]@)[0])
        } else {
            None
        }
    }

    /// Extract a single value by rule name (convenience method).
    pub fn extract_single(&self, parser: &HtmlParser, rule_name: &str) -> (r: Option<String>)
        ensures
            optional_text(r) == self.spec_extract_single(*parser, rule_name@),
    {
        match self.extract_by_name(parser, rule_name) {
            Ok(values) => {
                if values.len() > 0 {
                    assert(values.deep_view()[0] == values[0]@);
                    Some(values[0].clone())
                } else {
                    None
                }
            },
            Err(_) => None,
        }
    }

    /// Extract text content using a CSS selector (convenience method).
    pub fn extract_text(&self, parser: &HtmlParser, selector: &str, multiple: bool) -> (r: Result<
        Vec<String>,
        FerrisFetcherError,
    >)
        ensures
            match r {
                Ok(values) => values.deep_view() == if multiple {
                    texts_of(parser.matches(selector@))
                } else {
                    at_most_one(parser.spec_first_text(selector@))
                } && !(multiple && pattern_complaint(selector@) is Some),
                Err(e) => multiple && reports_invalid_selector(e, selector@),
            },
    {
        let rule = ExtractionRule {
            name: "temp_text".to_owned(),
            selector: selector.to_owned(),
            extraction_type: ExtractionType::Text,
            multiple,
            attribute: None,
        };
        self.extract_by_rule(parser, &rule)
    }

    /// Extract attribute values using a CSS selector (convenience method).
    pub fn extract_attr(
        &self,
        parser: &HtmlParser,
        selector: &str,
        attr: &str,
        multiple: bool,
    ) -> (r: Result<Vec<String>, FerrisFetcherError>)
        ensures
            match r {
                Ok(values) => values.deep_view() == if multiple {
                    attributes_of(parser.matches(selector@), attr@)
                } else {
                    at_most_one(parser.spec_first_attr(selector@, attr@))
                } && !(multiple && pattern_complaint(selector@) is Some),
                Err(e) => multiple && reports_invalid_selector(e, selector@),
            },
    {
        let rule = ExtractionRule {
            name: "temp_attr".to_owned(),
            selector: selector.to_owned(),
            extraction_type: ExtractionType::Attribute,
            multiple,
            attribute: Some(attr.to_owned()),
        };
        self.extract_by_rule(parser, &rule)
    }

    /// Check if a rule exists.
    pub fn has_rule(&self, name: &str) -> (b: bool)
        ensures
            b == self.spec_rules()@.contains_key(name@),
    {
        self.rules.contains_key(name)
    }

    /// Get the number of configured rules.
    pub fn rule_count(&self) -> (n: usize)
        ensures
            n == self.spec_rules()@.dom().len(),
            n == self.spec_rules().keys().len(),
            self.spec_rules().shaped(),
    {
        self.rules.len()
    }

    /// Clear all rules.
    pub fn clear_rules(&mut self)
        ensures
            final(self).spec_rules()@ == Map::<Seq<char>, ExtractionRule>::empty(),
            final(self).spec_rules().keys() == Seq::<Seq<char>>::empty(),
    {
        self.rules.clear();
    }

    /// Validate all rules, in the order in which their names were first
    /// added. The first rule with a problem is reported.
    pub fn validate_rules(&self) -> (r: Result<(), FerrisFetcherError>)
        ensures
            match r {
                Ok(_) => no_problem_before(
                    self.spec_rules().keys(),
                    self.spec_rules().values(),
                    self.spec_rules().keys().len() as int,
                ),
                Err(e) => exists|i: int|
                    reports_first_problem(
                        self.spec_rules().keys(),
                        self.spec_rules().values(),
                        e,
                        i,
                    ),
            },
    {
        let n = self.rules.len();
        let ghost keys = self.rules.keys();
        let ghost rules = self.rules.values();
        proof {
            self.rules.lemma_shape();
        }
        let mut i: usize = 0;
        while i < n
            invariant
                i <= n,
                n == keys.len(),
                n == rules.len(),
                keys == self.rules.keys(),
                rules == self.rules.values(),
                no_problem_before(keys, rules, i as int),
            decreases n - i,
        {
            let name = self.rules.key_at(i);
            let rule = self.rules.value_at(i);
            if rule.selector.as_str().is_empty() {
                let e = FerrisFetcherError::ExtractionError(
                    concat3("Rule '", name.as_str(), "' has empty selector"),
                );
                assert(reports_first_problem(
                    self.spec_rules().keys(),
                    self.spec_rules().values(),
                    e,
                    i as int,
                ));
                return Err(e);
            }
            if rule.name.as_str().is_empty() {
                let e = FerrisFetcherError::ExtractionError("Rule has empty name".to_owned());
                assert(reports_first_problem(
                    self.spec_rules().keys(),
                    self.spec_rules().values(),
                    e,
                    i as int,
                ));
                return Err(e);
            }
            if matches!(rule.extraction_type, ExtractionType::Attribute)
                && rule.attribute.is_none() {
                let e = FerrisFetcherError::ExtractionError(
                    concat3(
                        "Rule '",
                        name.as_str(),
                        "' with Attribute extraction type requires attribute name",
                    ),
                );
                assert(reports_first_problem(
                    self.spec_rules().keys(),
                    self.spec_rules().values(),
                    e,
                    i as int,
                ));
                return Err(e);
            }
            i += 1;
        }
        Ok(())
    }
}

impl Default for DataExtractor {
    fn default() -> (r: Self)
        ensures
            r.spec_rules()@ == Map::<Seq<char>, ExtractionRule>::empty(),
    {
        Self::new()
    }
}

/// Builder for creating extraction rules.
pub struct ExtractionRuleBuilder {
    name: String,
    selector: String,
    extraction_type: ExtractionType,
    multiple: bool,
    attribute: Option<String>,
}

impl ExtractionRuleBuilder {
    /// The rule that `build` would make now.
    pub closed spec fn model(&self) -> RuleModel {
        RuleModel {
            name: self.name@,
            selector: self.selector@,
            extraction_type: self.extraction_type,
            multiple: self.multiple,
            attribute: optional_text(self.attribute),
        }
    }

    /// Create a new extraction rule builder: a rule for the text of the
    /// first match.
    pub fn new(name: &str, selector: &str) -> (b: Self)
        ensures
            b.model() == (RuleModel {
                name: name@,
                selector: selector@,
                extraction_type: ExtractionType::Text,
                multiple: false,
                attribute: None,
            }),
    {
        ExtractionRuleBuilder {
            name: name.to_owned(),
            selector: selector.to_owned(),
            extraction_type: ExtractionType::Text,
            multiple: false,
            attribute: None,
        }
    }

    /// Set the extraction type.
    pub fn extraction_type(self, extraction_type: ExtractionType) -> (b: Self)
        ensures
            b.model() == (RuleModel { extraction_type, ..self.model() }),
    {
        let mut b = self;
        b.extraction_type = extraction_type;
        b
    }

    /// Set whether to extract multiple values.
    pub fn multiple(self, multiple: bool) -> (b: Self)
        ensures
            b.model() == (RuleModel { multiple, ..self.model() }),
    {
        let mut b = self;
        b.multiple = multiple;
        b
    }

    /// Set the attribute name (for Attribute extraction type).
    pub fn attribute(self, attribute: &str) -> (b: Self)
        ensures
            b.model() == (RuleModel { attribute: Some(attribute@), ..self.model() }),
    {
        let mut b = self;
        b.attribute = Some(attribute.to_owned());
        b
    }

    /// Build the extraction rule.
    pub fn build(self) -> (rule: ExtractionRule)
        ensures
            rule@ == self.model(),
    {
        ExtractionRule {
            name: self.name,
            selector: self.selector,
            extraction_type: self.extraction_type,
            multiple: self.multiple,
            attribute: self.attribute,
        }
    }
}

} // verus!
