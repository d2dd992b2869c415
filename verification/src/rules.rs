//! Placement rules: patterns that send an output to a directory of its own.
//!
//! The rules are kept in the order in which they were configured. Of the
//! rules whose pattern matches an output name, the first decides.

use crate::error::ConfigError;
use crate::text::optional_text;
use crate::text::texts;
use vstd::prelude::*;

verus! {

/// `regex::RegexSet`, a set of compiled patterns. Nothing is seen of its
/// inside; `set_patterns` names the patterns that it was made from.
#[verifier::external_type_specification]
#[verifier::external_body]
pub struct ExRegexSet(regex::RegexSet);

/// `regex::Error`, the error of a pattern that does not compile. Nothing is
/// seen of its inside.
#[verifier::external_type_specification]
#[verifier::external_body]
pub struct ExRegexError(regex::Error);

/// The patterns that a `regex::RegexSet` was made from, in their order: what
/// its method `patterns` returns.
pub uninterp spec fn set_patterns(set: regex::RegexSet) -> Seq<Seq<char>>;

/// Whether a `regex::RegexSet` was made by `regex::RegexSet::new`, that is
/// with the options that the compiler has by default. A set made with other
/// options may match otherwise than its patterns alone say.
pub uninterp spec fn plain_set(set: regex::RegexSet) -> bool;

/// Whether `regex::RegexSet::new` accepts `patterns`: each of them is a
/// regular expression, and the set stays within the size that the compiler
/// allows by default.
pub uninterp spec fn patterns_compile(patterns: Seq<Seq<char>>) -> bool;

/// The indices of those of `patterns` that match somewhere in `haystack`: what
/// `regex::RegexSet::matches` reports for a set that `regex::RegexSet::new`
/// made from `patterns`.
pub uninterp spec fn matching_patterns(patterns: Seq<Seq<char>>, haystack: Seq<char>) -> Set<int>;

/// Calls `regex::RegexSet::new` on `patterns`, in their order. It returns a
/// set exactly where it accepts the patterns, which the contract names
/// `patterns_compile`; the set was then made from these patterns, with the
/// options that the compiler has by default.
#[verifier::external_body]
fn compile_patterns(patterns: &Vec<String>) -> (r: Result<regex::RegexSet, regex::Error>)
    ensures
        r is Ok <==> patterns_compile(texts(patterns@)),
        r matches Ok(set) ==> set_patterns(set) == texts(patterns@) && plain_set(set),
{
    regex::RegexSet::new(patterns)
}

/// Calls `regex::RegexSet::matches` on `haystack` and collects what the
/// iterator over its result yields. That iterator goes through the indices
/// of the patterns in ascending order and yields those that matched: so the
/// result ascends, holds only indices of patterns that matched, and leaves
/// out none of them.
#[verifier::external_body]
fn matched_indices(set: &regex::RegexSet, haystack: &str) -> (r: Vec<usize>)
    requires
        plain_set(*set),
    ensures
        lists_hits(
            r@,
            matching_patterns(set_patterns(*set), haystack@),
            set_patterns(*set).len(),
        ),
{
    set.matches(haystack).into_iter().collect()
}

/// `list` holds, in ascending order, exactly the indices below `len` that
/// `hits` holds.
pub open spec fn lists_hits(list: Seq<usize>, hits: Set<int>, len: nat) -> bool {
    &&& forall|k: int|
        0 <= k < list.len() ==> list[k] < len && hits.contains(#[trigger] list[k] as int)
    &&& forall|i: int, j: int| 0 <= i < j < list.len() ==> list[i] < list[j]
    &&& forall|m: int|
        0 <= m < len && hits.contains(m) ==> exists|k: int|
            0 <= k < list.len() && #[trigger] list[k] == m
}

/// `i` is the least of the indices below `len` that `hits` holds.
pub open spec fn is_first_hit(hits: Set<int>, len: nat, i: int) -> bool {
    &&& 0 <= i < len
    &&& hits.contains(i)
    &&& forall|j: int| 0 <= j < i ==> !hits.contains(j)
}

/// `hits` holds no index below `len`.
pub open spec fn no_hit(hits: Set<int>, len: nat) -> bool {
    forall|j: int| 0 <= j < len ==> !hits.contains(j)
}

/// The least of the indices below `len` that `hits` holds, if there is one.
pub open spec fn first_hit(hits: Set<int>, len: nat) -> Option<int>
    decreases len,
{
    if len == 0 {
        None
    } else {
        match first_hit(hits, (len - 1) as nat) {
            Some(i) => Some(i),
            None => if hits.contains(len - 1) {
                Some(len - 1)
            } else {
                None
            },
        }
    }
}

/// `first_hit` gives the least index that `hits` holds, and gives none only
/// where there is none.
pub proof fn lemma_first_hit(hits: Set<int>, len: nat)
    ensures
        match first_hit(hits, len) {
            Some(i) => is_first_hit(hits, len, i),
            None => no_hit(hits, len),
        },
    decreases len,
{
    if len > 0 {
        lemma_first_hit(hits, (len - 1) as nat);
    }
}

/// There is one first hit at most: `first_hit` gives it.
pub proof fn lemma_first_hit_is(hits: Set<int>, len: nat, i: int)
    requires
        is_first_hit(hits, len, i),
    ensures
        first_hit(hits, len) == Some(i),
{
    lemma_first_hit(hits, len);
}

/// The first of an ascending list of all hits is the first hit, and an empty
/// list means that there is no hit.
pub proof fn lemma_first_listed_hit(list: Seq<usize>, hits: Set<int>, len: nat)
    requires
        lists_hits(list, hits, len),
    ensures
        list.len() == 0 ==> no_hit(hits, len),
        list.len() > 0 ==> is_first_hit(hits, len, list[0] as int),
{
    if list.len() == 0 {
        assert forall|m: int| 0 <= m < len implies !hits.contains(m) by {
            if hits.contains(m) {
                let k = choose|k: int| 0 <= k < list.len() && #[trigger] list[k] == m;
            }
        }
    } else {
        assert(hits.contains(list[0] as int));
        assert forall|j: int| 0 <= j < list[0] implies !hits.contains(j) by {
            if hits.contains(j) {
                let k = choose|k: int| 0 <= k < list.len() && #[trigger] list[k] == j;
                if k > 0 {
                    assert(list[0] < list[k]);
                }
            }
        }
    }
}

/// Whether a list of rules can be made into a rule set: a list without rules
/// always can, and any other list exactly when its patterns compile.
pub open spec fn rules_compile(rules: Seq<PlacementRuleView>) -> bool {
    rules.len() == 0 || patterns_compile(patterns_of(rules))
}

/// One rule: outputs whose name matches `pattern` are stored in `directory`.
#[derive(Clone, Debug, PartialEq, Eq)]
pub struct PlacementRule {
    pub directory: String,
    pub pattern: String,
}

/// A `PlacementRule` as text.
pub struct PlacementRuleView {
    pub directory: Seq<char>,
    pub pattern: Seq<char>,
}

impl View for PlacementRule {
    type V = PlacementRuleView;

    open spec fn view(&self) -> PlacementRuleView {
        PlacementRuleView { directory: self.directory@, pattern: self.pattern@ }
    }
}

/// The rules of a list, as text.
pub open spec fn rule_views(rules: Seq<PlacementRule>) -> Seq<PlacementRuleView> {
    Seq::new(rules.len(), |i: int| rules[i]@)
}

/// The patterns of a list of rules, in order.
pub open spec fn patterns_of(rules: Seq<PlacementRuleView>) -> Seq<Seq<char>> {
    Seq::new(rules.len(), |i: int| rules[i].pattern)
}

/// The directory of the first rule whose pattern matches `name`, if any does.
pub open spec fn override_of(rules: Seq<PlacementRuleView>, name: Seq<char>) -> Option<Seq<char>> {
    match first_hit(matching_patterns(patterns_of(rules), name), rules.len()) {
        Some(i) => Some(rules[i].directory),
        None => None,
    }
}

/// Rules whose patterns have been compiled into one matcher.
#[derive(Debug)]
pub struct PlacementRuleSet {
    directories: Vec<String>,
    patterns: Vec<String>,
    matcher: Option<regex::RegexSet>,
}

impl View for PlacementRuleSet {
    type V = Seq<PlacementRuleView>;

    closed spec fn view(&self) -> Seq<PlacementRuleView> {
        Seq::new(
            self.patterns@.len(),
            |i: int|
                PlacementRuleView {
                    directory: self.directories@[i]@,
                    pattern: self.patterns@[i]@,
                },
        )
    }
}

impl PlacementRuleSet {
    #[verifier::type_invariant]
    spec fn well_formed(self) -> bool {
        &&& self.directories@.len() == self.patterns@.len()
        &&& match self.matcher {
            Some(set) => set_patterns(set) == texts(self.patterns@) && plain_set(set),
            None => self.patterns@.len() == 0,
        }
    }

    /// The set without rules: nothing matches it.
    pub fn empty() -> (r: PlacementRuleSet)
        ensures
            r@ == Seq::<PlacementRuleView>::empty(),
    {
        let r = PlacementRuleSet { directories: Vec::new(), patterns: Vec::new(), matcher: None };
        assert(r@ =~= Seq::<PlacementRuleView>::empty());
        r
    }

    /// The patterns of `rules`, in order.
    pub fn patterns(rules: &Vec<PlacementRule>) -> (r: Vec<String>)
        ensures
            texts(r@) == patterns_of(rule_views(rules@)),
    {
        let mut out: Vec<String> = Vec::new();
        let mut i: usize = 0;
        while i < rules.len()
            invariant
                i <= rules.len(),
                out.len() == i,
                forall|j: int| 0 <= j < i ==> out@[j]@ == rules@[j].pattern@,
            decreases rules.len() - i,
        {
            out.push(rules[i].pattern.clone());
            i += 1;
        }
        assert(texts(out@) =~= patterns_of(rule_views(rules@)));
        out
    }

    /// Makes a rule set of `rules` and of what the compiler of regular
    /// expressions returned for their patterns: the set of these rules where
    /// it returned a matcher, `InvalidPattern` where it returned an error.
    /// The matcher must have been made from the patterns of these rules, with
    /// the options that the compiler has by default.
    pub fn from_compiled(
        rules: &Vec<PlacementRule>,
        compiled: Result<regex::RegexSet, regex::Error>,
    ) -> (r: Result<PlacementRuleSet, ConfigError>)
        requires
            compiled matches Ok(set) ==> set_patterns(set) == patterns_of(rule_views(rules@))
                && plain_set(set),
        ensures
            match r {
                Ok(set) => compiled is Ok && set@ == rule_views(rules@),
                Err(error) => compiled is Err && error == ConfigError::InvalidPattern,
            },
    {
        match compiled {
            Ok(matcher) => {
                let mut directories: Vec<String> = Vec::new();
                let mut i: usize = 0;
                while i < rules.len()
                    invariant
                        i <= rules.len(),
                        directories.len() == i,
                        forall|j: int| 0 <= j < i ==> directories@[j]@ == rules@[j].directory@,
                    decreases rules.len() - i,
                {
                    directories.push(rules[i].directory.clone());
                    i += 1;
                }
                let patterns = Self::patterns(rules);
                assert(texts(patterns@).len() == rules.len());
                let set = PlacementRuleSet { directories, patterns, matcher: Some(matcher) };
                assert(set@ =~= rule_views(rules@)) by {
                    assert forall|j: int| 0 <= j < rules.len() implies set@[j] == rule_views(
                        rules@,
                    )[j] by {
                        assert(texts(patterns@)[j] == patterns_of(rule_views(rules@))[j]);
                    }
                }
                Ok(set)
            },
            Err(_) => Err(ConfigError::InvalidPattern),
        }
    }

    /// Compiles the patterns of `rules` into one matcher. The result is the
    /// set of these rules exactly where the rules compile: always for a list
    /// without rules, else where the compiler of regular expressions accepts
    /// the patterns. Where it refuses them, the result is `InvalidPattern`.
    pub fn new(rules: &Vec<PlacementRule>) -> (r: Result<PlacementRuleSet, ConfigError>)
        ensures
            r is Ok <==> rules_compile(rule_views(rules@)),
            match r {
                Ok(set) => set@ == rule_views(rules@),
                Err(error) => error == ConfigError::InvalidPattern,
            },
    {
        if rules.len() == 0 {
            let set = Self::empty();
            assert(set@ =~= rule_views(rules@));
            return Ok(set);
        }
        let patterns = Self::patterns(rules);
        Self::from_compiled(rules, compile_patterns(&patterns))
    }

    /// The directory of the first rule whose pattern matches `logical_name`,
    /// or `None` where no rule matches.
    pub fn resolve_override(&self, logical_name: &str) -> (r: Option<String>)
        ensures
            optional_text(r) == override_of(self@, logical_name@),
    {
        let ghost hits = matching_patterns(patterns_of(self@), logical_name@);
        proof {
            use_type_invariant(self);
            lemma_first_hit(hits, self@.len());
            assert(patterns_of(self@) =~= texts(self.patterns@));
        }
        match &self.matcher {
            Some(set) => {
                let matched = matched_indices(set, logical_name);
                proof {
                    lemma_first_listed_hit(matched@, hits, self@.len());
                }
                if matched.len() == 0 {
                    None
                } else {
                    Some(self.directories[matched[0]].clone())
                }
            },
            None => None,
        }
    }
}

} // verus!
