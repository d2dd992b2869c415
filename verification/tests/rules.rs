use pirate_life::error::ConfigError;
use pirate_life::rules::PlacementRule;
use pirate_life::rules::PlacementRuleSet;

fn rule(pattern: &str, directory: &str) -> PlacementRule {
    PlacementRule { directory: directory.to_string(), pattern: pattern.to_string() }
}

#[test]
fn first_matching_rule_wins() {
    let rules = vec![rule(".*s01.*", "/tv"), rule(".*", "/catchall")];
    let set = PlacementRuleSet::new(&rules).unwrap();
    assert_eq!(set.resolve_override("show.s01e01.mkv"), Some("/tv".to_string()));
    assert_eq!(set.resolve_override("movie.mkv"), Some("/catchall".to_string()));
}

#[test]
fn order_of_the_rules_decides() {
    let rules = vec![rule(".*", "/catchall"), rule(".*s01.*", "/tv")];
    let set = PlacementRuleSet::new(&rules).unwrap();
    assert_eq!(set.resolve_override("show.s01e01.mkv"), Some("/catchall".to_string()));
}

#[test]
fn a_later_rule_is_found_when_the_earlier_do_not_match() {
    let rules = vec![rule("^a", "/a"), rule("^b", "/b"), rule("^c", "/c")];
    let set = PlacementRuleSet::new(&rules).unwrap();
    assert_eq!(set.resolve_override("cat.mkv"), Some("/c".to_string()));
    assert_eq!(set.resolve_override("bat.mkv"), Some("/b".to_string()));
}

#[test]
fn no_rule_matches() {
    let rules = vec![rule("^show", "/tv")];
    let set = PlacementRuleSet::new(&rules).unwrap();
    assert_eq!(set.resolve_override("movie.mkv"), None);
}

#[test]
fn patterns_match_anywhere_in_the_name() {
    let rules = vec![rule("s[0-9]+e[0-9]+", "/tv")];
    let set = PlacementRuleSet::new(&rules).unwrap();
    assert_eq!(set.resolve_override("my.show.s02e11.mkv"), Some("/tv".to_string()));
}

#[test]
fn empty_rule_sets_match_nothing() {
    assert_eq!(PlacementRuleSet::empty().resolve_override("movie.mkv"), None);
    let set = PlacementRuleSet::new(&Vec::new()).unwrap();
    assert_eq!(set.resolve_override("movie.mkv"), None);
}

#[test]
fn invalid_pattern_is_refused_when_the_set_is_made() {
    let rules = vec![rule(".*", "/catchall"), rule("(unclosed", "/broken")];
    assert_eq!(PlacementRuleSet::new(&rules).err(), Some(ConfigError::InvalidPattern));
}

#[test]
fn patterns_are_taken_in_order() {
    let rules = vec![rule("a", "/1"), rule("b", "/2")];
    assert_eq!(PlacementRuleSet::patterns(&rules), vec!["a".to_string(), "b".to_string()]);
}

#[test]
fn rules_without_patterns_always_compile() {
    assert!(PlacementRuleSet::new(&Vec::new()).is_ok());
}

#[test]
fn rule_set_is_made_exactly_of_valid_patterns() {
    assert!(PlacementRuleSet::new(&vec![rule("^a.*z$", "/a")]).is_ok());
    assert!(PlacementRuleSet::new(&vec![rule("a{2,1}", "/a")]).is_err());
    assert!(PlacementRuleSet::new(&vec![rule("ok", "/a"), rule("\\p{NoSuchClass}", "/b")]).is_err());
}

#[test]
fn rule_set_of_a_compiled_matcher() {
    let rules = vec![rule("^show", "/tv"), rule("mkv$", "/video")];
    let compiled = regex::RegexSet::new(["^show", "mkv$"]);
    let set = PlacementRuleSet::from_compiled(&rules, compiled).unwrap();
    assert_eq!(set.resolve_override("movie.mkv"), Some("/video".to_string()));
    assert_eq!(set.resolve_override("show.mkv"), Some("/tv".to_string()));
    let refused = regex::RegexSet::new(["("]);
    assert_eq!(
        PlacementRuleSet::from_compiled(&rules, refused).err(),
        Some(ConfigError::InvalidPattern)
    );
}

#[test]
fn matching_is_case_sensitive() {
    let set = PlacementRuleSet::new(&vec![rule("a", "/a")]).unwrap();
    assert_eq!(set.resolve_override("A"), None);
    assert_eq!(set.resolve_override("a"), Some("/a".to_string()));
}
