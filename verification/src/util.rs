//! Where the configuration file is looked for.

use crate::error::ConfigError;
use crate::path::join;
use crate::path::joined;
use crate::text::lemma_texts_push;
use crate::text::optional_text;
use crate::text::same_text;
use crate::text::texts;
use vstd::prelude::*;

verus! {

/// What a run sees of its environment: the variables that may point to a
/// configuration, and the regular files that exist.
#[derive(Clone, Debug, Default, PartialEq, Eq)]
pub struct Environment {
    /// `PIRATE_LIFE_CONFIG`: the path of the configuration file itself.
    pub override_config: Option<String>,
    /// `XDG_CONFIG_HOME`.
    pub xdg_config_home: Option<String>,
    /// `HOME`.
    pub home: Option<String>,
    /// `APPDATA`.
    pub appdata: Option<String>,
    /// `LOCALAPPDATA`.
    pub local_appdata: Option<String>,
    /// The paths at which a regular file exists.
    pub files: Vec<String>,
}

/// The two places below a directory of configurations: the file in a
/// directory of its own, and the file itself.
pub open spec fn places_below(dir: Seq<char>) -> Seq<Seq<char>> {
    seq![
        joined(joined(dir, "pirate_life"@), "pirate_life.toml"@),
        joined(dir, "pirate_life.toml"@),
    ]
}

/// The two places below a home directory: the file in the directory of
/// configurations, and the hidden file in the home directory itself.
pub open spec fn places_at_home(home: Seq<char>) -> Seq<Seq<char>> {
    seq![
        joined(joined(joined(home, ".config"@), "pirate_life"@), "pirate_life.toml"@),
        joined(home, ".pirate_life.toml"@),
    ]
}

/// What a variable contributes: the places that `places` gives for its
/// value, and nothing if it is not set.
pub open spec fn places_for(
    variable: Option<Seq<char>>,
    places: spec_fn(Seq<char>) -> Seq<Seq<char>>,
) -> Seq<Seq<char>> {
    match variable {
        Some(value) => places(value),
        None => Seq::empty(),
    }
}

impl Environment {
    /// The places where a configuration may lie, in the order in which they
    /// are tried.
    pub open spec fn candidates(&self) -> Seq<Seq<char>> {
        places_for(optional_text(self.override_config), |path: Seq<char>| seq![path])
            + places_for(optional_text(self.xdg_config_home), |dir: Seq<char>| places_below(dir))
            + places_for(optional_text(self.home), |dir: Seq<char>| places_at_home(dir))
            + places_for(optional_text(self.appdata), |dir: Seq<char>| places_below(dir))
            + places_for(optional_text(self.local_appdata), |dir: Seq<char>| places_below(dir))
    }

    /// Whether a regular file exists at `path`.
    pub open spec fn has_file(&self, path: Seq<char>) -> bool {
        texts(self.files@).contains(path)
    }
}

/// `i` is the first of `candidates` at which the environment has a file.
pub open spec fn is_first_existing(env: &Environment, candidates: Seq<Seq<char>>, i: int) -> bool {
    &&& 0 <= i < candidates.len()
    &&& env.has_file(candidates[i])
    &&& forall|j: int| 0 <= j < i ==> !env.has_file(#[trigger] candidates[j])
}

/// Appends the two places below `dir`.
fn push_places_below(dir: &str, places: &mut Vec<String>)
    ensures
        texts(final(places)@) == texts(old(places)@) + places_below(dir@),
{
    let ghost before = texts(places@);
    let nested = join(join(dir, "pirate_life").as_str(), "pirate_life.toml");
    proof {
        lemma_texts_push(places@, nested);
    }
    places.push(nested);
    let direct = join(dir, "pirate_life.toml");
    proof {
        lemma_texts_push(places@, direct);
    }
    places.push(direct);
    assert(texts(places@) =~= before + places_below(dir@));
}

/// Appends the two places below the home directory `home`.
fn push_places_at_home(home: &str, places: &mut Vec<String>)
    ensures
        texts(final(places)@) == texts(old(places)@) + places_at_home(home@),
{
    let ghost before = texts(places@);
    let nested = join(
        join(join(home, ".config").as_str(), "pirate_life").as_str(),
        "pirate_life.toml",
    );
    proof {
        lemma_texts_push(places@, nested);
    }
    places.push(nested);
    let hidden = join(home, ".pirate_life.toml");
    proof {
        lemma_texts_push(places@, hidden);
    }
    places.push(hidden);
    assert(texts(places@) =~= before + places_at_home(home@));
}

/// The places where a configuration may lie, in the order in which they are
/// tried: the file that the override names; then, for the configuration
/// home, for the home directory, and for the two application data
/// directories in turn, two places each. A variable that is not set
/// contributes nothing.
pub fn config_candidates(env: &Environment) -> (r: Vec<String>)
    ensures
        texts(r@) == env.candidates(),
{
    let mut places: Vec<String> = Vec::new();
    assert(texts(places@) =~= Seq::<Seq<char>>::empty());
    let ghost empty = Seq::<Seq<char>>::empty();
    match &env.override_config {
        Some(path) => {
            proof {
                lemma_texts_push(places@, *path);
            }
            places.push(path.clone());
            assert(texts(places@) =~= seq![path@]);
        },
        None => {},
    }
    let ghost first = texts(places@);
    match &env.xdg_config_home {
        Some(dir) => {
            push_places_below(dir.as_str(), &mut places);
        },
        None => {
            assert(first + empty =~= first);
        },
    }
    let ghost second = texts(places@);
    match &env.home {
        Some(dir) => {
            push_places_at_home(dir.as_str(), &mut places);
        },
        None => {
            assert(second + empty =~= second);
        },
    }
    let ghost third = texts(places@);
    match &env.appdata {
        Some(dir) => {
            push_places_below(dir.as_str(), &mut places);
        },
        None => {
            assert(third + empty =~= third);
        },
    }
    let ghost fourth = texts(places@);
    match &env.local_appdata {
        Some(dir) => {
            push_places_below(dir.as_str(), &mut places);
        },
        None => {
            assert(fourth + empty =~= fourth);
        },
    }
    places
}

/// Whether the environment has a regular file at `path`.
pub fn is_file(env: &Environment, path: &str) -> (r: bool)
    ensures
        r == env.has_file(path@),
{
    let mut i: usize = 0;
    while i < env.files.len()
        invariant
            i <= env.files.len(),
            forall|j: int| 0 <= j < i ==> texts(env.files@)[j] != path@,
        decreases env.files.len() - i,
    {
        if same_text(env.files[i].as_str(), path) {
            assert(texts(env.files@)[i as int] == path@);
            return true;
        }
        i += 1;
    }
    false
}

/// The configuration file of the environment: the first of the places where
/// a configuration may lie at which a regular file exists. `NotFound` where
/// there is a file at none of them.
pub fn config_path(env: &Environment) -> (r: Result<String, ConfigError>)
    ensures
        match r {
            Ok(path) => exists|i: int|
                is_first_existing(env, env.candidates(), i) && env.candidates()[i] == path@,
            Err(error) => error == ConfigError::NotFound && forall|i: int|
                0 <= i < env.candidates().len() ==> !env.has_file(#[trigger] env.candidates()[i]),
        },
{
    let places = config_candidates(env);
    let mut i: usize = 0;
    while i < places.len()
        invariant
            i <= places.len(),
            texts(places@) == env.candidates(),
            forall|j: int| 0 <= j < i ==> !env.has_file(#[trigger] env.candidates()[j]),
        decreases places.len() - i,
    {
        assert(texts(places@)[i as int] == places@[i as int]@);
        if is_file(env, places[i].as_str()) {
            assert(is_first_existing(env, env.candidates(), i as int));
            return Ok(places[i].clone());
        }
        i += 1;
    }
    Err(ConfigError::NotFound)
}

} // verus!
