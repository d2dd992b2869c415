//! The configuration of a run: the external tools, and where files go.

use crate::command::Invocation;
use crate::command::InvocationView;
use crate::error::ConfigError;
use crate::error::PathError;
use crate::path::file_name;
use crate::path::file_name_of;
use crate::path::has_root;
use crate::path::is_separator;
use crate::path::join;
use crate::path::joined;
use crate::path::lemma_file_name_is_plain;
use crate::path::lemma_joined_plain;
use crate::path::lemma_name_and_extension;
use crate::path::name_and_extension_of;
use crate::path::parent;
use crate::path::parent_of;
use crate::path::plain_name;
use crate::path::rooted;
use crate::path::to_name_and_extension;
use crate::path::trim_separators;
use crate::rules::is_first_hit;
use crate::rules::lemma_first_hit;
use crate::rules::lemma_first_hit_is;
use crate::rules::matching_patterns;
use crate::rules::no_hit;
use crate::rules::override_of;
use crate::rules::patterns_of;
use crate::rules::PlacementRule;
use crate::rules::PlacementRuleSet;
use crate::rules::PlacementRuleView;
use crate::rules::rule_views;
use crate::rules::rules_compile;
use crate::text::clone_strings;
use crate::text::decimal;
use crate::text::decimal_string;
use crate::text::lemma_texts_push;
use crate::text::optional_text;
use crate::text::texts;
use vstd::prelude::*;

verus! {

/// The download agent.
#[derive(Clone, Debug, Default, PartialEq, Eq)]
pub struct Aria2c {
    /// The executable.
    pub path: String,
    /// The transfer rate limit for a run that names none.
    pub default_speed: u64,
    /// The arguments of every run, before those that the run adds.
    pub default_args: Vec<String>,
}

impl Aria2c {
    /// The transfer rate limit of a run: the one asked for, else the default.
    pub open spec fn speed_limit(&self, speed: Option<u64>) -> nat {
        match speed {
            Some(limit) => limit as nat,
            None => self.default_speed as nat,
        }
    }

    /// The arguments of a download of `url` into the file named `file`: the
    /// default arguments, the rate limit, the output file, the source.
    pub open spec fn download_arguments(
        &self,
        speed: Option<u64>,
        url: Seq<char>,
        file: Seq<char>,
    ) -> Seq<Seq<char>> {
        texts(self.default_args@) + seq![
            "--max-overall-download-limit="@ + decimal(self.speed_limit(speed)) + "k"@,
            "-o"@,
            file,
            url,
        ]
    }

    /// The invocation that downloads `url` to the path `output`: it runs in
    /// the parent of `output` and names the file by its final component.
    /// There is none for an `output` without a final component.
    pub fn build_command(&self, speed: Option<u64>, url: &str, output: &str) -> (r: Option<
        Invocation,
    >)
        ensures
            match r {
                Some(command) => file_name_of(output@) is Some && command@ == (InvocationView {
                    program: self.path@,
                    args: self.download_arguments(speed, url@, file_name_of(output@)->0),
                    current_dir: parent_of(output@),
                }),
                None => file_name_of(output@) is None,
            },
    {
        let file = match file_name(output) {
            Some(file) => file,
            None => {
                return None;
            },
        };
        let speed_limit: u64 = match speed {
            Some(limit) => limit,
            None => self.default_speed,
        };
        let mut limit = "--max-overall-download-limit=".to_owned();
        limit.append(decimal_string(speed_limit).as_str());
        limit.append("k");
        let mut args = clone_strings(&self.default_args);
        let ghost defaults = texts(args@);
        proof {
            lemma_texts_push(args@, limit);
        }
        args.push(limit);
        let flag = "-o".to_owned();
        proof {
            lemma_texts_push(args@, flag);
        }
        args.push(flag);
        proof {
            lemma_texts_push(args@, file);
        }
        args.push(file);
        let source = url.to_owned();
        proof {
            lemma_texts_push(args@, source);
        }
        args.push(source);
        assert(texts(args@) =~= self.download_arguments(speed, url@, file_name_of(output@)->0));
        Some(Invocation { program: self.path.clone(), args, current_dir: parent(output) })
    }
}

/// The transcoding agent.
#[derive(Clone, Debug, Default, PartialEq, Eq)]
pub struct Ffmpeg {
    /// The executable.
    pub path: String,
    /// The arguments between the input and the output of every run.
    pub default_args: Vec<String>,
}

impl Ffmpeg {
    /// The arguments of a transcoding: the input, the default arguments, the
    /// output.
    pub open spec fn transcode_arguments(&self, input: Seq<char>, output: Seq<char>) -> Seq<
        Seq<char>,
    > {
        seq!["-i"@, input] + texts(self.default_args@) + seq![output]
    }

    /// The invocation that transcodes `input_file` into `output_file`.
    pub fn build_command(&self, input_file: &str, output_file: &str) -> (r: Invocation)
        ensures
            r@ == (InvocationView {
                program: self.path@,
                args: self.transcode_arguments(input_file@, output_file@),
                current_dir: None,
            }),
    {
        let mut args: Vec<String> = Vec::new();
        args.push("-i".to_owned());
        args.push(input_file.to_owned());
        assert(texts(args@) =~= seq!["-i"@, input_file@]);
        let mut i: usize = 0;
        while i < self.default_args.len()
            invariant
                i <= self.default_args.len(),
                texts(args@) == seq!["-i"@, input_file@] + texts(self.default_args@).take(i as int),
            decreases self.default_args.len() - i,
        {
            proof {
                lemma_texts_push(args@, self.default_args@[i as int]);
            }
            args.push(self.default_args[i].clone());
            i += 1;
            assert(texts(args@) =~= seq!["-i"@, input_file@] + texts(self.default_args@).take(
                i as int,
            ));
        }
        assert(texts(self.default_args@).take(i as int) =~= texts(self.default_args@));
        let last = output_file.to_owned();
        proof {
            lemma_texts_push(args@, last);
        }
        args.push(last);
        assert(texts(args@) =~= self.transcode_arguments(input_file@, output_file@));
        Invocation { program: self.path.clone(), args, current_dir: None }
    }
}

/// The tag writer.
#[derive(Clone, Debug, Default, PartialEq, Eq)]
pub struct PropWriter {
    /// The executable.
    pub path: String,
}

/// Where files go: the directory for staging, the directory to store in, and
/// the rules that send some outputs elsewhere.
#[derive(Clone, Debug, Default, PartialEq, Eq)]
pub struct PathManager {
    /// The directory of the staging files.
    pub temp_dir: String,
    /// The directory in which results are stored unless a rule says otherwise.
    pub store_dir: String,
    /// The placement rules, in the order in which they apply.
    pub preference: Option<Vec<PlacementRule>>,
}

/// The three paths that a run works on.
#[derive(Clone, Debug, PartialEq, Eq)]
pub struct WorkingPaths {
    /// Where the source is acquired to.
    pub download_path: String,
    /// Where the transcoding agent writes.
    pub transcode_path: String,
    /// Where the result is stored.
    pub final_path: String,
}

/// `WorkingPaths` as text.
pub struct WorkingPathsView {
    pub download_path: Seq<char>,
    pub transcode_path: Seq<char>,
    pub final_path: Seq<char>,
}

impl View for WorkingPaths {
    type V = WorkingPathsView;

    open spec fn view(&self) -> WorkingPathsView {
        WorkingPathsView {
            download_path: self.download_path@,
            transcode_path: self.transcode_path@,
            final_path: self.final_path@,
        }
    }
}

/// What stands between stem and extension in the name of the file that the
/// source is acquired to.
pub open spec fn download_marker() -> Seq<char> {
    "-download."@
}

/// What stands between stem and extension in the name of the file that the
/// transcoding agent writes.
pub open spec fn reencode_marker() -> Seq<char> {
    "-reencode."@
}

/// The final path once the file system was asked for its canonical form:
/// that form if it is rooted. `None` stands for a file system that could not
/// make the path canonical.
pub open spec fn settled_final_path(canonical: Option<Seq<char>>) -> Result<Seq<char>, PathError> {
    match canonical {
        Some(path) => if rooted(path) {
            Ok(path)
        } else {
            Err(PathError::UnresolvablePath)
        },
        None => Err(PathError::Io),
    }
}

impl WorkingPaths {
    /// Replaces the final path by its canonical form, which must be rooted:
    /// `UnresolvablePath` if it is not, and `Io` where there is no canonical
    /// form because the file system could not give one.
    pub fn settle(self, canonical: Option<String>) -> (r: Result<WorkingPaths, PathError>)
        ensures
            match r {
                Ok(paths) => settled_final_path(optional_text(canonical)) == Ok::<
                    Seq<char>,
                    PathError,
                >(paths.final_path@) && paths.download_path@ == self.download_path@
                    && paths.transcode_path@ == self.transcode_path@,
                Err(error) => settled_final_path(optional_text(canonical)) == Err::<
                    Seq<char>,
                    PathError,
                >(error),
            },
    {
        match canonical {
            Some(path) => if has_root(path.as_str()) {
                Ok(
                    WorkingPaths {
                        download_path: self.download_path,
                        transcode_path: self.transcode_path,
                        final_path: path,
                    },
                )
            } else {
                Err(PathError::UnresolvablePath)
            },
            None => Err(PathError::Io),
        }
    }
}

impl PathManager {
    /// The staging path for the output `name` with `marker` between stem and
    /// extension; there is none for a name without an extension.
    pub open spec fn staging_location_of(&self, name: Seq<char>, marker: Seq<char>) -> Option<
        Seq<char>,
    > {
        match name_and_extension_of(name) {
            Some((stem, extension)) => Some(joined(self.temp_dir@, stem + marker + extension)),
            None => None,
        }
    }

    /// The rules of the configuration, as text; none where none are configured.
    pub open spec fn rules(&self) -> Seq<PlacementRuleView> {
        match self.preference {
            Some(rules) => rule_views(rules@),
            None => Seq::empty(),
        }
    }

    /// The directory in which the output `name` is stored: that of the first
    /// of `rules` that matches the name, else the store directory.
    pub open spec fn directory_of(&self, rules: Seq<PlacementRuleView>, name: Seq<char>) -> Seq<
        char,
    > {
        match override_of(rules, name) {
            Some(directory) => directory,
            None => self.store_dir@,
        }
    }

    /// The final path of the output `name` before it is made canonical: the
    /// name itself where the path is fixed, else its final component in the
    /// directory that the rules choose.
    pub open spec fn final_location_of(
        &self,
        rules: Seq<PlacementRuleView>,
        name: Seq<char>,
        fixed_path: bool,
    ) -> Option<Seq<char>> {
        if fixed_path {
            Some(name)
        } else {
            match file_name_of(name) {
                Some(file) => Some(joined(self.directory_of(rules, name), file)),
                None => None,
            }
        }
    }

    /// The working paths of the output `name`, the final path not yet
    /// canonical; there are none for a name without an extension.
    pub open spec fn working_paths_of(
        &self,
        rules: Seq<PlacementRuleView>,
        name: Seq<char>,
        fixed_path: bool,
    ) -> Option<WorkingPathsView> {
        match name_and_extension_of(name) {
            Some(_) => Some(
                WorkingPathsView {
                    download_path: self.staging_location_of(name, download_marker())->0,
                    transcode_path: self.staging_location_of(name, reencode_marker())->0,
                    final_path: self.final_location_of(rules, name, fixed_path)->0,
                },
            ),
            None => None,
        }
    }

    /// The staging path with `marker` between stem and extension.
    fn staging_location(&self, output_name: &str, marker: &str) -> (r: Result<String, PathError>)
        ensures
            match r {
                Ok(path) => self.staging_location_of(output_name@, marker@) == Some(path@),
                Err(error) => error == PathError::MissingExtension && name_and_extension_of(
                    output_name@,
                ) is None,
            },
    {
        match to_name_and_extension(output_name) {
            Some((stem, extension)) => {
                let mut name = stem;
                name.append(marker);
                name.append(extension.as_str());
                Ok(join(self.temp_dir.as_str(), name.as_str()))
            },
            None => Err(PathError::MissingExtension),
        }
    }

    /// Where the source of the output `output_name` is acquired to:
    /// `{stem}-download.{extension}` in the staging directory.
    /// `MissingExtension` for a name without an extension.
    pub fn get_download_location(&self, output_name: &str) -> (r: Result<String, PathError>)
        ensures
            match r {
                Ok(path) => self.staging_location_of(output_name@, download_marker()) == Some(
                    path@,
                ),
                Err(error) => error == PathError::MissingExtension && name_and_extension_of(
                    output_name@,
                ) is None,
            },
    {
        self.staging_location(output_name, "-download.")
    }

    /// Where the transcoding agent writes the output `output_name`:
    /// `{stem}-reencode.{extension}` in the staging directory.
    /// `MissingExtension` for a name without an extension.
    pub fn get_reencode_location(&self, output_name: &str) -> (r: Result<String, PathError>)
        ensures
            match r {
                Ok(path) => self.staging_location_of(output_name@, reencode_marker()) == Some(
                    path@,
                ),
                Err(error) => error == PathError::MissingExtension && name_and_extension_of(
                    output_name@,
                ) is None,
            },
    {
        self.staging_location(output_name, "-reencode.")
    }

    /// Compiles the placement rules of the configuration. The result is the
    /// set of these rules exactly where they compile: always where none are
    /// configured, else where the compiler of regular expressions accepts
    /// the patterns. Where it refuses them, the result is `InvalidPattern`.
    pub fn rule_set(&self) -> (r: Result<PlacementRuleSet, ConfigError>)
        ensures
            r is Ok <==> rules_compile(self.rules()),
            match r {
                Ok(set) => set@ == self.rules(),
                Err(error) => error == ConfigError::InvalidPattern,
            },
    {
        match &self.preference {
            Some(rules) => PlacementRuleSet::new(rules),
            None => Ok(PlacementRuleSet::empty()),
        }
    }

    /// The directory that the placement rules of the configuration choose
    /// for the output `output_name`: that of the first rule whose pattern
    /// matches the name, and none where no rule matches or none is
    /// configured. Rules that do not compile make this `InvalidPattern`.
    pub fn preference_location(&self, output_name: &str) -> (r: Result<
        Option<String>,
        ConfigError,
    >)
        ensures
            r is Ok <==> rules_compile(self.rules()),
            match r {
                Ok(directory) => optional_text(directory) == override_of(
                    self.rules(),
                    output_name@,
                ),
                Err(error) => error == ConfigError::InvalidPattern,
            },
            self.rules().len() == 0 ==> r == Ok::<Option<String>, ConfigError>(None),
    {
        proof {
            if self.rules().len() == 0 {
                lemma_first_hit(matching_patterns(patterns_of(self.rules()), output_name@), 0);
            }
        }
        match self.rule_set() {
            Ok(set) => Ok(set.resolve_override(output_name)),
            Err(error) => Err(error),
        }
    }

    /// The final path of the output `output_name` before it is made
    /// canonical. With `fixed_path` it is the name itself; else it is the
    /// final component of the name in the directory of the first of `rules`
    /// that matches the name, or in the store directory where none matches.
    /// There is none for a name without a final component whose path is not
    /// fixed.
    pub fn get_final_location(
        &self,
        rules: &PlacementRuleSet,
        output_name: &str,
        fixed_path: bool,
    ) -> (r: Option<String>)
        ensures
            optional_text(r) == self.final_location_of(rules@, output_name@, fixed_path),
    {
        if fixed_path {
            return Some(output_name.to_owned());
        }
        match file_name(output_name) {
            Some(file) => {
                let directory = match rules.resolve_override(output_name) {
                    Some(directory) => directory,
                    None => self.store_dir.clone(),
                };
                Some(join(directory.as_str(), file.as_str()))
            },
            None => None,
        }
    }

    /// The working paths of the output `logical_name`, the final path not
    /// yet canonical. `MissingExtension` for a name without an extension.
    pub fn resolve(&self, rules: &PlacementRuleSet, logical_name: &str, fixed_path: bool) -> (r:
        Result<WorkingPaths, PathError>)
        ensures
            match r {
                Ok(paths) => self.working_paths_of(rules@, logical_name@, fixed_path) == Some(
                    paths@,
                ),
                Err(error) => error == PathError::MissingExtension && self.working_paths_of(
                    rules@,
                    logical_name@,
                    fixed_path,
                ) is None,
            },
    {
        let download_path = match self.get_download_location(logical_name) {
            Ok(path) => path,
            Err(error) => {
                return Err(error);
            },
        };
        let transcode_path = match self.get_reencode_location(logical_name) {
            Ok(path) => path,
            Err(error) => {
                return Err(error);
            },
        };
        match self.get_final_location(rules, logical_name, fixed_path) {
            Some(final_path) => Ok(WorkingPaths { download_path, transcode_path, final_path }),
            None => Err(PathError::MissingExtension),
        }
    }
}

/// Which of the optional behaviours of the pipeline are in force.
#[derive(Clone, Copy, Debug, PartialEq, Eq, Structural)]
pub struct Behavior {
    /// A source that is a local file is copied into the staging directory
    /// instead of being handed to the download agent.
    pub local_copy: bool,
    /// What was acquired by such a copy is moved to the final path, not copied.
    pub move_semantics: bool,
    /// The placement rules are consulted for the final path.
    pub placement_rules: bool,
}

impl Default for Behavior {
    /// Local sources are copied, results are copied to the final path, and
    /// the placement rules apply.
    fn default() -> (r: Behavior)
        ensures
            r == (Behavior { local_copy: true, move_semantics: false, placement_rules: true }),
    {
        Behavior { local_copy: true, move_semantics: false, placement_rules: true }
    }
}

/// The whole configuration of a run.
#[derive(Clone, Debug, Default, PartialEq, Eq)]
pub struct Config {
    pub aria2c: Aria2c,
    pub ffmpeg: Ffmpeg,
    pub propwriter: PropWriter,
    pub disk: PathManager,
    pub behavior: Behavior,
}

/// The first rule whose pattern matches an output name decides where the
/// output is stored: its directory takes the place of the store directory,
/// and the final component of the name is appended to it.
pub proof fn lemma_first_matching_rule_decides(
    disk: PathManager,
    rules: Seq<PlacementRuleView>,
    name: Seq<char>,
    i: int,
)
    requires
        file_name_of(name) is Some,
        is_first_hit(matching_patterns(patterns_of(rules), name), rules.len(), i),
    ensures
        override_of(rules, name) == Some(rules[i].directory),
        disk.final_location_of(rules, name, false) == Some(
            joined(rules[i].directory, file_name_of(name)->0),
        ),
{
    lemma_first_hit_is(matching_patterns(patterns_of(rules), name), rules.len(), i);
}

/// Where no rule matches an output name, and where there are no rules, the
/// output is stored in the store directory.
pub proof fn lemma_store_directory_without_match(
    disk: PathManager,
    rules: Seq<PlacementRuleView>,
    name: Seq<char>,
)
    requires
        file_name_of(name) is Some,
        no_hit(matching_patterns(patterns_of(rules), name), rules.len()),
    ensures
        override_of(rules, name) is None,
        disk.final_location_of(rules, name, false) == Some(
            joined(disk.store_dir@, file_name_of(name)->0),
        ),
{
    lemma_first_hit(matching_patterns(patterns_of(rules), name), rules.len());
}

/// The name of a staging file is a plain name, ten characters longer than
/// stem and extension together.
pub proof fn lemma_staging_name(stem: Seq<char>, marker: Seq<char>, extension: Seq<char>)
    requires
        stem.len() > 0,
        forall|i: int| 0 <= i < stem.len() ==> !is_separator(#[trigger] stem[i]),
        forall|i: int| 0 <= i < extension.len() ==> !is_separator(#[trigger] extension[i]),
        marker == download_marker() || marker == reencode_marker(),
    ensures
        plain_name(stem + marker + extension),
        (stem + marker + extension).len() == stem.len() + 10 + extension.len(),
        (stem + marker + extension)[stem.len() as int + 1] == marker[1],
{
    reveal_strlit("-download.");
    reveal_strlit("-reencode.");
    let name = stem + marker + extension;
    assert(marker.len() == 10);
    assert forall|i: int| 0 <= i < name.len() implies !is_separator(#[trigger] name[i]) by {
        if i < stem.len() {
            assert(name[i] == stem[i]);
        } else if i < stem.len() + 10 {
            assert(name[i] == marker[i - stem.len()]);
        } else {
            assert(name[i] == extension[i - stem.len() - 10]);
        }
    }
    assert(name[stem.len() as int + 1] == marker[1]);
    assert(name.len() > 2);
    assert(seq!['.'].len() == 1);
    assert(seq!['.', '.'].len() == 2);
}

/// The working paths of a run lie apart.
///
/// For every output name with an extension, the three paths differ from each
/// other, and the two staging paths have the staging directory as their
/// parent. Unless the final path is fixed, its parent is the directory that
/// the rules choose; so it differs from the parent of the staging paths
/// whenever that directory is not the staging directory. Directories are
/// compared without the separators that end them.
pub proof fn lemma_working_paths_lie_apart(
    disk: PathManager,
    rules: Seq<PlacementRuleView>,
    name: Seq<char>,
    fixed_path: bool,
)
    requires
        name_and_extension_of(name) is Some,
    ensures
        disk.working_paths_of(rules, name, fixed_path) is Some,
        ({
            let paths = disk.working_paths_of(rules, name, fixed_path)->0;
            let staging = trim_separators(disk.temp_dir@);
            let directory = trim_separators(disk.directory_of(rules, name));
            &&& disk.final_location_of(rules, name, fixed_path) == Some(paths.final_path)
            &&& paths.download_path != paths.transcode_path
            &&& paths.download_path != paths.final_path
            &&& paths.transcode_path != paths.final_path
            &&& parent_of(paths.download_path) == Some(staging)
            &&& parent_of(paths.transcode_path) == Some(staging)
            &&& !fixed_path ==> parent_of(paths.final_path) == Some(directory)
            &&& !fixed_path && directory != staging ==> parent_of(paths.final_path) != parent_of(
                paths.download_path,
            )
        }),
{
    reveal_strlit("-download.");
    reveal_strlit("-reencode.");
    lemma_name_and_extension(name);
    lemma_file_name_is_plain(name);
    let (stem, extension) = name_and_extension_of(name)->0;
    let file = file_name_of(name)->0;
    let download_name = stem + download_marker() + extension;
    let reencode_name = stem + reencode_marker() + extension;
    lemma_staging_name(stem, download_marker(), extension);
    lemma_staging_name(stem, reencode_marker(), extension);
    lemma_joined_plain(disk.temp_dir@, download_name);
    lemma_joined_plain(disk.temp_dir@, reencode_name);
    let paths = disk.working_paths_of(rules, name, fixed_path)->0;
    assert(file_name_of(paths.download_path) == Some(download_name));
    assert(file_name_of(paths.transcode_path) == Some(reencode_name));
    assert(download_name[stem.len() as int + 1] == 'd');
    assert(reencode_name[stem.len() as int + 1] == 'r');
    assert(file.len() == stem.len() + 1 + extension.len());
    if !fixed_path {
        lemma_joined_plain(disk.directory_of(rules, name), file);
    }
    assert(file_name_of(paths.final_path) == Some(file));
}

} // verus!
