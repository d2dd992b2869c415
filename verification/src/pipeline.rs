//! The run as a state machine: from a state and an event to the next state
//! and the action to perform.
//!
//! The machine decides; its caller acts. Each action is answered by one
//! event, and the first event of a run is `Event::Start`.

use crate::cli::Cli;
use crate::command::check_exit;
use crate::command::exit_verdict;
use crate::command::Invocation;
use crate::command::InvocationView;
use crate::config::Config;
use crate::config::settled_final_path;
use crate::config::WorkingPaths;
use crate::config::WorkingPathsView;
use crate::error::ClassificationError;
use crate::error::ClassificationErrorView;
use crate::error::ExternalToolError;
use crate::error::Failure;
use crate::error::FailureView;
use crate::error::PathError;
use crate::path::file_name_of;
use crate::path::parent_of;
use crate::rules::PlacementRuleSet;
use crate::rules::PlacementRuleView;
use crate::text::texts;
use crate::url::classification;
use crate::url::parsed_url;
use crate::url::resolution;
use crate::url::SourceReference;
use crate::url::SourceReferenceView;
use crate::url::UrlLike;
use crate::url::UrlLikeView;
use vstd::prelude::*;

verus! {

/// What the caller of the machine is to do next.
#[derive(Clone, Debug, PartialEq, Eq)]
pub enum Action {
    /// Ask the file system for the canonical form of the path.
    Canonicalize(String),
    /// Copy the file at `from` to `to`.
    CopyFile { from: String, to: String },
    /// Move the file at `from` to `to`.
    MoveFile { from: String, to: String },
    /// Run the external tool and wait for it to end.
    Run(Invocation),
    /// Remove the file.
    RemoveFile(String),
    /// Nothing: the run is over.
    Stop,
}

/// An `Action` as text.
pub enum ActionView {
    Canonicalize(Seq<char>),
    CopyFile { from: Seq<char>, to: Seq<char> },
    MoveFile { from: Seq<char>, to: Seq<char> },
    Run(InvocationView),
    RemoveFile(Seq<char>),
    Stop,
}

impl View for Action {
    type V = ActionView;

    open spec fn view(&self) -> ActionView {
        match self {
            Action::Canonicalize(path) => ActionView::Canonicalize(path@),
            Action::CopyFile { from, to } => ActionView::CopyFile { from: from@, to: to@ },
            Action::MoveFile { from, to } => ActionView::MoveFile { from: from@, to: to@ },
            Action::Run(command) => ActionView::Run(command@),
            Action::RemoveFile(path) => ActionView::RemoveFile(path@),
            Action::Stop => ActionView::Stop,
        }
    }
}

/// What came of the last action.
#[derive(Clone, Debug, PartialEq, Eq)]
pub enum Event {
    /// Nothing was asked for yet: the run begins.
    Start,
    /// The canonical form of the path that was asked about.
    Canonical(String),
    /// The file was copied, moved or removed.
    Done,
    /// The external tool ended, with this exit code or, without one, by a
    /// signal.
    Exited(Option<i32>),
    /// The file to act on is not there.
    NotFound,
    /// The action could not be performed.
    Failed,
}

/// An `Event` as text.
pub enum EventView {
    Start,
    Canonical(Seq<char>),
    Done,
    Exited(Option<i32>),
    NotFound,
    Failed,
}

impl View for Event {
    type V = EventView;

    open spec fn view(&self) -> EventView {
        match self {
            Event::Start => EventView::Start,
            Event::Canonical(path) => EventView::Canonical(path@),
            Event::Done => EventView::Done,
            Event::Exited(code) => EventView::Exited(*code),
            Event::NotFound => EventView::NotFound,
            Event::Failed => EventView::Failed,
        }
    }
}

/// A source and the working paths of its run.
#[derive(Clone, Debug, PartialEq, Eq)]
pub struct Job {
    pub source: SourceReference,
    pub paths: WorkingPaths,
}

/// A `Job` as text.
pub struct JobView {
    pub source: SourceReferenceView,
    pub paths: WorkingPathsView,
}

impl View for Job {
    type V = JobView;

    open spec fn view(&self) -> JobView {
        JobView { source: self.source@, paths: self.paths@ }
    }
}

/// Where a run stands. Each state but the first and the last two waits for
/// the event that answers the action which led into it.
#[derive(Clone, Debug, PartialEq, Eq)]
pub enum State {
    /// The source is to be classified. With a source, its text is classified
    /// and, for a local file, the canonical form of its path was asked for.
    Classifying(Option<UrlLike>),
    /// The canonical form of the final path was asked for.
    Resolving(Job),
    /// The source is being copied or downloaded to the download path.
    Acquiring(Job),
    /// The transcoding agent is running.
    Transcoding(Job),
    /// The tag writer is running.
    Tagging(Job),
    /// The artifact is being copied or moved to the final path.
    Placing(Job),
    /// The first of these staging files is being removed; the others follow.
    CleaningUp(Vec<String>),
    /// The run succeeded.
    Done,
    /// The run failed.
    Failed(Failure),
}

/// A `State` as text.
pub enum StateView {
    Classifying(Option<UrlLikeView>),
    Resolving(JobView),
    Acquiring(JobView),
    Transcoding(JobView),
    Tagging(JobView),
    Placing(JobView),
    CleaningUp(Seq<Seq<char>>),
    Done,
    Failed(FailureView),
}

impl View for State {
    type V = StateView;

    open spec fn view(&self) -> StateView {
        match self {
            State::Classifying(source) => StateView::Classifying(
                match source {
                    Some(source) => Some(source@),
                    None => None,
                },
            ),
            State::Resolving(job) => StateView::Resolving(job@),
            State::Acquiring(job) => StateView::Acquiring(job@),
            State::Transcoding(job) => StateView::Transcoding(job@),
            State::Tagging(job) => StateView::Tagging(job@),
            State::Placing(job) => StateView::Placing(job@),
            State::CleaningUp(paths) => StateView::CleaningUp(texts(paths@)),
            State::Done => StateView::Done,
            State::Failed(failure) => StateView::Failed(failure@),
        }
    }
}

/// The end of a run that failed.
pub open spec fn failed(failure: FailureView) -> (StateView, ActionView) {
    (StateView::Failed(failure), ActionView::Stop)
}

/// The file that the tag writer works on and that is placed: what the
/// transcoding agent wrote if it ran, else what was acquired.
pub open spec fn artifact_of(cli: &Cli, paths: WorkingPathsView) -> Seq<char> {
    if cli.perform_reencoding {
        paths.transcode_path
    } else {
        paths.download_path
    }
}

/// Whether the source is acquired by a copy, without the download agent.
pub open spec fn acquired_by_copy(config: &Config, source: SourceReferenceView) -> bool {
    config.behavior.local_copy && source is LocalFile
}

/// Whether the artifact is moved to the final path, not copied.
pub open spec fn placed_by_move(config: &Config, source: SourceReferenceView) -> bool {
    config.behavior.move_semantics && acquired_by_copy(config, source)
}

/// What the download agent is given as the source.
pub open spec fn source_text(source: SourceReferenceView) -> Seq<char> {
    match source {
        SourceReferenceView::Remote(url) => url.serialization,
        SourceReferenceView::LocalFile(path) => path,
    }
}

/// The rules that apply: none where the configuration switches them off.
pub open spec fn rules_in_force(config: &Config, rules: Seq<PlacementRuleView>) -> Seq<
    PlacementRuleView,
> {
    if config.behavior.placement_rules {
        rules
    } else {
        Seq::empty()
    }
}

/// Into `Resolving`: the working paths are computed, and the canonical form
/// of the final path is asked for. An output name without an extension ends
/// the run.
pub open spec fn enter_resolving(
    config: &Config,
    cli: &Cli,
    rules: Seq<PlacementRuleView>,
    source: SourceReferenceView,
) -> (StateView, ActionView) {
    match config.disk.working_paths_of(
        rules_in_force(config, rules),
        cli.output_name@,
        cli.override_output,
    ) {
        Some(paths) => (
            StateView::Resolving(JobView { source, paths }),
            ActionView::Canonicalize(paths.final_path),
        ),
        None => failed(FailureView::Path(PathError::MissingExtension)),
    }
}

/// Into `Acquiring`: a local file is copied to the download path where the
/// configuration allows it; any other source goes to the download agent. A
/// download path without a final component ends the run.
pub open spec fn enter_acquiring(config: &Config, cli: &Cli, job: JobView) -> (
    StateView,
    ActionView,
) {
    if acquired_by_copy(config, job.source) {
        (
            StateView::Acquiring(job),
            ActionView::CopyFile { from: source_text(job.source), to: job.paths.download_path },
        )
    } else {
        match file_name_of(job.paths.download_path) {
            Some(file) => (
                StateView::Acquiring(job),
                ActionView::Run(
                    InvocationView {
                        program: config.aria2c.path@,
                        args: config.aria2c.download_arguments(
                            cli.speed,
                            source_text(job.source),
                            file,
                        ),
                        current_dir: parent_of(job.paths.download_path),
                    },
                ),
            ),
            None => failed(FailureView::Path(PathError::UnresolvablePath)),
        }
    }
}

/// Into `Tagging`: the tag writer is run on the artifact.
pub open spec fn enter_tagging(config: &Config, cli: &Cli, job: JobView) -> (StateView, ActionView) {
    (
        StateView::Tagging(job),
        ActionView::Run(
            InvocationView {
                program: config.propwriter.path@,
                args: cli.tag_arguments(artifact_of(cli, job.paths)),
                current_dir: None,
            },
        ),
    )
}

/// After the acquisition: into `Transcoding` if that was asked for, else
/// straight into `Tagging`.
pub open spec fn after_acquiring(config: &Config, cli: &Cli, job: JobView) -> (
    StateView,
    ActionView,
) {
    if cli.perform_reencoding {
        (
            StateView::Transcoding(job),
            ActionView::Run(
                InvocationView {
                    program: config.ffmpeg.path@,
                    args: config.ffmpeg.transcode_arguments(
                        job.paths.download_path,
                        job.paths.transcode_path,
                    ),
                    current_dir: None,
                },
            ),
        )
    } else {
        enter_tagging(config, cli, job)
    }
}

/// Into `Placing`: the artifact goes to the final path.
pub open spec fn enter_placing(config: &Config, cli: &Cli, job: JobView) -> (StateView, ActionView) {
    let from = artifact_of(cli, job.paths);
    let to = job.paths.final_path;
    if placed_by_move(config, job.source) {
        (StateView::Placing(job), ActionView::MoveFile { from, to })
    } else {
        (StateView::Placing(job), ActionView::CopyFile { from, to })
    }
}

/// The staging files to remove once the artifact is placed: the download
/// path, and the transcode path if the transcoding agent ran; but not the
/// artifact if it was moved away.
pub open spec fn staging_files(config: &Config, cli: &Cli, job: JobView) -> Seq<Seq<char>> {
    if placed_by_move(config, job.source) {
        if cli.perform_reencoding {
            seq![job.paths.download_path]
        } else {
            Seq::empty()
        }
    } else {
        if cli.perform_reencoding {
            seq![job.paths.download_path, job.paths.transcode_path]
        } else {
            seq![job.paths.download_path]
        }
    }
}

/// Into `CleaningUp` with the files still to remove, or into `Done` where
/// none is left.
pub open spec fn enter_cleaning_up(files: Seq<Seq<char>>) -> (StateView, ActionView) {
    if files.len() == 0 {
        (StateView::Done, ActionView::Stop)
    } else {
        (StateView::CleaningUp(files), ActionView::RemoveFile(files[0]))
    }
}

/// The next state and the action for an external tool that ended with
/// `code`: `next` if the code is zero, else the end of the run.
pub open spec fn after_exit(code: Option<i32>, next: (StateView, ActionView)) -> (
    StateView,
    ActionView,
) {
    match exit_verdict(code) {
        Ok(_) => next,
        Err(error) => failed(FailureView::ExternalTool(error)),
    }
}

/// The transition of the machine.
///
/// An event that does not answer the action of the state ends the run with
/// `UnexpectedEvent`; `Done` and `Failed` are left by no event.
pub open spec fn step(
    config: &Config,
    cli: &Cli,
    rules: Seq<PlacementRuleView>,
    state: StateView,
    event: EventView,
) -> (StateView, ActionView) {
    match state {
        StateView::Classifying(None) => match event {
            EventView::Start => match classification(parsed_url(cli.url@), cli.url@) {
                Ok(UrlLikeView::LocalFile(path)) => (
                    StateView::Classifying(Some(UrlLikeView::LocalFile(path))),
                    ActionView::Canonicalize(path),
                ),
                Ok(UrlLikeView::RemoteHTTP(url)) => enter_resolving(
                    config,
                    cli,
                    rules,
                    SourceReferenceView::Remote(url),
                ),
                Err(error) => failed(FailureView::Classification(error)),
            },
            _ => failed(FailureView::UnexpectedEvent),
        },
        StateView::Classifying(Some(source)) => match event {
            EventView::Canonical(path) => match resolution(source, Some(path)) {
                Ok(resolved) => enter_resolving(config, cli, rules, resolved),
                Err(error) => failed(FailureView::Classification(error)),
            },
            EventView::NotFound | EventView::Failed => failed(
                FailureView::Classification(ClassificationErrorView::PathResolution),
            ),
            _ => failed(FailureView::UnexpectedEvent),
        },
        StateView::Resolving(job) => match event {
            EventView::Canonical(path) => match settled_final_path(Some(path)) {
                Ok(final_path) => enter_acquiring(
                    config,
                    cli,
                    JobView {
                        source: job.source,
                        paths: WorkingPathsView {
                            download_path: job.paths.download_path,
                            transcode_path: job.paths.transcode_path,
                            final_path,
                        },
                    },
                ),
                Err(error) => failed(FailureView::Path(error)),
            },
            EventView::NotFound | EventView::Failed => failed(FailureView::Path(PathError::Io)),
            _ => failed(FailureView::UnexpectedEvent),
        },
        StateView::Acquiring(job) => match event {
            EventView::Done => if acquired_by_copy(config, job.source) {
                after_acquiring(config, cli, job)
            } else {
                failed(FailureView::UnexpectedEvent)
            },
            EventView::Exited(code) => if acquired_by_copy(config, job.source) {
                failed(FailureView::UnexpectedEvent)
            } else {
                after_exit(code, after_acquiring(config, cli, job))
            },
            EventView::NotFound | EventView::Failed => failed(FailureView::Io),
            _ => failed(FailureView::UnexpectedEvent),
        },
        StateView::Transcoding(job) => match event {
            EventView::Exited(code) => after_exit(code, enter_tagging(config, cli, job)),
            EventView::NotFound | EventView::Failed => failed(FailureView::Io),
            _ => failed(FailureView::UnexpectedEvent),
        },
        StateView::Tagging(job) => match event {
            EventView::Exited(code) => after_exit(code, enter_placing(config, cli, job)),
            EventView::NotFound | EventView::Failed => failed(FailureView::Io),
            _ => failed(FailureView::UnexpectedEvent),
        },
        StateView::Placing(job) => match event {
            EventView::Done => enter_cleaning_up(staging_files(config, cli, job)),
            EventView::NotFound | EventView::Failed => failed(FailureView::Io),
            _ => failed(FailureView::UnexpectedEvent),
        },
        StateView::CleaningUp(files) => match event {
            EventView::Done | EventView::NotFound => if files.len() == 0 {
                (StateView::Done, ActionView::Stop)
            } else {
                enter_cleaning_up(files.drop_first())
            },
            EventView::Failed => failed(FailureView::Io),
            _ => failed(FailureView::UnexpectedEvent),
        },
        StateView::Done => (StateView::Done, ActionView::Stop),
        StateView::Failed(failure) => (StateView::Failed(failure), ActionView::Stop),
    }
}

/// The end of a run that failed.
fn fail(failure: Failure) -> (r: (State, Action))
    ensures
        (r.0@, r.1@) == failed(failure@),
{
    (State::Failed(failure), Action::Stop)
}

/// The artifact of a run.
fn artifact<'a>(cli: &Cli, paths: &'a WorkingPaths) -> (r: &'a String)
    ensures
        r@ == artifact_of(cli, paths@),
{
    if cli.perform_reencoding {
        &paths.transcode_path
    } else {
        &paths.download_path
    }
}

/// Into `CleaningUp`, or into `Done` where nothing is left to remove.
fn begin_cleaning_up(files: Vec<String>) -> (r: (State, Action))
    ensures
        (r.0@, r.1@) == enter_cleaning_up(texts(files@)),
{
    if files.len() == 0 {
        (State::Done, Action::Stop)
    } else {
        let first = files[0].clone();
        (State::CleaningUp(files), Action::RemoveFile(first))
    }
}

impl Config {
    /// Whether the source is acquired by a copy.
    fn copies(&self, source: &SourceReference) -> (r: bool)
        ensures
            r == acquired_by_copy(self, source@),
    {
        self.behavior.local_copy && source.is_local()
    }

    /// Into `Resolving`.
    fn begin_resolving(
        &self,
        cli: &Cli,
        rules: &PlacementRuleSet,
        source: SourceReference,
    ) -> (r: (
        State,
        Action,
    ))
        ensures
            (r.0@, r.1@) == enter_resolving(self, cli, rules@, source@),
    {
        let resolved = if self.behavior.placement_rules {
            self.disk.resolve(rules, cli.output_name.as_str(), cli.override_output)
        } else {
            let none = PlacementRuleSet::empty();
            self.disk.resolve(&none, cli.output_name.as_str(), cli.override_output)
        };
        match resolved {
            Ok(paths) => {
                let candidate = paths.final_path.clone();
                (State::Resolving(Job { source, paths }), Action::Canonicalize(candidate))
            },
            Err(_) => fail(Failure::Path(PathError::MissingExtension)),
        }
    }

    /// Into `Acquiring`.
    fn begin_acquiring(&self, cli: &Cli, job: Job) -> (r: (State, Action))
        ensures
            (r.0@, r.1@) == enter_acquiring(self, cli, job@),
    {
        let source = match &job.source {
            SourceReference::Remote(url) => url.serialization.clone(),
            SourceReference::LocalFile(path) => path.clone(),
        };
        if self.copies(&job.source) {
            let to = job.paths.download_path.clone();
            (State::Acquiring(job), Action::CopyFile { from: source, to })
        } else {
            match self.aria2c.build_command(
                cli.speed,
                source.as_str(),
                job.paths.download_path.as_str(),
            ) {
                Some(command) => (State::Acquiring(job), Action::Run(command)),
                None => fail(Failure::Path(PathError::UnresolvablePath)),
            }
        }
    }

    /// Into `Tagging`.
    fn begin_tagging(&self, cli: &Cli, job: Job) -> (r: (State, Action))
        ensures
            (r.0@, r.1@) == enter_tagging(self, cli, job@),
    {
        let command = cli.build_flags(
            self.propwriter.path.as_str(),
            artifact(cli, &job.paths).as_str(),
        );
        (State::Tagging(job), Action::Run(command))
    }

    /// Into `Transcoding` or, without it, into `Tagging`.
    fn continue_after_acquiring(&self, cli: &Cli, job: Job) -> (r: (State, Action))
        ensures
            (r.0@, r.1@) == after_acquiring(self, cli, job@),
    {
        if cli.perform_reencoding {
            let command = self.ffmpeg.build_command(
                job.paths.download_path.as_str(),
                job.paths.transcode_path.as_str(),
            );
            (State::Transcoding(job), Action::Run(command))
        } else {
            self.begin_tagging(cli, job)
        }
    }

    /// Into `Placing`.
    fn begin_placing(&self, cli: &Cli, job: Job) -> (r: (State, Action))
        ensures
            (r.0@, r.1@) == enter_placing(self, cli, job@),
    {
        let from = artifact(cli, &job.paths).clone();
        let to = job.paths.final_path.clone();
        if self.behavior.move_semantics && self.copies(&job.source) {
            (State::Placing(job), Action::MoveFile { from, to })
        } else {
            (State::Placing(job), Action::CopyFile { from, to })
        }
    }

    /// The staging files to remove once the artifact is placed.
    fn staging_list(&self, cli: &Cli, job: &Job) -> (r: Vec<String>)
        ensures
            texts(r@) == staging_files(self, cli, job@),
    {
        let mut files: Vec<String> = Vec::new();
        let moved = self.behavior.move_semantics && self.copies(&job.source);
        if !moved || cli.perform_reencoding {
            files.push(job.paths.download_path.clone());
        }
        if !moved && cli.perform_reencoding {
            files.push(job.paths.transcode_path.clone());
        }
        assert(texts(files@) =~= staging_files(self, cli, job@));
        files
    }

    /// The next state and the action for an external tool that ended.
    fn continue_after_exit(code: Option<i32>, next: (State, Action)) -> (r: (State, Action))
        ensures
            (r.0@, r.1@) == after_exit(code, (next.0@, next.1@)),
    {
        match check_exit(code) {
            Ok(_) => next,
            Err(error) => fail(Failure::ExternalTool(error)),
        }
    }
}

impl Config {
    /// Advances the run by one step: takes the state it is in and the event
    /// that answers the last action, and returns the next state with the
    /// action to perform. A run begins in `State::Classifying(None)` with
    /// `Event::Start` and is over when the action is `Action::Stop`.
    ///
    /// `rules` are the placement rules, compiled once before the run begins.
    pub fn do_it_all(&self, cli: &Cli, rules: &PlacementRuleSet, state: State, event: Event) -> (r:
        (State, Action))
        ensures
            (r.0@, r.1@) == step(self, cli, rules@, state@, event@),
    {
        match state {
            State::Classifying(None) => match event {
                Event::Start => match UrlLike::new(cli.url.as_str()) {
                    Ok(UrlLike::LocalFile(path)) => {
                        let asked = path.clone();
                        (
                            State::Classifying(Some(UrlLike::LocalFile(path))),
                            Action::Canonicalize(asked),
                        )
                    },
                    Ok(UrlLike::RemoteHTTP(url)) => self.begin_resolving(
                        cli,
                        rules,
                        SourceReference::Remote(url),
                    ),
                    Err(error) => fail(Failure::Classification(error)),
                },
                _ => fail(Failure::UnexpectedEvent),
            },
            State::Classifying(Some(source)) => match event {
                Event::Canonical(path) => match source.resolve(Some(path)) {
                    Ok(resolved) => self.begin_resolving(cli, rules, resolved),
                    Err(error) => fail(Failure::Classification(error)),
                },
                Event::NotFound | Event::Failed => fail(
                    Failure::Classification(ClassificationError::PathResolution),
                ),
                _ => fail(Failure::UnexpectedEvent),
            },
            State::Resolving(job) => match event {
                Event::Canonical(path) => {
                    let Job { source, paths } = job;
                    match paths.settle(Some(path)) {
                        Ok(paths) => self.begin_acquiring(cli, Job { source, paths }),
                        Err(error) => fail(Failure::Path(error)),
                    }
                },
                Event::NotFound | Event::Failed => fail(Failure::Path(PathError::Io)),
                _ => fail(Failure::UnexpectedEvent),
            },
            State::Acquiring(job) => match event {
                Event::Done => if self.copies(&job.source) {
                    self.continue_after_acquiring(cli, job)
                } else {
                    fail(Failure::UnexpectedEvent)
                },
                Event::Exited(code) => if self.copies(&job.source) {
                    fail(Failure::UnexpectedEvent)
                } else {
                    Self::continue_after_exit(code, self.continue_after_acquiring(cli, job))
                },
                Event::NotFound | Event::Failed => fail(Failure::Io),
                _ => fail(Failure::UnexpectedEvent),
            },
            State::Transcoding(job) => match event {
                Event::Exited(code) => Self::continue_after_exit(
                    code,
                    self.begin_tagging(cli, job),
                ),
                Event::NotFound | Event::Failed => fail(Failure::Io),
                _ => fail(Failure::UnexpectedEvent),
            },
            State::Tagging(job) => match event {
                Event::Exited(code) => Self::continue_after_exit(
                    code,
                    self.begin_placing(cli, job),
                ),
                Event::NotFound | Event::Failed => fail(Failure::Io),
                _ => fail(Failure::UnexpectedEvent),
            },
            State::Placing(job) => match event {
                Event::Done => begin_cleaning_up(self.staging_list(cli, &job)),
                Event::NotFound | Event::Failed => fail(Failure::Io),
                _ => fail(Failure::UnexpectedEvent),
            },
            State::CleaningUp(files) => match event {
                Event::Done | Event::NotFound => {
                    let mut files = files;
                    if files.len() == 0 {
                        (State::Done, Action::Stop)
                    } else {
                        let ghost before = files@;
                        files.remove(0);
                        assert(texts(files@) =~= texts(before).drop_first());
                        begin_cleaning_up(files)
                    }
                },
                Event::Failed => fail(Failure::Io),
                _ => fail(Failure::UnexpectedEvent),
            },
            State::Done => (State::Done, Action::Stop),
            State::Failed(failure) => (State::Failed(failure), Action::Stop),
        }
    }
}

/// Whether a run is over in this state.
pub open spec fn is_terminal(state: StateView) -> bool {
    state is Done || state is Failed
}

/// A bound on the number of steps that a run still takes from `state`.
pub open spec fn steps_left(state: StateView) -> nat {
    match state {
        StateView::Classifying(None) => 10,
        StateView::Classifying(Some(_)) => 9,
        StateView::Resolving(_) => 8,
        StateView::Acquiring(_) => 7,
        StateView::Transcoding(_) => 6,
        StateView::Tagging(_) => 5,
        StateView::Placing(_) => 4,
        StateView::CleaningUp(files) => files.len() + 1,
        StateView::Done => 0,
        StateView::Failed(_) => 0,
    }
}

/// A file that is no longer there when it is to be removed is as good as
/// removed: cleaning up again after everything was removed does not fail.
pub proof fn lemma_cleaning_up_tolerates_missing_files(
    config: &Config,
    cli: &Cli,
    rules: Seq<PlacementRuleView>,
    files: Seq<Seq<char>>,
)
    ensures
        step(config, cli, rules, StateView::CleaningUp(files), EventView::NotFound) == step(
            config,
            cli,
            rules,
            StateView::CleaningUp(files),
            EventView::Done,
        ),
        !(step(config, cli, rules, StateView::CleaningUp(files), EventView::NotFound).0 is Failed),
{
}

/// The machine asks for nothing more exactly when the run is over, and a run
/// that is over stays as it is, whatever event arrives.
pub proof fn lemma_stop_means_over(
    config: &Config,
    cli: &Cli,
    rules: Seq<PlacementRuleView>,
    state: StateView,
    event: EventView,
)
    ensures
        step(config, cli, rules, state, event).1 is Stop <==> is_terminal(
            step(config, cli, rules, state, event).0,
        ),
        is_terminal(state) ==> step(config, cli, rules, state, event).0 == state,
{
}

/// Every step of a run that is not over brings it nearer to its end, so a
/// run that begins with the classification takes ten steps at most.
pub proof fn lemma_run_ends(
    config: &Config,
    cli: &Cli,
    rules: Seq<PlacementRuleView>,
    state: StateView,
    event: EventView,
)
    requires
        !is_terminal(state),
    ensures
        steps_left(step(config, cli, rules, state, event).0) < steps_left(state),
{
}

/// Only the exit code zero lets a run go on after an external tool: any
/// other code, and an end by a signal, end the run with that very error.
pub proof fn lemma_tool_failure_is_fatal(
    config: &Config,
    cli: &Cli,
    rules: Seq<PlacementRuleView>,
    state: StateView,
    code: Option<i32>,
)
    requires
        state is Transcoding || state is Tagging || (state matches StateView::Acquiring(job)
            && !acquired_by_copy(config, job.source)),
        code != Some(0i32),
    ensures
        step(config, cli, rules, state, EventView::Exited(code)).0 == StateView::Failed(
            FailureView::ExternalTool(
                match code {
                    Some(c) => ExternalToolError::NonZeroExit(c),
                    None => ExternalToolError::Signaled,
                },
            ),
        ),
{
}

} // verus!
