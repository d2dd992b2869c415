use pirate_life::command::Invocation;
use pirate_life::config::Aria2c;
use pirate_life::config::Behavior;
use pirate_life::config::Ffmpeg;
use pirate_life::config::PathManager;
use pirate_life::config::WorkingPaths;
use pirate_life::error::ConfigError;
use pirate_life::error::PathError;
use pirate_life::path::parent;
use pirate_life::rules::PlacementRule;
use pirate_life::rules::PlacementRuleSet;

fn strings(items: &[&str]) -> Vec<String> {
    items.iter().map(|item| item.to_string()).collect()
}

fn rule(pattern: &str, directory: &str) -> PlacementRule {
    PlacementRule { directory: directory.to_string(), pattern: pattern.to_string() }
}

fn disk(preference: Option<Vec<PlacementRule>>) -> PathManager {
    PathManager { temp_dir: "/tmp/stage".to_string(), store_dir: "/store".to_string(), preference }
}

fn tv_rules() -> Vec<PlacementRule> {
    vec![rule(".*s01.*", "/tv"), rule(".*", "/catchall")]
}

#[test]
fn download_location_is_in_the_staging_directory() {
    let disk = disk(None);
    assert_eq!(
        disk.get_download_location("movie.mkv"),
        Ok("/tmp/stage/movie-download.mkv".to_string())
    );
    assert_eq!(
        disk.get_download_location("/elsewhere/show.s01e01.mkv"),
        Ok("/tmp/stage/show.s01e01-download.mkv".to_string())
    );
}

#[test]
fn reencode_location_is_in_the_staging_directory() {
    let disk = disk(None);
    assert_eq!(
        disk.get_reencode_location("movie.mkv"),
        Ok("/tmp/stage/movie-reencode.mkv".to_string())
    );
}

#[test]
fn staging_locations_need_an_extension() {
    let disk = disk(None);
    assert_eq!(disk.get_download_location("movie"), Err(PathError::MissingExtension));
    assert_eq!(disk.get_reencode_location("movie"), Err(PathError::MissingExtension));
    assert_eq!(disk.get_download_location(".hidden"), Err(PathError::MissingExtension));
    assert_eq!(disk.get_download_location(""), Err(PathError::MissingExtension));
}

#[test]
fn placement_rule_precedence() {
    let disk = disk(Some(tv_rules()));
    assert_eq!(disk.preference_location("show.s01e01.mkv"), Ok(Some("/tv".to_string())));
    assert_eq!(disk.preference_location("movie.mkv"), Ok(Some("/catchall".to_string())));
}

#[test]
fn no_preference_without_rules() {
    assert_eq!(disk(None).preference_location("movie.mkv"), Ok(None));
    assert_eq!(disk(Some(Vec::new())).preference_location("movie.mkv"), Ok(None));
    assert_eq!(disk(Some(vec![rule("^x", "/x")])).preference_location("movie.mkv"), Ok(None));
}

#[test]
fn invalid_pattern_is_a_configuration_error() {
    let disk = disk(Some(vec![rule("[", "/broken")]));
    assert_eq!(disk.preference_location("movie.mkv"), Err(ConfigError::InvalidPattern));
    assert_eq!(disk.rule_set().err(), Some(ConfigError::InvalidPattern));
}

#[test]
fn rule_set_of_the_configuration() {
    let set = disk(Some(tv_rules())).rule_set().unwrap();
    assert_eq!(set.resolve_override("show.s01e01.mkv"), Some("/tv".to_string()));
    let none = disk(None).rule_set().unwrap();
    assert_eq!(none.resolve_override("show.s01e01.mkv"), None);
}

#[test]
fn final_location_follows_the_rules() {
    let disk = disk(None);
    let rules = PlacementRuleSet::new(&tv_rules()).unwrap();
    assert_eq!(
        disk.get_final_location(&rules, "show.s01e01.mkv", false),
        Some("/tv/show.s01e01.mkv".to_string())
    );
    assert_eq!(
        disk.get_final_location(&rules, "in/movie.mkv", false),
        Some("/catchall/movie.mkv".to_string())
    );
}

#[test]
fn final_location_defaults_to_the_store_directory() {
    let disk = disk(None);
    let rules = PlacementRuleSet::empty();
    assert_eq!(
        disk.get_final_location(&rules, "movie.final.mkv", false),
        Some("/store/movie.final.mkv".to_string())
    );
    assert_eq!(disk.get_final_location(&rules, "a/..", false), None);
}

#[test]
fn fixed_final_location_is_the_name_itself() {
    let disk = disk(None);
    let rules = PlacementRuleSet::new(&tv_rules()).unwrap();
    assert_eq!(
        disk.get_final_location(&rules, "/mnt/out/movie.mkv", true),
        Some("/mnt/out/movie.mkv".to_string())
    );
}

#[test]
fn resolve_gives_three_distinct_paths() {
    let disk = disk(None);
    let rules = PlacementRuleSet::empty();
    let paths = disk.resolve(&rules, "movie.mkv", false).unwrap();
    assert_eq!(
        paths,
        WorkingPaths {
            download_path: "/tmp/stage/movie-download.mkv".to_string(),
            transcode_path: "/tmp/stage/movie-reencode.mkv".to_string(),
            final_path: "/store/movie.mkv".to_string(),
        }
    );
    assert_ne!(paths.download_path, paths.transcode_path);
    assert_ne!(paths.download_path, paths.final_path);
    assert_ne!(paths.transcode_path, paths.final_path);
}

#[test]
fn staging_paths_share_a_parent_apart_from_the_final() {
    let paths = disk(None).resolve(&PlacementRuleSet::empty(), "in/movie.mkv", false).unwrap();
    assert_eq!(parent(&paths.download_path), Some("/tmp/stage".to_string()));
    assert_eq!(parent(&paths.transcode_path), Some("/tmp/stage".to_string()));
    assert_eq!(parent(&paths.final_path), Some("/store".to_string()));
}

#[test]
fn resolve_keeps_paths_apart_in_one_directory() {
    let disk = PathManager {
        temp_dir: "/same".to_string(),
        store_dir: "/same".to_string(),
        preference: None,
    };
    let paths = disk.resolve(&PlacementRuleSet::empty(), "movie.mkv", false).unwrap();
    assert_eq!(paths.download_path, "/same/movie-download.mkv");
    assert_eq!(paths.transcode_path, "/same/movie-reencode.mkv");
    assert_eq!(paths.final_path, "/same/movie.mkv");
}

#[test]
fn resolve_needs_an_extension() {
    let disk = disk(None);
    let rules = PlacementRuleSet::empty();
    assert_eq!(disk.resolve(&rules, "movie", false), Err(PathError::MissingExtension));
    assert_eq!(disk.resolve(&rules, "movie", true), Err(PathError::MissingExtension));
}

#[test]
fn settle_takes_a_rooted_canonical_path() {
    let paths = disk(None).resolve(&PlacementRuleSet::empty(), "movie.mkv", false).unwrap();
    let settled = paths.clone().settle(Some("/real/store/movie.mkv".to_string())).unwrap();
    assert_eq!(settled.final_path, "/real/store/movie.mkv");
    assert_eq!(settled.download_path, paths.download_path);
    assert_eq!(settled.transcode_path, paths.transcode_path);
}

#[test]
fn settle_refuses_a_path_without_root() {
    let paths = disk(None).resolve(&PlacementRuleSet::empty(), "movie.mkv", false).unwrap();
    assert_eq!(
        paths.clone().settle(Some("store/movie.mkv".to_string())),
        Err(PathError::UnresolvablePath)
    );
    assert_eq!(paths.clone().settle(Some("".to_string())), Err(PathError::UnresolvablePath));
    assert_eq!(paths.settle(None), Err(PathError::Io));
}

#[test]
fn download_command_with_default_rate() {
    let aria2c = Aria2c {
        path: "/usr/bin/aria2c".to_string(),
        default_speed: 500,
        default_args: strings(&["--quiet", "-x4"]),
    };
    let command = aria2c.build_command(None, "https://x/y.mp4", "/tmp/stage/y-download.mp4");
    assert_eq!(
        command,
        Some(Invocation {
            program: "/usr/bin/aria2c".to_string(),
            args: strings(&[
                "--quiet",
                "-x4",
                "--max-overall-download-limit=500k",
                "-o",
                "y-download.mp4",
                "https://x/y.mp4",
            ]),
            current_dir: Some("/tmp/stage".to_string()),
        })
    );
}

#[test]
fn download_command_with_a_rate_asked_for() {
    let aria2c = Aria2c { path: "aria2c".to_string(), default_speed: 500, default_args: vec![] };
    let command = aria2c.build_command(Some(0), "https://x/", "y-download.mp4").unwrap();
    assert_eq!(
        command.args,
        strings(&["--max-overall-download-limit=0k", "-o", "y-download.mp4", "https://x/"])
    );
    assert_eq!(command.current_dir, Some("".to_string()));
    let fast = aria2c.build_command(Some(u64::MAX), "https://x/", "y-download.mp4").unwrap();
    assert_eq!(fast.args[0], "--max-overall-download-limit=18446744073709551615k");
}

#[test]
fn download_command_needs_an_output_file() {
    let aria2c = Aria2c::default();
    assert_eq!(aria2c.build_command(None, "https://x/", "/"), None);
    assert_eq!(aria2c.build_command(None, "https://x/", ""), None);
}

#[test]
fn transcode_command() {
    let ffmpeg = Ffmpeg {
        path: "/usr/bin/ffmpeg".to_string(),
        default_args: strings(&["-c:v", "libx265"]),
    };
    assert_eq!(
        ffmpeg.build_command("/tmp/in.mkv", "/tmp/out.mkv"),
        Invocation {
            program: "/usr/bin/ffmpeg".to_string(),
            args: strings(&["-i", "/tmp/in.mkv", "-c:v", "libx265", "/tmp/out.mkv"]),
            current_dir: None,
        }
    );
}

#[test]
fn transcode_command_without_default_arguments() {
    let ffmpeg = Ffmpeg { path: "ffmpeg".to_string(), default_args: vec![] };
    assert_eq!(ffmpeg.build_command("a", "b").args, strings(&["-i", "a", "b"]));
}

#[test]
fn default_behavior() {
    assert_eq!(
        Behavior::default(),
        Behavior { local_copy: true, move_semantics: false, placement_rules: true }
    );
}
