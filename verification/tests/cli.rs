use pirate_life::cli::Cli;
use pirate_life::command::Invocation;

fn strings(items: &[&str]) -> Vec<String> {
    items.iter().map(|item| item.to_string()).collect()
}

#[test]
fn list_getters_count_and_copy() {
    let cli = Cli {
        tags: Some(strings(&["a", "b"])),
        artists: Some(strings(&[])),
        producers: Some(strings(&["p"])),
        genre: Some(strings(&["g1", "g2", "g3"])),
        ..Cli::default()
    };
    assert_eq!(cli.tags_iter(), (2, strings(&["a", "b"])));
    assert_eq!(cli.artists_iter(), (0, strings(&[])));
    assert_eq!(cli.producers_iter(), (1, strings(&["p"])));
    assert_eq!(cli.genres_iter(), (3, strings(&["g1", "g2", "g3"])));
    assert_eq!(cli.writers_iter(), (0, strings(&[])));
}

#[test]
fn text_getters_give_one_value_or_none() {
    let cli = Cli {
        title: Some("The Title".to_string()),
        subtitle: Some("".to_string()),
        ..Cli::default()
    };
    assert_eq!(cli.title_iter(), (1, strings(&["The Title"])));
    assert_eq!(cli.subtitle_iter(), (1, strings(&[""])));
    assert_eq!(cli.series_name_iter(), (0, strings(&[])));
}

#[test]
fn number_getters_write_decimal() {
    let cli = Cli { year: Some(1999), season: Some(0), ..Cli::default() };
    assert_eq!(cli.year_iter(), (1, strings(&["1999"])));
    assert_eq!(cli.season_iter(), (1, strings(&["0"])));
    assert_eq!(cli.episode_iter(), (0, strings(&[])));
}

#[test]
fn add_flags_puts_the_flag_before_the_values() {
    let mut args = strings(&["file"]);
    Cli::add_flags("--tags", (2, strings(&["a", "b"])), &mut args);
    assert_eq!(args, strings(&["file", "--tags", "a", "b"]));
}

#[test]
fn add_flags_without_values_adds_nothing() {
    let mut args = strings(&["file"]);
    Cli::add_flags("--artists", (0, strings(&[])), &mut args);
    assert_eq!(args, strings(&["file"]));
    Cli::add_flags("--artists", (0, strings(&["ignored"])), &mut args);
    assert_eq!(args, strings(&["file"]));
}

#[test]
fn add_flags_takes_no_more_values_than_counted() {
    let mut args = strings(&[]);
    Cli::add_flags("--genre", (1, strings(&["x", "y"])), &mut args);
    assert_eq!(args, strings(&["--genre", "x"]));
    Cli::add_flags("--writers", (5, strings(&["w"])), &mut args);
    assert_eq!(args, strings(&["--genre", "x", "--writers", "w"]));
}

#[test]
fn tag_writer_arguments_leave_out_empty_fields() {
    let cli = Cli {
        tags: Some(strings(&["a", "b"])),
        artists: Some(strings(&[])),
        ..Cli::default()
    };
    let command = cli.build_flags("/usr/bin/propwriter", "/tmp/x-download.mkv");
    assert_eq!(command.args, strings(&["/tmp/x-download.mkv", "--tags", "a", "b"]));
    assert!(!command.args.iter().any(|arg| arg == "--artists"));
}

#[test]
fn tag_writer_arguments_come_in_a_fixed_order() {
    let cli = Cli {
        url: "ignored".to_string(),
        output_name: "ignored.mkv".to_string(),
        speed: Some(3),
        override_output: false,
        perform_reencoding: true,
        tags: Some(strings(&["t1", "t2"])),
        artists: Some(strings(&["a"])),
        producers: Some(strings(&["p"])),
        genre: Some(strings(&["g"])),
        writers: Some(strings(&["w"])),
        title: Some("T".to_string()),
        year: Some(2001),
        season: Some(2),
        episode: Some(13),
        series_name: Some("S".to_string()),
        subtitle: Some("U".to_string()),
    };
    let expected = Invocation {
        program: "propwriter".to_string(),
        args: strings(&[
            "file.mkv",
            "--tags",
            "t1",
            "t2",
            "--artists",
            "a",
            "--producers",
            "p",
            "--genre",
            "g",
            "--writers",
            "w",
            "--title",
            "T",
            "--series-name",
            "S",
            "--subtitle",
            "U",
            "--year",
            "2001",
            "--episode",
            "13",
            "--season",
            "2",
        ]),
        current_dir: None,
    };
    assert_eq!(cli.build_flags("propwriter", "file.mkv"), expected);
}

#[test]
fn tag_writer_without_metadata_gets_the_file_alone() {
    let command = Cli::default().build_flags("propwriter", "file.mkv");
    assert_eq!(command.program, "propwriter");
    assert_eq!(command.args, strings(&["file.mkv"]));
    assert_eq!(command.current_dir, None);
}
