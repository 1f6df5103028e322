use reverb::command_spec::{CallOutcome, CommandCallType, CommandSpec};
use reverb::cli::{cli_command_tree, CliHandler};

fn tree() -> CommandSpec<u8> {
    CommandSpec::new()
        .add("play", vec!["play"], " : Play the current song", Some(1), CommandCallType::NoArgs, None)
        .add("queue", vec!["queue", "q"], " : List the queue", Some(2), CommandCallType::NoArgs, None)
        .add("queue add", vec!["add", "a"], " <song> : Add", Some(3), CommandCallType::Args, Some("queue"))
        .add("help", vec!["help", "h"], " : Help", Some(4), CommandCallType::NoArgs, None)
        .add("server", vec!["server"], " : Server", None, CommandCallType::NotCallable, None)
}

fn lines(v: &[&str]) -> Vec<String> {
    v.iter().map(|s| s.to_string()).collect()
}

const MORE: &str = " <args> | help (for more information on this command and its subcommands)";

#[test]
fn help_one_level_deep() {
    let t = tree();
    assert_eq!(
        t.print_help(1),
        lines(&[
            " REVERB commands:",
            "   play : Play the current song",
            "   queue | q : List the queue",
            &format!("   queue | q{}", MORE),
            "   help | h : Help",
            "   server : Server",
        ])
    );
    assert_eq!(t.print_help(0), lines(&[" REVERB commands:", &format!(" {}", MORE)]));
}

#[test]
fn empty_tree_help() {
    let t: CommandSpec<u8> = CommandSpec::new();
    assert_eq!(t.print_help(0), lines(&[" REVERB commands:"]));
    assert_eq!(t.print_help(2), lines(&[" REVERB commands:"]));
}

#[test]
fn commands_run_with_their_arguments() {
    let t = tree();
    match t.call("play") {
        CallOutcome::Run(h, args) => {
            assert_eq!(h, 1);
            assert_eq!(args, "");
        }
        other => panic!("{:?}", other),
    }
    match t.call("q add local  two spaces.mp3") {
        CallOutcome::Run(h, args) => {
            assert_eq!(h, 3);
            assert_eq!(args, "local  two spaces.mp3");
        }
        other => panic!("{:?}", other),
    }
    match t.call("queue") {
        CallOutcome::Run(h, args) => {
            assert_eq!(h, 2);
            assert_eq!(args, "");
        }
        other => panic!("{:?}", other),
    }
}

#[test]
fn help_word_answers_with_the_tree() {
    let t = tree();
    let expected = t.print_help(1);
    match t.call("h") {
        CallOutcome::Help(l) => assert_eq!(l, expected),
        other => panic!("{:?}", other),
    }
    match t.call("help me please") {
        CallOutcome::Help(l) => assert_eq!(l, expected),
        other => panic!("{:?}", other),
    }
}

#[test]
fn commands_without_arguments_refuse_them() {
    let t = tree();
    match t.call("play now") {
        CallOutcome::Refused(note, l) => {
            assert_eq!(note.as_deref(), Some("Command does not take arguments"));
            assert_eq!(l, lines(&[" play : Play the current song"]));
        }
        other => panic!("{:?}", other),
    }
}

#[test]
fn commands_with_arguments_require_them() {
    let t = tree();
    match t.call("q add") {
        CallOutcome::Refused(note, l) => {
            assert_eq!(note.as_deref(), Some("Command requires arguments"));
            assert_eq!(l, lines(&["q add | a <song> : Add"]));
        }
        other => panic!("{:?}", other),
    }
}

#[test]
fn unknown_words_show_the_help_three_levels_deep() {
    let t = tree();
    match t.call("dance") {
        CallOutcome::Refused(None, l) => assert_eq!(
            l,
            lines(&[
                " REVERB commands:",
                "   play : Play the current song",
                "   queue | q : List the queue",
                "   queue  add | a <song> : Add",
                "   help | h : Help",
                "   server : Server",
            ])
        ),
        other => panic!("{:?}", other),
    }
    match t.call("server x") {
        CallOutcome::Refused(None, l) => assert_eq!(l, lines(&[" server : Server"])),
        other => panic!("{:?}", other),
    }
}

#[test]
fn first_matching_sibling_wins() {
    let t: CommandSpec<u8> = CommandSpec::new()
        .add("one", vec!["x"], " : first", Some(1), CommandCallType::Args, None)
        .add("two", vec!["x"], " : second", Some(2), CommandCallType::Args, None);
    match t.call("x y") {
        CallOutcome::Run(h, args) => {
            assert_eq!(h, 1);
            assert_eq!(args, "y");
        }
        other => panic!("{:?}", other),
    }
}

#[test]
fn empty_names_past_the_end_are_not_read() {
    let t: CommandSpec<u8> = CommandSpec::new()
        .add("e", vec![""], " : empty", Some(1), CommandCallType::Args, None)
        .add("f", vec![""], " : deeper", Some(2), CommandCallType::Args, Some("e"));
    assert!(t.try_call("").is_none());
    match t.try_call("x") {
        Some(CallOutcome::Refused(None, _)) => {}
        other => panic!("{:?}", other),
    }
    let plain = tree();
    match plain.try_call("q add x") {
        Some(CallOutcome::Run(3, args)) => assert_eq!(args, "x"),
        other => panic!("{:?}", other),
    }
}

#[test]
fn the_command_table_of_the_text_interface() {
    let t = cli_command_tree();
    let run = |input: &str| match t.call(input) {
        CallOutcome::Run(h, args) => (h, args),
        other => panic!("{:?}", other),
    };
    assert_eq!(run("play"), (CliHandler::Play, String::new()));
    assert_eq!(run("pause"), (CliHandler::Pause, String::new()));
    assert_eq!(run("p"), (CliHandler::PlayPause, String::new()));
    assert_eq!(run("playlist"), (CliHandler::Playlist, String::new()));
    assert_eq!(run("queue add local song.mp3"), (CliHandler::QueueAdd, "local song.mp3".to_string()));
    assert_eq!(run("q p"), (CliHandler::QueueCurrentPlaylist, String::new()));
    assert_eq!(run("q s"), (CliHandler::QueueShuffle, String::new()));
    assert_eq!(run("pl rn mix"), (CliHandler::PlaylistRename, "mix".to_string()));
    assert_eq!(run("server snd hello"), (CliHandler::ServerNotify, "hello".to_string()));
    assert_eq!(run("play new local a.mp3"), (CliHandler::PlayNew, "local a.mp3".to_string()));
    let help = t.print_help(1);
    assert_eq!(help[0], " REVERB commands:");
    assert_eq!(help[1], "   play : Play the current song");
    assert!(help.contains(&"   quit | exit | :q | x : Quit the application".to_string()));
    assert!(matches!(t.call("server"), CallOutcome::Refused(_, _)));
}
