use clap_complete::Shell;
use mk::{
    already_exists_message, check_new_file, creating_message, digit_text,
    filename_conflict_message, flag_list_text, handle_argument_conflict,
    missing_filename_message, plan_action, too_many_flags_message, Action, Cli, ErrorKind,
    RenderFlag,
};

fn cli(filename: Option<&str>, completion: Option<Shell>, markdown: bool, man: bool) -> Cli {
    Cli {
        filename: filename.map(|s| s.to_string()),
        generate_completions: completion,
        generate_markdown_page: markdown,
        generate_man_page: man,
    }
}

const FILENAME_CONFLICT: &str = "positional argument [FILENAME] cannot be used in combination with one of: `--completion` / `--markdown` / `--man`";

#[test]
fn filename_with_any_render_flag_is_a_conflict() {
    let cases = [
        cli(Some("a.txt"), Some(Shell::Bash), false, false),
        cli(Some("a.txt"), None, true, false),
        cli(Some("a.txt"), None, false, true),
        cli(Some("a.txt"), Some(Shell::Zsh), true, true),
    ];
    for c in cases.iter() {
        let e = plan_action(c).unwrap_err();
        assert_eq!(e.kind, ErrorKind::ArgumentConflict);
        assert_eq!(e.message, FILENAME_CONFLICT);
        assert_eq!(handle_argument_conflict(c).unwrap_err().message, FILENAME_CONFLICT);
    }
}

#[test]
fn filename_with_two_flags_reports_the_filename_conflict() {
    let e = plan_action(&cli(Some("a.txt"), None, true, true)).unwrap_err();
    assert_eq!(e.kind, ErrorKind::ArgumentConflict);
    assert_eq!(e.message, FILENAME_CONFLICT);
}

#[test]
fn two_render_flags_are_named() {
    let e = plan_action(&cli(None, None, true, true)).unwrap_err();
    assert_eq!(e.kind, ErrorKind::ArgumentConflict);
    assert_eq!(e.message, "cannot render more than 1 option, found 2: `--markdown`, `--man`");
    let e = plan_action(&cli(None, Some(Shell::Fish), false, true)).unwrap_err();
    assert_eq!(e.message, "cannot render more than 1 option, found 2: `--completion`, `--man`");
    let e = plan_action(&cli(None, Some(Shell::Elvish), true, false)).unwrap_err();
    assert_eq!(e.message, "cannot render more than 1 option, found 2: `--completion`, `--markdown`");
}

#[test]
fn three_render_flags_are_named() {
    let e = plan_action(&cli(None, Some(Shell::PowerShell), true, true)).unwrap_err();
    assert_eq!(e.kind, ErrorKind::ArgumentConflict);
    assert_eq!(
        e.message,
        "cannot render more than 1 option, found 3: `--completion`, `--markdown`, `--man`"
    );
}

#[test]
fn nothing_requested_is_a_missing_argument() {
    let e = plan_action(&cli(None, None, false, false)).unwrap_err();
    assert_eq!(e.kind, ErrorKind::MissingRequiredArgument);
    assert_eq!(e.message, "missing positional argument [FILENAME]");
    let e = handle_argument_conflict(&cli(None, None, false, false)).unwrap_err();
    assert_eq!(e.kind, ErrorKind::MissingRequiredArgument);
}

#[test]
fn filename_alone_creates_the_file() {
    let c = cli(Some("notes.txt"), None, false, false);
    assert!(handle_argument_conflict(&c).is_ok());
    assert_eq!(plan_action(&c).unwrap(), Action::CreateFile("notes.txt".to_string()));
}

#[test]
fn new_file_is_announced() {
    assert_eq!(check_new_file("notes.txt", false).unwrap(), "Creating: \"notes.txt\"");
    assert_eq!(check_new_file("", false).unwrap(), "Creating: \"\"");
}

#[test]
fn existing_file_is_refused() {
    let e = check_new_file("notes.txt", true).unwrap_err();
    assert_eq!(e.kind, ErrorKind::Io);
    assert_eq!(e.message, "file already exists: \"notes.txt\"");
}

#[test]
fn one_render_flag_renders() {
    assert_eq!(
        plan_action(&cli(None, Some(Shell::Bash), false, false)).unwrap(),
        Action::Completions(Shell::Bash)
    );
    assert_eq!(plan_action(&cli(None, None, true, false)).unwrap(), Action::Markdown);
    assert_eq!(plan_action(&cli(None, None, false, true)).unwrap(), Action::Man);
    assert!(handle_argument_conflict(&cli(None, None, false, true)).is_ok());
}

#[test]
fn scenario_notes_txt_is_created() {
    let c = cli(Some("notes.txt"), None, false, false);
    match plan_action(&c).unwrap() {
        Action::CreateFile(name) => {
            assert_eq!(name, "notes.txt");
            let line = check_new_file(&name, false).unwrap();
            assert!(line.contains("Creating: \"notes.txt\""));
        }
        other => panic!("unexpected action {:?}", other),
    }
}

#[test]
fn scenario_notes_txt_with_man_is_refused() {
    let e = plan_action(&cli(Some("notes.txt"), None, false, true)).unwrap_err();
    assert_eq!(e.kind, ErrorKind::ArgumentConflict);
    assert!(e.message.contains("[FILENAME]"));
    assert!(e.message.contains("--man"));
}

#[test]
fn flag_names_and_order() {
    assert_eq!(RenderFlag::Completion.name(), "completion");
    assert_eq!(RenderFlag::Markdown.name(), "markdown");
    assert_eq!(RenderFlag::Man.name(), "man");
    assert_eq!(cli(None, Some(Shell::Zsh), false, true).render_flags(), vec![RenderFlag::Completion, RenderFlag::Man]);
    assert!(cli(Some("x"), None, false, false).render_flags().is_empty());
}

#[test]
fn flag_lists() {
    assert_eq!(flag_list_text(&vec![]), "");
    assert_eq!(flag_list_text(&vec![RenderFlag::Man]), "`--man`");
    assert_eq!(
        flag_list_text(&vec![RenderFlag::Markdown, RenderFlag::Completion]),
        "`--markdown`, `--completion`"
    );
}

#[test]
fn messages() {
    assert_eq!(digit_text(0), "0");
    assert_eq!(digit_text(7), "7");
    assert_eq!(digit_text(9), "9");
    assert_eq!(filename_conflict_message(), FILENAME_CONFLICT);
    assert_eq!(missing_filename_message(), "missing positional argument [FILENAME]");
    assert_eq!(
        too_many_flags_message(&vec![RenderFlag::Man, RenderFlag::Markdown]),
        "cannot render more than 1 option, found 2: `--man`, `--markdown`"
    );
    assert_eq!(creating_message("a b"), "Creating: \"a b\"");
    assert_eq!(already_exists_message("dir/x"), "file already exists: \"dir/x\"");
}
