use scribe::cli::inbox::{build_action, parse_choice, ProcessChoice};
use scribe::cli::note::{run as note_run, NoteCommand, NoteCreate, NoteOutcome, NoteSubcommand};
use scribe::cli::project::{run as project_run, OutputFormat, ProjectAdd, ProjectCommand, ProjectOutcome, ProjectSubcommand};
use scribe::cli::report::date_range_label;
use scribe::cli::setup::{parse_yes_no, run as setup_run, SetupArgs, SetupStep};
use scribe::cli::sync::{check_sync_enabled, parse_provider_choice, parse_provider_str};
use scribe::config::{Config, SyncProvider};
use scribe::ops::{NotesOps, ProcessAction, ProjectOps};
use scribe::store::Store;

#[test]
fn inbox_choices_read() {
    assert_eq!(parse_choice(" 2 ").unwrap(), ProcessChoice::Todo);
    assert_eq!(parse_choice("9").unwrap_err().to_string(), "invalid choice '9'");
    match build_action(ProcessChoice::Task, "p".to_owned(), String::new()) {
        ProcessAction::ConvertToTask { project_slug, title, priority } => {
            assert_eq!(project_slug, "p");
            assert!(title.is_none());
            assert!(priority.is_none());
        }
        other => panic!("unexpected {other:?}"),
    }
}

#[test]
fn setup_decides_status_or_wizard() {
    let mut cfg = Config::default();
    assert_eq!(setup_run(&SetupArgs { wizard: false, status: false }, &cfg), SetupStep::RunWizard);
    cfg.setup.agent_installed = true;
    assert_eq!(setup_run(&SetupArgs { wizard: false, status: false }, &cfg), SetupStep::ShowStatus);
    assert_eq!(setup_run(&SetupArgs { wizard: true, status: false }, &cfg), SetupStep::RunWizard);
    assert!(parse_yes_no(" YES ", false));
    assert!(!parse_yes_no("n", true));
    assert!(parse_yes_no("", true));
}

#[test]
fn sync_providers_read() {
    assert_eq!(parse_provider_str("S3").unwrap(), SyncProvider::S3);
    assert_eq!(parse_provider_choice("7").unwrap(), SyncProvider::File);
    assert!(parse_provider_str("ftp").unwrap_err().to_string().starts_with("unknown provider 'ftp'"));
    assert!(check_sync_enabled(true).is_ok());
    assert!(check_sync_enabled(false).is_err());
    assert_eq!(SyncProvider::ICloud.name(), "icloud");
}

#[test]
fn report_labels() {
    assert_eq!(date_range_label(true, false), "today");
    assert_eq!(date_range_label(false, true), "this week");
    assert_eq!(date_range_label(false, false), "all time");
}

#[test]
fn project_add_command_creates() {
    let mut store = Store::new(0);
    let cmd = ProjectCommand {
        subcommand: ProjectSubcommand::Add(ProjectAdd {
            slug: "home".to_owned(),
            name: "Home".to_owned(),
            desc: Some("chores".to_owned()),
            output: OutputFormat::Text,
        }),
    };
    match project_run(&cmd, &ProjectOps::new(), &mut store).expect("add") {
        ProjectOutcome::Project(p) => {
            assert_eq!(p.slug, "home");
            assert_eq!(p.description.as_deref(), Some("chores"));
        }
        other => panic!("unexpected {other:?}"),
    }
    assert!(project_run(&cmd, &ProjectOps::new(), &mut store).is_err());
}

#[test]
fn note_create_command_links() {
    let mut store = Store::new(0);
    let cmd = NoteCommand {
        subcommand: NoteSubcommand::Create(NoteCreate {
            title: "Weekly Plan".to_owned(),
            content: Some("see [[goals]]".to_owned()),
            output: OutputFormat::Text,
        }),
    };
    match note_run(&cmd, &NotesOps::new(), &mut store).expect("create") {
        NoteOutcome::Note(n) => assert_eq!(n.slug, "weekly-plan"),
        other => panic!("unexpected {other:?}"),
    }
    assert_eq!(store.links.len(), 1);
    assert_eq!(store.links[0].target_slug, "goals");
}
