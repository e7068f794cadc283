use saturation::cli::OutputFormat;
use saturation::config::{Config, WorkspaceInfo};
use saturation::output::{Output, Segment};
use saturation::workspace::{current, list, use_workspace, CurrentOutcome, WorkspaceListing};

fn text(line: &[Segment]) -> String {
    line.iter().map(|s| s.text.clone()).collect()
}

fn saved() -> Config {
    let mut config = Config { active_workspace: Some("ws-2".into()), ..Config::default() };
    config.insert_workspace("ws-1".into(), WorkspaceInfo { name: "One".into(), role: "admin".into() });
    config.insert_workspace("ws-2".into(), WorkspaceInfo { name: "Two".into(), role: "viewer".into() });
    config
}

#[test]
fn listing_marks_the_active_workspace() {
    let out = Output::new(OutputFormat::Json, false);
    match list(&saved(), &out) {
        WorkspaceListing::Entries(es) => {
            assert_eq!(es.len(), 2);
            assert_eq!((es[0].id.as_str(), es[0].name.as_str(), es[0].role.as_str(), es[0].active), ("ws-1", "One", "admin", false));
            assert_eq!((es[1].id.as_str(), es[1].active), ("ws-2", true));
        }
        _ => panic!("expected entries"),
    }
    match list(&Config::default(), &out) {
        WorkspaceListing::NoneSaved(Some(l)) => {
            assert_eq!(text(&l), "Workspaces: None saved. Run `saturation auth token TOKEN --workspace ID`.");
        }
        _ => panic!("expected the none-saved status"),
    }
}

#[test]
fn choosing_a_workspace_then_reporting_it() {
    let out = Output::new(OutputFormat::Json, false);
    let mut config = saved();
    let lines = use_workspace(&mut config, "ws-1", &out);
    assert!(lines.warning.is_none());
    assert_eq!(text(&lines.done.unwrap()), "OK Active agent workspace: One (ws-1)");
    match current(&config, &out) {
        CurrentOutcome::Active(c) => {
            assert_eq!(c.id, "ws-1");
            assert_eq!(c.name.as_deref(), Some("One"));
            assert_eq!(c.role.as_deref(), Some("admin"));
        }
        _ => panic!("expected an active workspace"),
    }

    let lines = use_workspace(&mut config, "ws-new", &out);
    assert_eq!(
        text(&lines.warning.unwrap()),
        "Warning: Workspace 'ws-new' not found in cached list. The CLI will still use it for agent commands."
    );
    assert_eq!(text(&lines.done.unwrap()), "OK Active agent workspace: ws-new");
    match current(&config, &out) {
        CurrentOutcome::Active(c) => {
            assert_eq!(c.id, "ws-new");
            assert!(c.name.is_none() && c.role.is_none());
        }
        _ => panic!("expected an active workspace"),
    }
}

#[test]
fn no_active_workspace_is_an_error_line() {
    let out = Output::new(OutputFormat::Json, true);
    match current(&Config::default(), &out) {
        CurrentOutcome::NoneActive(l) => {
            assert_eq!(text(&l), "ERROR No active agent workspace. Run `saturation workspace use <id>` first.");
        }
        _ => panic!("expected the error line"),
    }
}
