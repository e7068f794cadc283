//! The saved agent workspaces: listing them, choosing the active one, and
//! reporting which is active.

use vstd::prelude::*;
use crate::config::{Config, WorkspaceInfo, workspace_lookup};
use crate::output::{Output, Segment, line_view, Style};
use crate::text::{concat, str_eq};

verus! {

/// One saved workspace as listed.
#[derive(Debug)]
pub struct WorkspaceListEntry {
    pub id: String,
    pub name: String,
    pub role: String,
    pub active: bool,
}

/// What listing the workspaces shows: a status line when none are saved, or
/// one entry per saved workspace.
#[derive(Debug)]
pub enum WorkspaceListing {
    NoneSaved(Option<Vec<Segment>>),
    Entries(Vec<WorkspaceListEntry>),
}

/// Whether an entry lists a saved workspace, marked active exactly when it
/// is the active one.
pub open spec fn lists(e: WorkspaceListEntry, saved: (String, WorkspaceInfo), active: Option<String>) -> bool {
    &&& e.id@ == saved.0@
    &&& e.name@ == saved.1.name@
    &&& e.role@ == saved.1.role@
    &&& e.active == (active matches Some(a) && a@ == saved.0@)
}

/// The status shown when no workspace is saved.
pub open spec fn none_saved_line() -> Seq<(Seq<char>, Style)> {
    seq![("Workspaces"@, Style::Bold), (": "@ + "None saved. Run `saturation auth token TOKEN --workspace ID`."@, Style::Plain)]
}

/// Lists the saved workspaces in the order they were saved.
pub fn list(config: &Config, output: &Output) -> (r: WorkspaceListing)
    ensures
        config.workspaces@.len() == 0 ==> (r matches WorkspaceListing::NoneSaved(l) && (output.quiet ==> l is None)
            && (!output.quiet ==> (l matches Some(x) && line_view(x@) == none_saved_line()))),
        config.workspaces@.len() > 0 ==> (r matches WorkspaceListing::Entries(es)
            && es@.len() == config.workspaces@.len()
            && forall|i: int| 0 <= i < es@.len() ==> lists(#[trigger] es@[i], config.workspaces@[i], config.active_workspace)),
{
    if config.workspaces.len() == 0 {
        return WorkspaceListing::NoneSaved(
            output.status("Workspaces", "None saved. Run `saturation auth token TOKEN --workspace ID`."),
        );
    }
    let mut es: Vec<WorkspaceListEntry> = Vec::new();
    let mut i: usize = 0;
    while i < config.workspaces.len()
        invariant
            i <= config.workspaces@.len(),
            es@.len() == i,
            forall|k: int| 0 <= k < i ==> lists(#[trigger] es@[k], config.workspaces@[k], config.active_workspace),
        decreases config.workspaces@.len() - i,
    {
        let (id, ws) = (&config.workspaces[i].0, &config.workspaces[i].1);
        let active = match &config.active_workspace {
            Some(a) => str_eq(a.as_str(), id.as_str()),
            None => false,
        };
        es.push(WorkspaceListEntry { id: id.clone(), name: ws.name.clone(), role: ws.role.clone(), active });
        i = i + 1;
    }
    WorkspaceListing::Entries(es)
}

/// What choosing a workspace shows: a warning when it is not among the saved
/// ones, then the confirmation.
#[derive(Debug)]
pub struct UseWorkspaceLines {
    pub warning: Option<Vec<Segment>>,
    pub done: Option<Vec<Segment>>,
}

/// The warning text for a workspace that is not saved.
pub open spec fn unknown_workspace_text(id: Seq<char>) -> Seq<char> {
    "Workspace '"@ + id + "' not found in cached list. The CLI will still use it for agent commands."@
}

/// The confirmation text for the chosen workspace.
pub open spec fn chosen_text(id: Seq<char>, saved: Option<WorkspaceInfo>) -> Seq<char> {
    match saved {
        Some(w) => "Active agent workspace: "@ + w.name@ + " ("@ + id + ")"@,
        None => "Active agent workspace: "@ + id,
    }
}

/// Makes `id` the active agent workspace, saved or not (an unsaved one may
/// still be valid, so it is only warned about).
pub fn use_workspace(config: &mut Config, id: &str, output: &Output) -> (r: UseWorkspaceLines)
    ensures
        final(config).active_workspace matches Some(a) && a@ == id@,
        final(config).user == old(config).user,
        final(config).workspaces == old(config).workspaces,
        final(config).token == old(config).token,
        final(config).server == old(config).server,
        final(config).oauth == old(config).oauth,
        workspace_lookup(old(config).workspaces@, id@) is Some ==> r.warning is None,
        workspace_lookup(old(config).workspaces@, id@) is None && !output.quiet ==> (r.warning matches Some(x)
            && line_view(x@) == seq![("Warning"@, Style::Bold), (": "@ + unknown_workspace_text(id@), Style::Plain)]),
        output.quiet ==> r.warning is None && r.done is None,
        !output.quiet ==> (r.done matches Some(x) && line_view(x@) == seq![("OK"@, Style::GreenBold),
            (" "@ + chosen_text(id@, workspace_lookup(old(config).workspaces@, id@)), Style::Plain)]),
{
    let warning = match config.workspace(id) {
        Some(_) => None,
        None => {
            let a = concat("Workspace '", id);
            let text = concat(a.as_str(), "' not found in cached list. The CLI will still use it for agent commands.");
            output.status("Warning", text.as_str())
        },
    };
    config.active_workspace = Some(id.to_owned());
    let text = match config.workspace(id) {
        Some(w) => {
            let a = concat("Active agent workspace: ", w.name.as_str());
            let b = concat(a.as_str(), " (");
            let c = concat(b.as_str(), id);
            concat(c.as_str(), ")")
        },
        None => concat("Active agent workspace: ", id),
    };
    let done = output.success(text.as_str());
    UseWorkspaceLines { warning, done }
}

/// The active workspace as reported: its id, with its name and role when it
/// is saved.
#[derive(Debug)]
pub struct CurrentWorkspace {
    pub id: String,
    pub name: Option<String>,
    pub role: Option<String>,
}

/// What reporting the active workspace shows.
#[derive(Debug)]
pub enum CurrentOutcome {
    Active(CurrentWorkspace),
    NoneActive(Vec<Segment>),
}

/// Reports the active agent workspace, or an error line when there is none.
pub fn current(config: &Config, output: &Output) -> (r: CurrentOutcome)
    ensures
        config.active_workspace is None ==> (r matches CurrentOutcome::NoneActive(l) && line_view(l@) == seq![
            ("ERROR"@, Style::RedBold),
            (" "@ + "No active agent workspace. Run `saturation workspace use <id>` first."@, Style::Plain),
        ]),
        config.active_workspace matches Some(a) ==> (r matches CurrentOutcome::Active(c) && c.id@ == a@
            && match workspace_lookup(config.workspaces@, a@) {
                Some(w) => (c.name matches Some(n) && n@ == w.name@) && (c.role matches Some(ro) && ro@ == w.role@),
                None => c.name is None && c.role is None,
            }),
{
    match &config.active_workspace {
        Some(id) => match config.workspace(id.as_str()) {
            Some(w) => CurrentOutcome::Active(CurrentWorkspace {
                id: id.clone(),
                name: Some(w.name.clone()),
                role: Some(w.role.clone()),
            }),
            None => CurrentOutcome::Active(CurrentWorkspace { id: id.clone(), name: None, role: None }),
        },
        None => CurrentOutcome::NoneActive(
            output.error("No active agent workspace. Run `saturation workspace use <id>` first."),
        ),
    }
}

} // verus!
