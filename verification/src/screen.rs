//! The views of the terminal.

use vstd::prelude::*;

verus! {

#[derive(Debug, Clone, Copy, PartialEq, Eq, Structural)]
pub enum View {
    ProjectList,
    TaskList,
    Preview,
    DeleteConfirm,
    NewTaskWizard,
    DirectoryPicker,
    SessionPicker,
    Notifications,
    Notes,
    ShowPrs,
    Settings,
    Archive,
    ProjectWizard,
    ProjectPicker,
    ProjectDeleteConfirm,
    AgentWizard,
    RespawnConfirm,
}

} // verus!
