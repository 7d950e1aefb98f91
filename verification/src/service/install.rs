//! The order in which a login service is installed and removed.
//!
//! Installing renders and checks before it writes, and calls the service
//! manager only once the definition is in place. Removing goes on past a
//! service that is not loaded and a definition that is not there.
use vstd::prelude::*;

verus! {

/// Which service manager is used.
#[derive(Clone, Copy, Debug, PartialEq, Eq, Structural)]
pub enum Platform {
    Launchd,
    Systemd,
}

/// What is to be done next to install the service.
#[derive(Clone, Copy, Debug, PartialEq, Eq, Structural)]
pub enum InstallStep {
    /// Create the directory that output is logged to.
    CreateLogDir,
    /// Fill in the definition.
    Render,
    /// Look whether a definition is in the way.
    Inspect,
    /// Create the definition's directory.
    CreateDir,
    /// Write the definition.
    Write,
    /// Find the user's launchd domain.
    FindDomain,
    /// Unload an earlier agent, if one is loaded.
    Unload,
    /// Load the agent.
    Load,
    /// Make systemd read its units again.
    Reload,
    /// Enable the unit and start it.
    Enable,
    Done,
    Failed,
}

/// The first step of installing, on every platform: a place for the output.
pub open spec fn install_start() -> InstallStep {
    InstallStep::CreateLogDir
}

/// The step after a step that went well, or did not.
pub open spec fn install_after(platform: Platform, step: InstallStep, ok: bool) -> InstallStep {
    if step == InstallStep::Unload {
        InstallStep::Load
    } else if step == InstallStep::Done {
        InstallStep::Done
    } else if !ok {
        InstallStep::Failed
    } else {
        match step {
            InstallStep::CreateLogDir => InstallStep::Render,
            InstallStep::Render => InstallStep::Inspect,
            InstallStep::Inspect => InstallStep::CreateDir,
            InstallStep::CreateDir => InstallStep::Write,
            InstallStep::Write => match platform {
                Platform::Launchd => InstallStep::FindDomain,
                Platform::Systemd => InstallStep::Reload,
            },
            InstallStep::FindDomain => InstallStep::Unload,
            InstallStep::Load => InstallStep::Done,
            InstallStep::Reload => InstallStep::Enable,
            InstallStep::Enable => InstallStep::Done,
            InstallStep::Unload => InstallStep::Load,
            InstallStep::Done => InstallStep::Done,
            InstallStep::Failed => InstallStep::Failed,
        }
    }
}

impl InstallStep {
    /// The first step.
    pub fn first() -> (step: InstallStep)
        ensures
            step == install_start(),
    {
        InstallStep::CreateLogDir
    }

    /// The next step.
    pub fn next(self, platform: Platform, ok: bool) -> (step: InstallStep)
        ensures
            step == install_after(platform, self, ok),
    {
        match self {
            InstallStep::Unload => {
                return InstallStep::Load;
            },
            InstallStep::Done => {
                return InstallStep::Done;
            },
            _ => {},
        }
        if !ok {
            return InstallStep::Failed;
        }
        match self {
            InstallStep::CreateLogDir => InstallStep::Render,
            InstallStep::Render => InstallStep::Inspect,
            InstallStep::Inspect => InstallStep::CreateDir,
            InstallStep::CreateDir => InstallStep::Write,
            InstallStep::Write => match platform {
                Platform::Launchd => InstallStep::FindDomain,
                Platform::Systemd => InstallStep::Reload,
            },
            InstallStep::FindDomain => InstallStep::Unload,
            InstallStep::Load => InstallStep::Done,
            InstallStep::Reload => InstallStep::Enable,
            InstallStep::Enable => InstallStep::Done,
            InstallStep::Unload => InstallStep::Load,
            InstallStep::Done => InstallStep::Done,
            InstallStep::Failed => InstallStep::Failed,
        }
    }
}

/// What is to be done next to remove the service.
#[derive(Clone, Copy, Debug, PartialEq, Eq, Structural)]
pub enum UninstallStep {
    /// Find the user's launchd domain.
    FindDomain,
    /// Stop the service, if it runs.
    Stop,
    /// Remove the definition, if it is there.
    Remove,
    /// Make systemd read its units again.
    Reload,
    Done,
    Failed,
}

/// The first step of removing.
pub open spec fn uninstall_start(platform: Platform) -> UninstallStep {
    match platform {
        Platform::Launchd => UninstallStep::FindDomain,
        Platform::Systemd => UninstallStep::Stop,
    }
}

/// The step after a step that went well, or did not. Stopping and reloading
/// may fail.
pub open spec fn uninstall_after(platform: Platform, step: UninstallStep, ok: bool) -> UninstallStep {
    match step {
        UninstallStep::FindDomain => if ok {
            UninstallStep::Stop
        } else {
            UninstallStep::Failed
        },
        UninstallStep::Stop => UninstallStep::Remove,
        UninstallStep::Remove => if !ok {
            UninstallStep::Failed
        } else {
            match platform {
                Platform::Launchd => UninstallStep::Done,
                Platform::Systemd => UninstallStep::Reload,
            }
        },
        UninstallStep::Reload => UninstallStep::Done,
        UninstallStep::Done => UninstallStep::Done,
        UninstallStep::Failed => UninstallStep::Failed,
    }
}

impl UninstallStep {
    /// The first step.
    pub fn first(platform: Platform) -> (step: UninstallStep)
        ensures
            step == uninstall_start(platform),
    {
        match platform {
            Platform::Launchd => UninstallStep::FindDomain,
            Platform::Systemd => UninstallStep::Stop,
        }
    }

    /// The next step.
    pub fn next(self, platform: Platform, ok: bool) -> (step: UninstallStep)
        ensures
            step == uninstall_after(platform, self, ok),
    {
        match self {
            UninstallStep::FindDomain => if ok {
                UninstallStep::Stop
            } else {
                UninstallStep::Failed
            },
            UninstallStep::Stop => UninstallStep::Remove,
            UninstallStep::Remove => if !ok {
                UninstallStep::Failed
            } else {
                match platform {
                    Platform::Launchd => UninstallStep::Done,
                    Platform::Systemd => UninstallStep::Reload,
                }
            },
            UninstallStep::Reload => UninstallStep::Done,
            UninstallStep::Done => UninstallStep::Done,
            UninstallStep::Failed => UninstallStep::Failed,
        }
    }
}

// ---------------------------------------------------------------- laws
/// Nothing is written before the definition was rendered without leftovers
/// and found not to be in the way.
pub proof fn law_checks_precede_the_write(platform: Platform, step: InstallStep, ok: bool)
    ensures
        install_after(platform, step, ok) == InstallStep::Write ==> step == InstallStep::CreateDir
            && ok,
        install_after(platform, step, ok) == InstallStep::CreateDir ==> step
            == InstallStep::Inspect && ok,
        install_after(platform, step, ok) == InstallStep::Inspect ==> step == InstallStep::Render
            && ok,
{
}

/// A service that is not loaded never keeps its definition from being
/// removed.
pub proof fn law_removal_goes_on_past_a_stopped_service(platform: Platform, ok: bool)
    ensures
        uninstall_after(platform, UninstallStep::Stop, ok) == UninstallStep::Remove,
{
}

} // verus!
