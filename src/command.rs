//! The commands that install the backend's environment and start the backend,
//! built from the runtime root and what exists under it.
use vstd::prelude::*;
use crate::fs::{path_views, present, FsModel, FsSnapshot};
use crate::path::{joined, opt_view, render, rendered, DirPath, PathModel};
use crate::platform::{installer_name, launcher_name, separator_of, Platform};
use crate::resolve::{resolve_script, script_locations, script_path};

verus! {

/// The host the backend is told to listen on.
pub const BACKEND_HOST: &'static str = "127.0.0.1";

/// The port the backend is told to listen on.
pub const BACKEND_PORT: u16 = 7860;

/// A program to run in the runtime root, with its arguments and the
/// environment variables to set.
pub struct Invocation {
    pub program: String,
    pub args: Vec<String>,
    pub env: Vec<(String, String)>,
}

pub struct InvocationModel {
    pub program: Seq<char>,
    pub args: Seq<Seq<char>>,
    pub env: Seq<(Seq<char>, Seq<char>)>,
}

impl View for Invocation {
    type V = InvocationModel;

    open spec fn view(&self) -> InvocationModel {
        InvocationModel {
            program: self.program@,
            args: self.args@.map_values(|s: String| s@),
            env: self.env@.map_values(|e: (String, String)| (e.0@, e.1@)),
        }
    }
}

/// The program and leading arguments that run the script at `script`.
pub open spec fn script_runner(platform: Platform, script: Seq<char>) -> (Seq<char>, Seq<Seq<char>>) {
    match platform {
        Platform::MacOs => ("/bin/bash"@, seq![script]),
        Platform::Windows => ("cmd"@, seq!["/C"@, script]),
    }
}

/// The variables that pin the backend to its host and port.
pub open spec fn backend_env() -> Seq<(Seq<char>, Seq<char>)> {
    seq![("HOST"@, "127.0.0.1"@), ("PORT"@, "7860"@)]
}

/// The variable that lets the installer accept any interpreter version.
pub open spec fn installer_env() -> Seq<(Seq<char>, Seq<char>)> {
    seq![("ALLOW_ANY_PYTHON"@, "1"@)]
}

/// Runs the script at `script` with the variables `env`.
pub open spec fn script_invocation(
    platform: Platform,
    script: Seq<char>,
    env: Seq<(Seq<char>, Seq<char>)>,
) -> InvocationModel {
    InvocationModel {
        program: script_runner(platform, script).0,
        args: script_runner(platform, script).1,
        env,
    }
}

/// The interpreter whose presence marks an installed environment.
pub open spec fn marker_path(platform: Platform, root: PathModel) -> PathModel {
    let venv = joined(joined(root, "StreamDiffusion"@), "venv"@);
    match platform {
        Platform::MacOs => joined(joined(venv, "bin"@), "python"@),
        Platform::Windows => joined(joined(venv, "Scripts"@), "python.exe"@),
    }
}

/// The command that starts the backend, when its launch script is found.
pub open spec fn backend_plan(platform: Platform, fs: FsModel, root: PathModel) -> Option<
    InvocationModel,
> {
    match script_path(fs, root, launcher_name(platform)) {
        Some(s) => Some(
            script_invocation(platform, rendered(s, separator_of(platform)), backend_env()),
        ),
        None => None,
    }
}

fn script_invocation_exec(platform: Platform, script: String, env: Vec<(String, String)>) -> (r:
    Invocation)
    ensures
        r@ == script_invocation(platform, script@, env@.map_values(|e: (String, String)| (e.0@, e.1@))),
{
    let r = match platform {
        Platform::MacOs => Invocation { program: "/bin/bash".to_owned(), args: vec![script], env },
        Platform::Windows => Invocation {
            program: "cmd".to_owned(),
            args: vec!["/C".to_owned(), script],
            env,
        },
    };
    assert(r@.args =~= script_invocation(platform, script@, r@.env).args);
    r
}

fn backend_env_exec() -> (r: Vec<(String, String)>)
    ensures
        r@.map_values(|e: (String, String)| (e.0@, e.1@)) == backend_env(),
{
    let r = vec![
        ("HOST".to_owned(), BACKEND_HOST.to_owned()),
        ("PORT".to_owned(), "7860".to_owned()),
    ];
    assert(r@.map_values(|e: (String, String)| (e.0@, e.1@)) =~= backend_env());
    r
}

/// Whether the backend's environment is installed under `ia_root`.
pub fn venv_exists(platform: Platform, fs: &FsSnapshot, ia_root: &DirPath) -> (r: bool)
    ensures
        r == present(fs@, marker_path(platform, ia_root@)),
{
    let venv = ia_root.join("StreamDiffusion").join("venv");
    let marker = match platform {
        Platform::MacOs => venv.join("bin").join("python"),
        Platform::Windows => venv.join("Scripts").join("python.exe"),
    };
    fs.contains_path(&marker)
}

/// The command that starts the backend: the platform's launch script, found
/// as scripts are found, run in the runtime root with the backend's host and
/// port set. None when the launch script is nowhere to be found.
pub fn backend_command(platform: Platform, fs: &FsSnapshot, ia_root: &DirPath) -> (r: Option<
    Invocation,
>)
    ensures
        match r {
            Some(c) => backend_plan(platform, fs@, ia_root@) == Some(c@),
            None => backend_plan(platform, fs@, ia_root@) is None,
        },
{
    match resolve_script(fs, ia_root, platform.launcher_script()) {
        Some(script) => {
            let text = render(&script, platform.separator());
            Some(script_invocation_exec(platform, text, backend_env_exec()))
        },
        None => None,
    }
}

/// What has to happen before the backend can start.
pub enum BootstrapPlan {
    /// The environment is installed: nothing to run.
    Installed,
    /// The environment is missing and so is the installer.
    InstallerMissing,
    /// Run `prepare`, if any, ignoring its outcome, then `install`.
    Install { prepare: Option<Invocation>, install: Invocation },
}

pub enum BootstrapModel {
    Installed,
    InstallerMissing,
    Install { prepare: Option<InvocationModel>, install: InvocationModel },
}

impl View for BootstrapPlan {
    type V = BootstrapModel;

    open spec fn view(&self) -> BootstrapModel {
        match self {
            BootstrapPlan::Installed => BootstrapModel::Installed,
            BootstrapPlan::InstallerMissing => BootstrapModel::InstallerMissing,
            BootstrapPlan::Install { prepare, install } => BootstrapModel::Install {
                prepare: match prepare {
                    Some(p) => Some(p@),
                    None => None,
                },
                install: install@,
            },
        }
    }
}

/// Marks the installer script executable where the platform needs it.
pub open spec fn prepare_step(platform: Platform, script: Seq<char>) -> Option<InvocationModel> {
    match platform {
        Platform::MacOs => Some(
            InvocationModel { program: "/bin/chmod"@, args: seq!["+x"@, script], env: seq![] },
        ),
        Platform::Windows => None,
    }
}

/// The bootstrap decision: nothing when the environment marker exists; else
/// the installer found as scripts are found, or the report that it is missing.
pub open spec fn bootstrap_model(platform: Platform, fs: FsModel, root: PathModel) -> BootstrapModel {
    if present(fs, marker_path(platform, root)) {
        BootstrapModel::Installed
    } else {
        match script_path(fs, root, installer_name(platform)) {
            Some(s) => {
                let text = rendered(s, separator_of(platform));
                BootstrapModel::Install {
                    prepare: prepare_step(platform, text),
                    install: script_invocation(platform, text, installer_env()),
                }
            },
            None => BootstrapModel::InstallerMissing,
        }
    }
}

/// Whether the environment is ready once the plan has been carried out;
/// `status` is the installer's outcome: None when it could not be launched,
/// else whether it exited with success.
pub open spec fn bootstrap_outcome(plan: BootstrapModel, status: Option<bool>) -> bool {
    match plan {
        BootstrapModel::Installed => true,
        BootstrapModel::InstallerMissing => false,
        BootstrapModel::Install { .. } => status == Some(true),
    }
}

/// Decides how to make the backend's environment present under `ia_root`.
pub fn bootstrap_plan(platform: Platform, fs: &FsSnapshot, ia_root: &DirPath) -> (r: BootstrapPlan)
    ensures
        r@ == bootstrap_model(platform, fs@, ia_root@),
{
    if venv_exists(platform, fs, ia_root) {
        return BootstrapPlan::Installed;
    }
    match resolve_script(fs, ia_root, platform.installer_script()) {
        Some(script) => {
            let text = render(&script, platform.separator());
            let prepare = match platform {
                Platform::MacOs => {
                    let p = Invocation {
                        program: "/bin/chmod".to_owned(),
                        args: vec!["+x".to_owned(), text.clone()],
                        env: Vec::new(),
                    };
                    assert(p@.args =~= seq!["+x"@, text@]);
                    assert(p@.env =~= seq![]);
                    Some(p)
                },
                Platform::Windows => None,
            };
            let env = vec![("ALLOW_ANY_PYTHON".to_owned(), "1".to_owned())];
            assert(env@.map_values(|e: (String, String)| (e.0@, e.1@)) =~= installer_env());
            let install = script_invocation_exec(platform, text, env);
            BootstrapPlan::Install { prepare, install }
        },
        None => BootstrapPlan::InstallerMissing,
    }
}

/// Whether the environment is ready after carrying out `plan`, given the
/// installer's outcome (None when it could not be launched).
pub fn ensure_environment(plan: &BootstrapPlan, status: Option<bool>) -> (r: bool)
    ensures
        r == bootstrap_outcome(plan@, status),
{
    match plan {
        BootstrapPlan::Installed => true,
        BootstrapPlan::InstallerMissing => false,
        BootstrapPlan::Install { .. } => match status {
            Some(ok) => ok,
            None => false,
        },
    }
}

/// The paths whose presence decides the bootstrap plan and the backend
/// command for `root`.
pub open spec fn root_queries_model(platform: Platform, root: PathModel) -> Seq<PathModel> {
    seq![marker_path(platform, root)] + script_locations(root, installer_name(platform))
        + script_locations(root, launcher_name(platform))
}

/// Every path whose presence `bootstrap_plan` and `backend_command` read.
pub fn root_queries(platform: Platform, ia_root: &DirPath) -> (r: Vec<DirPath>)
    ensures
        path_views(r@) == root_queries_model(platform, ia_root@),
{
    let venv = ia_root.join("StreamDiffusion").join("venv");
    let marker = match platform {
        Platform::MacOs => venv.join("bin").join("python"),
        Platform::Windows => venv.join("Scripts").join("python.exe"),
    };
    let installer = platform.installer_script();
    let launcher = platform.launcher_script();
    let r = vec![
        marker,
        ia_root.join(installer),
        ia_root.join("resources").join(installer),
        ia_root.join("scripts").join(installer),
        ia_root.join(launcher),
        ia_root.join("resources").join(launcher),
        ia_root.join("scripts").join(launcher),
    ];
    assert(path_views(r@) =~= root_queries_model(platform, ia_root@));
    r
}

/// With the environment marker present the installer is never run and the
/// environment counts as ready. Without it the plan runs the installer once,
/// when it is found, and the environment is ready exactly when that run
/// succeeded.
pub proof fn lemma_installer_runs_only_when_needed(
    platform: Platform,
    fs: FsModel,
    root: PathModel,
    status: Option<bool>,
)
    ensures
        present(fs, marker_path(platform, root)) ==> bootstrap_model(platform, fs, root)
            == BootstrapModel::Installed && bootstrap_outcome(
            bootstrap_model(platform, fs, root),
            status,
        ),
        !present(fs, marker_path(platform, root)) ==> !(bootstrap_model(
            platform,
            fs,
            root,
        ) is Installed) && bootstrap_outcome(bootstrap_model(platform, fs, root), status) == (
        bootstrap_model(platform, fs, root) is Install && status == Some(true)),
{
}

} // verus!
