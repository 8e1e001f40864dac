//! Registration of the daemon for automatic start: which descriptor file
//! the host's service manager reads, what it holds, and the steps that
//! enable and disable it.
//!
//! Autostart is enabled exactly when the descriptor file exists; there is
//! no other flag. The functions here decide; the caller probes the host,
//! carries out the steps they return, and reports what it found.

use crate::text::{occurs_at, opt_text, trim_text, trimmed};
use crate::update::Launch;
use vstd::prelude::*;

verus! {

/// The kind of operating system.
#[derive(Debug, Clone, Copy, PartialEq, Eq, Structural)]
pub enum OsFamily {
    MacOs,
    Linux,
    Other,
}

/// The mechanism that starts the daemon automatically.
#[derive(Debug, Clone, Copy, PartialEq, Eq, Structural)]
pub enum Platform {
    MacServiceAgent,
    LinuxSystemdUser,
    LinuxDesktopAutostart,
    Unsupported,
}

/// Why a registration could not be planned.
#[derive(Debug, Clone, Copy, PartialEq, Eq, Structural)]
pub enum AutostartError {
    /// The host has no known mechanism, or no directory to register in.
    Unsupported,
    /// The daemon's executable was not found.
    NotFound,
}

/// What was learnt of the host. It is gathered anew for every operation.
#[derive(Debug, Clone)]
pub struct Host {
    pub os: OsFamily,
    /// Whether the user's systemd instance answered a version probe.
    pub systemd_available: bool,
    pub home_dir: Option<String>,
    pub config_dir: Option<String>,
}

/// A descriptor to register: where it goes and what it holds.
#[derive(Debug, Clone, PartialEq, Eq)]
pub struct AutostartTarget {
    pub platform: Platform,
    pub descriptor_dir: String,
    pub descriptor_path: String,
    pub descriptor_content: String,
}

/// One step of a registration, for the caller to carry out.
#[derive(Debug, Clone, PartialEq, Eq)]
pub enum Step {
    /// Create the directory and its parents where they are missing.
    CreateDirs(String),
    /// Write the file, replacing one that exists.
    WriteFile { path: String, content: String },
    /// Remove the file.
    RemoveFile(String),
    /// Ask the user's systemd instance to reload; a failure is ignored.
    ReloadManager,
}

/// A step, with its texts as sequences of characters.
pub ghost enum StepModel {
    CreateDirs(Seq<char>),
    WriteFile { path: Seq<char>, content: Seq<char> },
    RemoveFile(Seq<char>),
    ReloadManager,
}

impl View for Step {
    type V = StepModel;

    open spec fn view(&self) -> StepModel {
        match self {
            Step::CreateDirs(dir) => StepModel::CreateDirs(dir@),
            Step::WriteFile { path, content } => StepModel::WriteFile {
                path: path@,
                content: content@,
            },
            Step::RemoveFile(path) => StepModel::RemoveFile(path@),
            Step::ReloadManager => StepModel::ReloadManager,
        }
    }
}

/// The models of a sequence of steps.
pub open spec fn step_models(steps: Seq<Step>) -> Seq<StepModel> {
    steps.map_values(|s: Step| s@)
}

/// The files of a host: the content of each file, by its path.
pub type Files = Map<Seq<char>, Seq<char>>;

pub const AGENT_FILE: &'static str = "me.ricardodantas.hazelnutd.plist";

pub const UNIT_FILE: &'static str = "hazelnutd.service";

pub const DESKTOP_FILE: &'static str = "hazelnutd.desktop";

pub const AGENT_HEAD: &'static str =
    "<?xml version=\"1.0\" encoding=\"UTF-8\"?>\n<!DOCTYPE plist PUBLIC \"-//Apple//DTD PLIST 1.0//EN\" \"http://www.apple.com/DTDs/PropertyList-1.0.dtd\">\n<plist version=\"1.0\">\n<dict>\n    <key>Label</key>\n    <string>me.ricardodantas.hazelnutd</string>\n    <key>ProgramArguments</key>\n    <array>\n        <string>";

pub const AGENT_TAIL: &'static str =
    "</string>\n        <string>run</string>\n    </array>\n    <key>RunAtLoad</key>\n    <true/>\n    <key>KeepAlive</key>\n    <false/>\n    <key>StandardOutPath</key>\n    <string>/tmp/hazelnutd.stdout.log</string>\n    <key>StandardErrorPath</key>\n    <string>/tmp/hazelnutd.stderr.log</string>\n</dict>\n</plist>\n";

pub const UNIT_HEAD: &'static str =
    "[Unit]\nDescription=Hazelnut File Organizer Daemon\nAfter=default.target\n\n[Service]\nType=simple\nExecStart=";

pub const UNIT_TAIL: &'static str =
    " run\nRestart=on-failure\nRestartSec=5\n\n[Install]\nWantedBy=default.target\n";

pub const DESKTOP_HEAD: &'static str =
    "[Desktop Entry]\nType=Application\nName=Hazelnut Daemon\nExec=";

pub const DESKTOP_TAIL: &'static str =
    " run\nHidden=false\nNoDisplay=true\nX-GNOME-Autostart-enabled=true\n";

/// The mechanism for an operating system: the service agent on macOS; on
/// Linux the user's systemd where it answers, else desktop autostart.
pub open spec fn platform_of(os: OsFamily, systemd_available: bool) -> Platform {
    match os {
        OsFamily::MacOs => Platform::MacServiceAgent,
        OsFamily::Linux => if systemd_available {
            Platform::LinuxSystemdUser
        } else {
            Platform::LinuxDesktopAutostart
        },
        OsFamily::Other => Platform::Unsupported,
    }
}

/// The path of `name` in the directory `base`: a separator stands between
/// them unless `base` is empty or ends with one.
pub open spec fn joined(base: Seq<char>, name: Seq<char>) -> Seq<char> {
    if base.len() == 0 || base.last() == '/' {
        base + name
    } else {
        base + "/"@ + name
    }
}

/// The view of an optional text.
pub open spec fn text_view(t: Option<String>) -> Option<Seq<char>> {
    match t {
        Some(s) => Some(s@),
        None => None,
    }
}

/// The directory that holds the descriptor on `host`, where it has one.
pub open spec fn descriptor_dir(host: Host) -> Option<Seq<char>> {
    match platform_of(host.os, host.systemd_available) {
        Platform::MacServiceAgent => match host.home_dir {
            Some(h) => Some(joined(joined(h@, "Library"@), "LaunchAgents"@)),
            None => None,
        },
        Platform::LinuxSystemdUser => match host.home_dir {
            Some(h) => Some(joined(joined(joined(h@, ".config"@), "systemd"@), "user"@)),
            None => None,
        },
        Platform::LinuxDesktopAutostart => match host.config_dir {
            Some(c) => Some(joined(c@, "autostart"@)),
            None => None,
        },
        Platform::Unsupported => None,
    }
}

/// The descriptor's file name on a platform.
pub open spec fn descriptor_name(platform: Platform) -> Seq<char> {
    match platform {
        Platform::MacServiceAgent => AGENT_FILE@,
        Platform::LinuxSystemdUser => UNIT_FILE@,
        Platform::LinuxDesktopAutostart => DESKTOP_FILE@,
        Platform::Unsupported => Seq::empty(),
    }
}

/// The descriptor's path on `host`, where it has one.
pub open spec fn descriptor_path(host: Host) -> Option<Seq<char>> {
    match descriptor_dir(host) {
        Some(dir) => Some(
            joined(dir, descriptor_name(platform_of(host.os, host.systemd_available))),
        ),
        None => None,
    }
}

/// The text before the executable's path in a platform's descriptor.
pub open spec fn content_head(platform: Platform) -> Seq<char> {
    match platform {
        Platform::MacServiceAgent => AGENT_HEAD@,
        Platform::LinuxSystemdUser => UNIT_HEAD@,
        Platform::LinuxDesktopAutostart => DESKTOP_HEAD@,
        Platform::Unsupported => Seq::empty(),
    }
}

/// The text after the executable's path in a platform's descriptor.
pub open spec fn content_tail(platform: Platform) -> Seq<char> {
    match platform {
        Platform::MacServiceAgent => AGENT_TAIL@,
        Platform::LinuxSystemdUser => UNIT_TAIL@,
        Platform::LinuxDesktopAutostart => DESKTOP_TAIL@,
        Platform::Unsupported => Seq::empty(),
    }
}

/// The descriptor's content on a platform for the executable at `binary`.
pub open spec fn descriptor_content(platform: Platform, binary: Seq<char>) -> Seq<char> {
    content_head(platform) + binary + content_tail(platform)
}

/// What `get_autostart_content` owes: an unknown executable fails first,
/// an unsupported platform next.
pub open spec fn content_plan(platform: Platform, binary: Option<Seq<char>>) -> Result<
    Seq<char>,
    AutostartError,
> {
    match binary {
        None => Err(AutostartError::NotFound),
        Some(b) => if platform == Platform::Unsupported {
            Err(AutostartError::Unsupported)
        } else {
            Ok(descriptor_content(platform, b))
        },
    }
}

/// The reload step, on the platform that has a manager to reload.
pub open spec fn reload_steps(platform: Platform) -> Seq<StepModel> {
    if platform == Platform::LinuxSystemdUser {
        seq![StepModel::ReloadManager]
    } else {
        Seq::empty()
    }
}

/// The steps that enable autostart on `host` for the executable at
/// `binary`. A host without a descriptor path fails as unsupported; an
/// unknown executable fails as not found, before any step.
pub open spec fn enable_plan(host: Host, binary: Option<Seq<char>>) -> Result<
    Seq<StepModel>,
    AutostartError,
> {
    let platform = platform_of(host.os, host.systemd_available);
    match descriptor_path(host) {
        None => Err(AutostartError::Unsupported),
        Some(path) => match binary {
            None => Err(AutostartError::NotFound),
            Some(b) => Ok(
                seq![
                    StepModel::CreateDirs(descriptor_dir(host).unwrap()),
                    StepModel::WriteFile { path, content: descriptor_content(platform, b) },
                ] + reload_steps(platform),
            ),
        },
    }
}

/// The steps that disable autostart on `host`, where `present` says
/// whether the descriptor exists. A missing descriptor is no error:
/// nothing is removed.
pub open spec fn disable_plan(host: Host, present: bool) -> Result<
    Seq<StepModel>,
    AutostartError,
> {
    let platform = platform_of(host.os, host.systemd_available);
    match descriptor_path(host) {
        None => Err(AutostartError::Unsupported),
        Some(path) => Ok(
            (if present {
                seq![StepModel::RemoveFile(path)]
            } else {
                Seq::empty()
            }) + reload_steps(platform),
        ),
    }
}

/// Whether autostart is enabled on `host`, where `present` says whether
/// a file exists at the descriptor's path.
pub open spec fn enabled(host: Host, present: bool) -> bool {
    descriptor_path(host).is_some() && present
}

/// The new state and the steps of a toggle: disable where enabled, enable
/// where not.
pub open spec fn toggle_plan(host: Host, binary: Option<Seq<char>>, present: bool) -> Result<
    (bool, Seq<StepModel>),
    AutostartError,
> {
    if enabled(host, present) {
        match disable_plan(host, present) {
            Ok(steps) => Ok((false, steps)),
            Err(e) => Err(e),
        }
    } else {
        match enable_plan(host, binary) {
            Ok(steps) => Ok((true, steps)),
            Err(e) => Err(e),
        }
    }
}

/// The files after one step. Only writing and removing change them.
pub open spec fn after_step(files: Files, step: StepModel) -> Files {
    match step {
        StepModel::WriteFile { path, content } => files.insert(path, content),
        StepModel::RemoveFile(path) => files.remove(path),
        _ => files,
    }
}

/// The files after the steps, carried out in their order.
pub open spec fn after_steps(files: Files, steps: Seq<StepModel>) -> Files
    decreases steps.len(),
{
    if steps.len() == 0 {
        files
    } else {
        after_step(after_steps(files, steps.drop_last()), steps.last())
    }
}

/// Whether autostart is enabled on `host` with the files `files`.
pub open spec fn enabled_in(host: Host, files: Files) -> bool {
    match descriptor_path(host) {
        Some(path) => files.contains_key(path),
        None => false,
    }
}

/// The candidate that a search for the daemon's executable settles on: the
/// trimmed answer of the command lookup where it succeeded with one, else
/// the first of the common places that holds the file, else the
/// toolchain's directory under the home directory.
pub open spec fn located_binary(
    lookup: Option<Seq<char>>,
    common_present: Seq<bool>,
    cargo_bin: Option<Seq<char>>,
) -> Option<Seq<char>> {
    if lookup.is_some() && trimmed(lookup.unwrap()).len() > 0 {
        Some(trimmed(lookup.unwrap()))
    } else if common_present.len() > 0 && common_present[0] {
        Some("/usr/local/bin/hazelnutd"@)
    } else if common_present.len() > 1 && common_present[1] {
        Some("/opt/homebrew/bin/hazelnutd"@)
    } else if common_present.len() > 2 && common_present[2] {
        Some("/usr/bin/hazelnutd"@)
    } else {
        cargo_bin
    }
}

/// Tells the mechanism for an operating system.
pub fn detect(os: OsFamily, systemd_available: bool) -> (r: Platform)
    ensures
        r == platform_of(os, systemd_available),
{
    match os {
        OsFamily::MacOs => Platform::MacServiceAgent,
        OsFamily::Linux => if systemd_available {
            Platform::LinuxSystemdUser
        } else {
            Platform::LinuxDesktopAutostart
        },
        OsFamily::Other => Platform::Unsupported,
    }
}

/// Whether the user's systemd instance is usable, from how its version
/// probe ended: only a probe that ran and exited with success counts.
pub fn is_systemd_available(probe: &Launch) -> (r: bool)
    ensures
        r == (probe matches Launch::Exited { success: true, .. }),
{
    match probe {
        Launch::Exited { success, .. } => *success,
        Launch::NotLaunched(_) => false,
    }
}

/// The path of `name` in the directory `base`.
pub fn join_path(base: &str, name: &str) -> (r: String)
    ensures
        r@ == joined(base@, name@),
{
    let n: usize = base.unicode_len();
    let mut out = String::from_str(base);
    if n > 0 && base.get_char(n - 1) != '/' {
        out.append("/");
    }
    out.append(name);
    out
}

/// The descriptor's file name on a platform.
pub fn descriptor_file_name(platform: Platform) -> (r: &'static str)
    ensures
        r@ == descriptor_name(platform),
{
    match platform {
        Platform::MacServiceAgent => AGENT_FILE,
        Platform::LinuxSystemdUser => UNIT_FILE,
        Platform::LinuxDesktopAutostart => DESKTOP_FILE,
        Platform::Unsupported => {
            proof {
                reveal_strlit("");
                assert(""@ =~= Seq::<char>::empty());
            }
            ""
        },
    }
}

/// The directory that holds the descriptor on `host`, where it has one.
pub fn get_autostart_dir(host: &Host) -> (r: Option<String>)
    ensures
        text_view(r) == descriptor_dir(*host),
{
    match detect(host.os, host.systemd_available) {
        Platform::MacServiceAgent => match &host.home_dir {
            Some(h) => {
                let library = join_path(h.as_str(), "Library");
                Some(join_path(library.as_str(), "LaunchAgents"))
            },
            None => None,
        },
        Platform::LinuxSystemdUser => match &host.home_dir {
            Some(h) => {
                let config = join_path(h.as_str(), ".config");
                let systemd = join_path(config.as_str(), "systemd");
                Some(join_path(systemd.as_str(), "user"))
            },
            None => None,
        },
        Platform::LinuxDesktopAutostart => match &host.config_dir {
            Some(c) => Some(join_path(c.as_str(), "autostart")),
            None => None,
        },
        Platform::Unsupported => None,
    }
}

/// The descriptor's path on `host`, where it has one.
pub fn get_autostart_path(host: &Host) -> (r: Option<String>)
    ensures
        text_view(r) == descriptor_path(*host),
{
    match get_autostart_dir(host) {
        Some(dir) => {
            let name = descriptor_file_name(detect(host.os, host.systemd_available));
            Some(join_path(dir.as_str(), name))
        },
        None => None,
    }
}

/// The descriptor's content on `platform` for the daemon's executable at
/// `binary`, if it was found.
pub fn get_autostart_content(platform: Platform, binary: Option<&str>) -> (r: Result<
    String,
    AutostartError,
>)
    ensures
        (match content_plan(platform, opt_text(binary)) {
            Ok(text) => r matches Ok(s) && s@ == text,
            Err(e) => r == Err::<String, AutostartError>(e),
        }),
{
    let b = match binary {
        Some(b) => b,
        None => {
            return Err(AutostartError::NotFound);
        },
    };
    let (head, tail) = match platform {
        Platform::MacServiceAgent => (AGENT_HEAD, AGENT_TAIL),
        Platform::LinuxSystemdUser => (UNIT_HEAD, UNIT_TAIL),
        Platform::LinuxDesktopAutostart => (DESKTOP_HEAD, DESKTOP_TAIL),
        Platform::Unsupported => {
            return Err(AutostartError::Unsupported);
        },
    };
    let mut out = String::from_str(head);
    out.append(b);
    out.append(tail);
    Ok(out)
}

/// The daemon's executable, from what a search found: `lookup` is what the
/// shell's command lookup printed, if it succeeded; `common_present` says
/// of `/usr/local/bin`, `/opt/homebrew/bin` and `/usr/bin`, in this order,
/// whether the executable is there; `cargo_bin` is its path in the
/// toolchain's directory under the home directory, if it is there.
pub fn get_daemon_binary_path(
    lookup: Option<&str>,
    common_present: &Vec<bool>,
    cargo_bin: Option<&str>,
) -> (r: Result<String, AutostartError>)
    ensures
        (match located_binary(opt_text(lookup), common_present@, opt_text(cargo_bin)) {
            Some(path) => r matches Ok(p) && p@ == path,
            None => r == Err::<String, AutostartError>(AutostartError::NotFound),
        }),
{
    if let Some(l) = lookup {
        let path = trim_text(l);
        if path.as_str().unicode_len() > 0 {
            return Ok(path);
        }
    }
    if common_present.len() > 0 && common_present[0] {
        return Ok(String::from_str("/usr/local/bin/hazelnutd"));
    }
    if common_present.len() > 1 && common_present[1] {
        return Ok(String::from_str("/opt/homebrew/bin/hazelnutd"));
    }
    if common_present.len() > 2 && common_present[2] {
        return Ok(String::from_str("/usr/bin/hazelnutd"));
    }
    match cargo_bin {
        Some(c) => Ok(String::from_str(c)),
        None => Err(AutostartError::NotFound),
    }
}

/// The path of the daemon's executable in the toolchain's directory under
/// the home directory `home`.
pub fn cargo_bin_path(home: &str) -> (r: String)
    ensures
        r@ == joined(joined(joined(home@, ".cargo"@), "bin"@), "hazelnutd"@),
{
    let cargo = join_path(home, ".cargo");
    let bin = join_path(cargo.as_str(), "bin");
    join_path(bin.as_str(), "hazelnutd")
}

/// Whether autostart is enabled on `host`, where `present` says whether a
/// file exists at the descriptor's path. A host without such a path has
/// it disabled.
pub fn is_enabled(host: &Host, present: bool) -> (r: bool)
    ensures
        r == enabled(*host, present),
{
    get_autostart_path(host).is_some() && present
}

fn push_reload(steps: &mut Vec<Step>, platform: Platform)
    ensures
        step_models(final(steps)@) == step_models(old(steps)@) + reload_steps(platform),
{
    if platform == Platform::LinuxSystemdUser {
        steps.push(Step::ReloadManager);
        proof {
            assert(step_models(steps@) =~= step_models(old(steps)@) + reload_steps(platform));
        }
    } else {
        proof {
            assert(step_models(steps@) =~= step_models(old(steps)@) + reload_steps(platform));
        }
    }
}

/// The descriptor to register on `host` for the daemon's executable at
/// `binary`, if it was found: fails as unsupported on a host without a
/// descriptor path, else as not found without an executable.
pub fn autostart_target(host: &Host, binary: Option<&str>) -> (r: Result<
    AutostartTarget,
    AutostartError,
>)
    ensures
        (match descriptor_path(*host) {
            None => r == Err::<AutostartTarget, AutostartError>(AutostartError::Unsupported),
            Some(path) => match binary {
                None => r == Err::<AutostartTarget, AutostartError>(AutostartError::NotFound),
                Some(b) => r matches Ok(t) && t.platform == platform_of(
                    host.os,
                    host.systemd_available,
                ) && t.descriptor_dir@ == descriptor_dir(*host).unwrap() && t.descriptor_path@
                    == path && t.descriptor_content@ == descriptor_content(t.platform, b@),
            },
        }),
{
    let platform = detect(host.os, host.systemd_available);
    let dir = match get_autostart_dir(host) {
        Some(dir) => dir,
        None => {
            return Err(AutostartError::Unsupported);
        },
    };
    let path = join_path(dir.as_str(), descriptor_file_name(platform));
    match get_autostart_content(platform, binary) {
        Ok(content) => Ok(
            AutostartTarget {
                platform,
                descriptor_dir: dir,
                descriptor_path: path,
                descriptor_content: content,
            },
        ),
        Err(e) => Err(e),
    }
}

/// The steps that enable autostart on `host` for the daemon's executable
/// at `binary`, if it was found.
pub fn enable(host: &Host, binary: Option<&str>) -> (r: Result<Vec<Step>, AutostartError>)
    ensures
        (match enable_plan(*host, opt_text(binary)) {
            Ok(plan) => r matches Ok(steps) && step_models(steps@) == plan,
            Err(e) => r == Err::<Vec<Step>, AutostartError>(e),
        }),
{
    let target = match autostart_target(host, binary) {
        Ok(target) => target,
        Err(e) => {
            return Err(e);
        },
    };
    let platform = target.platform;
    let mut steps: Vec<Step> = Vec::new();
    steps.push(Step::CreateDirs(target.descriptor_dir));
    steps.push(Step::WriteFile { path: target.descriptor_path, content: target.descriptor_content });
    proof {
        assert(step_models(steps@) =~= seq![
            StepModel::CreateDirs(descriptor_dir(*host).unwrap()),
            StepModel::WriteFile {
                path: descriptor_path(*host).unwrap(),
                content: descriptor_content(platform, binary.unwrap()@),
            },
        ]);
    }
    push_reload(&mut steps, platform);
    Ok(steps)
}

/// The steps that disable autostart on `host`, where `present` says
/// whether the descriptor exists.
pub fn disable(host: &Host, present: bool) -> (r: Result<Vec<Step>, AutostartError>)
    ensures
        (match disable_plan(*host, present) {
            Ok(plan) => r matches Ok(steps) && step_models(steps@) == plan,
            Err(e) => r == Err::<Vec<Step>, AutostartError>(e),
        }),
{
    let platform = detect(host.os, host.systemd_available);
    let path = match get_autostart_path(host) {
        Some(path) => path,
        None => {
            return Err(AutostartError::Unsupported);
        },
    };
    let mut steps: Vec<Step> = Vec::new();
    if present {
        steps.push(Step::RemoveFile(path));
        proof {
            assert(step_models(steps@) =~= seq![
                StepModel::RemoveFile(descriptor_path(*host).unwrap()),
            ]);
        }
    } else {
        proof {
            assert(step_models(steps@) =~= Seq::<StepModel>::empty());
        }
    }
    push_reload(&mut steps, platform);
    Ok(steps)
}

/// Switches autostart on `host`: the steps that disable it where it is
/// enabled and those that enable it where it is not, with the state that
/// they lead to.
pub fn toggle(host: &Host, binary: Option<&str>, present: bool) -> (r: Result<
    (bool, Vec<Step>),
    AutostartError,
>)
    ensures
        (match toggle_plan(*host, opt_text(binary), present) {
            Ok(plan) => r matches Ok(done) && done.0 == plan.0 && step_models(done.1@) == plan.1,
            Err(e) => r == Err::<(bool, Vec<Step>), AutostartError>(e),
        }),
{
    if is_enabled(host, present) {
        match disable(host, present) {
            Ok(steps) => Ok((false, steps)),
            Err(e) => Err(e),
        }
    } else {
        match enable(host, binary) {
            Ok(steps) => Ok((true, steps)),
            Err(e) => Err(e),
        }
    }
}

proof fn lemma_after_push(files: Files, steps: Seq<StepModel>, step: StepModel)
    ensures
        after_steps(files, steps.push(step)) == after_step(after_steps(files, steps), step),
{
    assert(steps.push(step).drop_last() =~= steps);
}

proof fn lemma_after_reload(files: Files, steps: Seq<StepModel>, platform: Platform)
    ensures
        after_steps(files, steps + reload_steps(platform)) == after_steps(files, steps),
{
    if platform == Platform::LinuxSystemdUser {
        assert(steps + reload_steps(platform) =~= steps.push(StepModel::ReloadManager));
        lemma_after_push(files, steps, StepModel::ReloadManager);
    } else {
        assert(steps + reload_steps(platform) =~= steps);
    }
}

proof fn lemma_after_enable(host: Host, binary: Seq<char>, files: Files)
    requires
        descriptor_path(host).is_some(),
    ensures
        enable_plan(host, Some(binary)) is Ok,
        after_steps(files, enable_plan(host, Some(binary)).unwrap()) == files.insert(
            descriptor_path(host).unwrap(),
            descriptor_content(platform_of(host.os, host.systemd_available), binary),
        ),
{
    let platform = platform_of(host.os, host.systemd_available);
    let create = StepModel::CreateDirs(descriptor_dir(host).unwrap());
    let write = StepModel::WriteFile {
        path: descriptor_path(host).unwrap(),
        content: descriptor_content(platform, binary),
    };
    let none = Seq::<StepModel>::empty();
    assert(seq![create, write] =~= none.push(create).push(write));
    lemma_after_reload(files, seq![create, write], platform);
    lemma_after_push(files, none.push(create), write);
    lemma_after_push(files, none, create);
}

proof fn lemma_after_disable(host: Host, files: Files)
    requires
        descriptor_path(host).is_some(),
    ensures
        disable_plan(host, enabled_in(host, files)) is Ok,
        after_steps(files, disable_plan(host, enabled_in(host, files)).unwrap()) == files.remove(
            descriptor_path(host).unwrap(),
        ),
{
    let platform = platform_of(host.os, host.systemd_available);
    let path = descriptor_path(host).unwrap();
    let none = Seq::<StepModel>::empty();
    if enabled_in(host, files) {
        let remove = StepModel::RemoveFile(path);
        assert(seq![remove] =~= none.push(remove));
        lemma_after_reload(files, seq![remove], platform);
        lemma_after_push(files, none, remove);
    } else {
        lemma_after_reload(files, none, platform);
        assert(files.remove(path) =~= files);
    }
}

/// On a host that has a descriptor path, autostart is enabled once the
/// steps of `enable` are carried out, whatever the files were before.
pub proof fn law_enable_then_enabled(host: Host, binary: Seq<char>, files: Files)
    requires
        descriptor_path(host).is_some(),
    ensures
        enable_plan(host, Some(binary)) is Ok,
        enabled_in(host, after_steps(files, enable_plan(host, Some(binary)).unwrap())),
{
    lemma_after_enable(host, binary, files);
}

/// On a host that has a descriptor path, autostart is disabled once the
/// steps of `disable` are carried out, whatever the files were before.
pub proof fn law_disable_then_disabled(host: Host, files: Files)
    requires
        descriptor_path(host).is_some(),
    ensures
        disable_plan(host, enabled_in(host, files)) is Ok,
        !enabled_in(
            host,
            after_steps(files, disable_plan(host, enabled_in(host, files)).unwrap()),
        ),
{
    lemma_after_disable(host, files);
}

/// On a host that has a descriptor path, and with the daemon's executable
/// found, two toggles in a row both succeed, the first reports the
/// opposite of the state it found, and the second leads back to that
/// state.
pub proof fn law_toggle_twice(host: Host, binary: Seq<char>, files: Files)
    requires
        descriptor_path(host).is_some(),
    ensures
        ({
            let first = toggle_plan(host, Some(binary), enabled_in(host, files));
            &&& first is Ok
            &&& first.unwrap().0 == !enabled_in(host, files)
            &&& ({
                let between = after_steps(files, first.unwrap().1);
                let second = toggle_plan(host, Some(binary), enabled_in(host, between));
                &&& enabled_in(host, between) == first.unwrap().0
                &&& second is Ok
                &&& second.unwrap().0 == enabled_in(host, files)
                &&& enabled_in(host, after_steps(between, second.unwrap().1)) == enabled_in(
                    host,
                    files,
                )
            })
        }),
{
    lemma_after_enable(host, binary, files);
    lemma_after_disable(host, files);
    let first = toggle_plan(host, Some(binary), enabled_in(host, files));
    let between = after_steps(files, first.unwrap().1);
    lemma_after_enable(host, binary, between);
    lemma_after_disable(host, between);
}

/// Enabling twice with the same executable writes the same content both
/// times: the second run of the steps leaves the files as the first left
/// them, and the descriptor holds the content for that executable.
pub proof fn law_enable_idempotent(host: Host, binary: Seq<char>, files: Files)
    requires
        descriptor_path(host).is_some(),
    ensures
        ({
            let plan = enable_plan(host, Some(binary)).unwrap();
            let once = after_steps(files, plan);
            &&& after_steps(once, plan) == once
            &&& once[descriptor_path(host).unwrap()] == descriptor_content(
                platform_of(host.os, host.systemd_available),
                binary,
            )
        }),
{
    lemma_after_enable(host, binary, files);
    let plan = enable_plan(host, Some(binary)).unwrap();
    let once = after_steps(files, plan);
    lemma_after_enable(host, binary, once);
    assert(after_steps(once, plan) =~= once);
}

/// Disabling where autostart is already disabled is no error, removes
/// nothing and leaves the files as they were.
pub proof fn law_disable_when_disabled(host: Host, files: Files)
    requires
        descriptor_path(host).is_some(),
        !enabled_in(host, files),
    ensures
        disable_plan(host, false) == Ok::<Seq<StepModel>, AutostartError>(
            reload_steps(platform_of(host.os, host.systemd_available)),
        ),
        after_steps(files, disable_plan(host, false).unwrap()) == files,
{
    lemma_after_disable(host, files);
    assert(files.remove(descriptor_path(host).unwrap()) =~= files);
    assert(Seq::<StepModel>::empty() + reload_steps(
        platform_of(host.os, host.systemd_available),
    ) =~= reload_steps(platform_of(host.os, host.systemd_available)));
}

/// A descriptor holds the executable's path as it was given, right after
/// the text that leads up to it.
pub proof fn law_content_embeds_binary(platform: Platform, binary: Seq<char>)
    ensures
        occurs_at(
            descriptor_content(platform, binary),
            binary,
            content_head(platform).len() as int,
        ),
{
    let head = content_head(platform);
    assert(descriptor_content(platform, binary).subrange(
        head.len() as int,
        (head.len() + binary.len()) as int,
    ) =~= binary);
}

} // verus!
