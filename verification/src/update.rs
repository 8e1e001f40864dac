//! How the program was installed, and the commands that update it.

use crate::json::{
    items_of, json_as_array, json_as_str, json_document, json_get, json_model, member,
    parse_json, text_of, JsonModel,
};
use crate::text::{contains_text, text_contains};
use vstd::prelude::*;

verus! {

/// The package manager that installed the program.
#[derive(Debug, Clone, PartialEq, Eq)]
pub enum PackageManager {
    Cargo,
    Homebrew { formula: String },
}

/// How the launch of a command ended.
#[derive(Debug, Clone, PartialEq, Eq)]
pub enum Launch {
    /// The command ran and exited; `status` is its exit status as text.
    Exited { success: bool, status: String },
    /// The command could not be started; the text says why.
    NotLaunched(String),
}

/// What is to be done next in an update.
#[derive(Debug, Clone, PartialEq, Eq)]
pub enum UpdateAction {
    /// Run this program with these arguments, and report how it ended.
    Run { program: String, args: Vec<String> },
    /// The update succeeded.
    Succeeded,
    /// The update failed; the text says why.
    Failed(String),
}

/// A launch, with its texts as sequences of characters.
pub ghost enum LaunchModel {
    Exited { success: bool, status: Seq<char> },
    NotLaunched(Seq<char>),
}

/// An action, with its texts as sequences of characters.
pub ghost enum ActionModel {
    Run { program: Seq<char>, args: Seq<Seq<char>> },
    Succeeded,
    Failed(Seq<char>),
}

impl View for Launch {
    type V = LaunchModel;

    open spec fn view(&self) -> LaunchModel {
        match self {
            Launch::Exited { success, status } => LaunchModel::Exited {
                success: *success,
                status: status@,
            },
            Launch::NotLaunched(why) => LaunchModel::NotLaunched(why@),
        }
    }
}

impl View for UpdateAction {
    type V = ActionModel;

    open spec fn view(&self) -> ActionModel {
        match self {
            UpdateAction::Run { program, args } => ActionModel::Run {
                program: program@,
                args: args.deep_view(),
            },
            UpdateAction::Succeeded => ActionModel::Succeeded,
            UpdateAction::Failed(why) => ActionModel::Failed(why@),
        }
    }
}

/// The models of a sequence of launches.
pub open spec fn launch_models(launches: Seq<Launch>) -> Seq<LaunchModel> {
    launches.map_values(|l: Launch| l@)
}

/// The bytes of an optional buffer.
pub open spec fn opt_bytes(b: Option<&Vec<u8>>) -> Option<Seq<u8>> {
    match b {
        Some(v) => Some(v@),
        None => None,
    }
}

/// The formula's name where none can be learnt.
pub open spec fn default_formula() -> Seq<char> {
    "hazelnut"@
}

/// Whether an executable's path lies in the system package manager's tree.
pub open spec fn in_homebrew_tree(exe: Seq<char>) -> bool {
    contains_text(exe, "/Cellar/"@) || contains_text(exe, "/homebrew/"@)
}

/// The full name of the first formula in the package manager's metadata:
/// the string under `full_name` of the first item of the array under
/// `formulae`.
pub open spec fn formula_name_of(doc: JsonModel) -> Option<Seq<char>> {
    match member(doc, "formulae"@) {
        Some(list) => match items_of(list) {
            Some(items) => if items.len() > 0 {
                match member(items[0], "full_name"@) {
                    Some(name) => text_of(name),
                    None => None,
                }
            } else {
                None
            },
            None => None,
        },
        None => None,
    }
}

/// The formula's name for the metadata bytes that the package manager
/// printed, if it printed any: the name in the document, or the default
/// where there are no bytes, no document or no name.
pub open spec fn formula_for(info: Option<Seq<u8>>) -> Seq<char> {
    match info {
        Some(bytes) => match json_document(bytes) {
            Some(doc) => match formula_name_of(doc) {
                Some(name) => name,
                None => default_formula(),
            },
            None => default_formula(),
        },
        None => default_formula(),
    }
}

/// The command line that updates the program by hand.
pub open spec fn update_command_text(pm: PackageManager) -> Seq<char> {
    match pm {
        PackageManager::Cargo => "cargo install hazelnut"@,
        PackageManager::Homebrew { formula } => "brew upgrade "@ + formula@,
    }
}

/// The action after one command that decides the update: success ends it
/// well, a failed exit or a failed launch ends it with a message.
pub open spec fn closing_action(tool: Seq<char>, launch: LaunchModel) -> ActionModel {
    match launch {
        LaunchModel::Exited { success, status } => if success {
            ActionModel::Succeeded
        } else {
            ActionModel::Failed("Update failed with status: "@ + status)
        },
        LaunchModel::NotLaunched(why) => ActionModel::Failed("Failed to run "@ + tool + ": "@ + why),
    }
}

/// The next action of an update, given how the commands run so far ended.
///
/// The toolchain installer runs its install command once. The system
/// package manager first refreshes its catalogue, whose outcome is not
/// looked at, then upgrades; where the upgrade exits without success it
/// reinstalls, once.
pub open spec fn next_action(pm: PackageManager, observed: Seq<LaunchModel>) -> ActionModel {
    match pm {
        PackageManager::Cargo => if observed.len() == 0 {
            ActionModel::Run { program: "cargo"@, args: seq!["install"@, "hazelnut"@] }
        } else {
            closing_action("cargo"@, observed[0])
        },
        PackageManager::Homebrew { formula } => if observed.len() == 0 {
            ActionModel::Run { program: "brew"@, args: seq!["update"@] }
        } else if observed.len() == 1 {
            ActionModel::Run { program: "brew"@, args: seq!["upgrade"@, formula@] }
        } else if observed[1] matches LaunchModel::Exited { success: false, .. } {
            if observed.len() == 2 {
                ActionModel::Run { program: "brew"@, args: seq!["reinstall"@, formula@] }
            } else {
                closing_action("brew"@, observed[2])
            }
        } else {
            closing_action("brew"@, observed[1])
        },
    }
}

impl PackageManager {
    /// The package manager's short name.
    pub fn name(&self) -> (r: &'static str)
        ensures
            r@ == (match *self {
                PackageManager::Cargo => "cargo"@,
                PackageManager::Homebrew { .. } => "brew"@,
            }),
    {
        match self {
            PackageManager::Cargo => "cargo",
            PackageManager::Homebrew { .. } => "brew",
        }
    }

    /// The command line that updates the program by hand.
    pub fn update_command(&self) -> (r: String)
        ensures
            r@ == update_command_text(*self),
    {
        match self {
            PackageManager::Cargo => String::from_str("cargo install hazelnut"),
            PackageManager::Homebrew { formula } => {
                let mut line = String::from_str("brew upgrade ");
                line.append(formula.as_str());
                line
            },
        }
    }
}

/// Whether an executable's path lies in the system package manager's tree.
pub fn is_homebrew_path(exe: &str) -> (r: bool)
    ensures
        r == in_homebrew_tree(exe@),
{
    text_contains(exe, "/Cellar/") || text_contains(exe, "/homebrew/")
}

/// The full name of the first formula in the package manager's metadata.
pub fn formula_from_document(doc: &serde_json::Value) -> (r: Option<String>)
    ensures
        r.is_some() == formula_name_of(json_model(*doc)).is_some(),
        r.is_some() ==> r.unwrap()@ == formula_name_of(json_model(*doc)).unwrap(),
{
    match json_get(doc, "formulae") {
        Some(list) => match json_as_array(list) {
            Some(items) => if items.len() > 0 {
                match json_get(&items[0], "full_name") {
                    Some(name) => match json_as_str(name) {
                        Some(text) => Some(String::from_str(text)),
                        None => None,
                    },
                    None => None,
                }
            } else {
                None
            },
            None => None,
        },
        None => None,
    }
}

/// The formula's name for the metadata that the package manager printed.
pub fn formula_name(info: Option<&Vec<u8>>) -> (r: String)
    ensures
        r@ == formula_for(opt_bytes(info)),
{
    if let Some(bytes) = info {
        if let Ok(doc) = parse_json(bytes.as_slice()) {
            if let Some(name) = formula_from_document(&doc) {
                return name;
            }
        }
    }
    String::from_str("hazelnut")
}

/// Tells how the program was installed, from the path of the running
/// executable, if it is known, and from the metadata that the system
/// package manager printed for the program, if it was asked with success.
pub fn detect_package_manager(exe_path: Option<&str>, brew_info: Option<&Vec<u8>>) -> (r:
    PackageManager)
    ensures
        (match exe_path {
            Some(exe) if in_homebrew_tree(exe@) => r matches PackageManager::Homebrew { formula }
                && formula@ == formula_for(opt_bytes(brew_info)),
            _ => r == PackageManager::Cargo,
        }),
{
    if let Some(exe) = exe_path {
        if is_homebrew_path(exe) {
            return PackageManager::Homebrew { formula: formula_name(brew_info) };
        }
    }
    PackageManager::Cargo
}

fn closing(tool: &str, launch: &Launch) -> (r: UpdateAction)
    ensures
        r@ == closing_action(tool@, launch@),
{
    match launch {
        Launch::Exited { success, status } => {
            if *success {
                UpdateAction::Succeeded
            } else {
                let mut why = String::from_str("Update failed with status: ");
                why.append(status.as_str());
                UpdateAction::Failed(why)
            }
        },
        Launch::NotLaunched(detail) => {
            let mut why = String::from_str("Failed to run ");
            why.append(tool);
            why.append(": ");
            why.append(detail.as_str());
            UpdateAction::Failed(why)
        },
    }
}

fn brew_command(verb: &str, formula: Option<&String>) -> (r: UpdateAction)
    ensures
        r@ == (ActionModel::Run {
            program: "brew"@,
            args: match formula {
                Some(f) => seq![verb@, f@],
                None => seq![verb@],
            },
        }),
{
    let mut args: Vec<String> = Vec::new();
    args.push(String::from_str(verb));
    if let Some(f) = formula {
        args.push(f.clone());
    }
    proof {
        match formula {
            Some(f) => {
                assert(args.deep_view() =~= seq![verb@, f@]);
            },
            None => {
                assert(args.deep_view() =~= seq![verb@]);
            },
        }
    }
    UpdateAction::Run { program: String::from_str("brew"), args }
}

/// The next action of an update of a program that `pm` installed, given
/// how the commands run so far ended, in their order. The caller runs each
/// command, adds its outcome to `observed` and asks again, until the
/// answer is no command.
pub fn run_update(pm: &PackageManager, observed: &Vec<Launch>) -> (r: UpdateAction)
    ensures
        r@ == next_action(*pm, launch_models(observed@)),
{
    match pm {
        PackageManager::Cargo => {
            if observed.len() == 0 {
                let mut args: Vec<String> = Vec::new();
                args.push(String::from_str("install"));
                args.push(String::from_str("hazelnut"));
                proof {
                    assert(args.deep_view() =~= seq!["install"@, "hazelnut"@]);
                }
                UpdateAction::Run { program: String::from_str("cargo"), args }
            } else {
                closing("cargo", &observed[0])
            }
        },
        PackageManager::Homebrew { formula } => {
            if observed.len() == 0 {
                brew_command("update", None)
            } else if observed.len() == 1 {
                brew_command("upgrade", Some(formula))
            } else {
                let retry: bool = match &observed[1] {
                    Launch::Exited { success, .. } => !*success,
                    Launch::NotLaunched(_) => false,
                };
                if !retry {
                    closing("brew", &observed[1])
                } else if observed.len() == 2 {
                    brew_command("reinstall", Some(formula))
                } else {
                    closing("brew", &observed[2])
                }
            }
        },
    }
}

} // verus!
