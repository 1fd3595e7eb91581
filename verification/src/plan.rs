use vstd::prelude::*;
use vstd::string::StringExecFns;

use crate::entry::{command_args, command_args_of, opt_view, DesktopEntryInfo};
use crate::text::views;

verus! {

broadcast use vstd::string::group_string_axioms;

/// What a launcher is made of, before its window exists.
pub struct LauncherPlan {
    /// The image file to draw the icon from.
    pub icon_path: String,
    /// The program and its arguments.
    pub args: Vec<String>,
    /// `StartupNotify` of the entry.
    pub startup_notify: Option<bool>,
    /// `StartupWMClass` of the entry.
    pub startup_wm_class: Option<String>,
    /// The directory to run the program in.
    pub working_directory: Option<String>,
}

/// The plain values of a launcher plan.
pub struct PlanView {
    pub icon_path: Seq<char>,
    pub args: Seq<Seq<char>>,
    pub startup_notify: Option<bool>,
    pub startup_wm_class: Option<Seq<char>>,
    pub working_directory: Option<Seq<char>>,
}

impl View for LauncherPlan {
    type V = PlanView;

    open spec fn view(&self) -> PlanView {
        PlanView {
            icon_path: self.icon_path@,
            args: views(self.args@),
            startup_notify: self.startup_notify,
            startup_wm_class: opt_view(self.startup_wm_class),
            working_directory: opt_view(self.working_directory),
        }
    }
}

/// The view of an optional plan.
pub open spec fn opt_plan_view(p: Option<LauncherPlan>) -> Option<PlanView> {
    match p {
        Some(p) => Some(p@),
        None => None,
    }
}

/// The icon drawn when no better one is found.
pub open spec fn fallback_icon() -> Seq<char> {
    seq!['p', 'r', 'i', 'n', 't', 'e', 'r', '.', 'p', 'n', 'g']
}

/// The icon file of a launcher: the one the icon theme lookup `found`,
/// unless that is empty, in which case the entry's `Icon` value itself
/// when it names an existing file; the fallback icon otherwise.
pub open spec fn icon_path_spec(
    found: Option<Seq<char>>,
    icon_name: Option<Seq<char>>,
    icon_name_exists: bool,
) -> Seq<char> {
    match found {
        Some(x) => if x.len() == 0 {
            if icon_name_exists {
                icon_name->0
            } else {
                fallback_icon()
            }
        } else {
            x
        },
        None => fallback_icon(),
    }
}

/// Whether `TryExec` rules the entry out: its first argument names a
/// program that was not found.
pub open spec fn try_exec_fails(
    e: DesktopEntryInfo,
    name: Seq<char>,
    desktop_path: Seq<char>,
    found: Option<Seq<char>>,
    program_found: bool,
) -> bool {
    match e.try_exec {
        Some(t) => command_args(t@, desktop_path, name, found).len() > 0 && !program_found,
        None => false,
    }
}

/// The launcher for the shown entry `name` read from `desktop_path`, given
/// the icon the theme lookup found, whether `TryExec`'s program was found,
/// and whether the `Icon` value names an existing file. There is none when
/// `TryExec` fails or the entry has no `Exec`.
pub open spec fn plan_spec(
    e: DesktopEntryInfo,
    name: Seq<char>,
    desktop_path: Seq<char>,
    found: Option<Seq<char>>,
    program_found: bool,
    icon_name_exists: bool,
) -> Option<PlanView> {
    if try_exec_fails(e, name, desktop_path, found, program_found) {
        None
    } else {
        match e.command {
            None => None,
            Some(c) => Some(
                PlanView {
                    icon_path: icon_path_spec(found, opt_view(e.icon), icon_name_exists),
                    args: command_args(c@, desktop_path, name, found),
                    startup_notify: e.startup_notify,
                    startup_wm_class: opt_view(e.startup_wm_class),
                    working_directory: opt_view(e.path),
                },
            ),
        }
    }
}

/// The launcher of an entry, once the outside lookups are done (see
/// `plan_spec`). An empty lookup result needs the entry's `Icon` value.
pub fn plan_launcher(
    e: &DesktopEntryInfo,
    name: &str,
    desktop_path: &str,
    found: &Option<String>,
    program_found: bool,
    icon_name_exists: bool,
) -> (r: Option<LauncherPlan>)
    requires
        (found matches Some(x) && x@.len() == 0) ==> e.icon is Some,
    ensures
        opt_plan_view(r) == plan_spec(*e, name@, desktop_path@, opt_view(*found), program_found, icon_name_exists),
{
    if let Some(t) = &e.try_exec {
        let a = command_args_of(t.as_str(), desktop_path, name, found);
        if a.len() > 0 && !program_found {
            return None;
        }
    }
    match &e.command {
        None => None,
        Some(c) => {
            let args = command_args_of(c.as_str(), desktop_path, name, found);
            let icon_path = match found {
                Some(x) => {
                    if x.as_str().is_empty() {
                        if icon_name_exists {
                            match &e.icon {
                                Some(n) => n.clone(),
                                None => String::new(),
                            }
                        } else {
                            fallback_icon_name()
                        }
                    } else {
                        x.clone()
                    }
                },
                None => fallback_icon_name(),
            };
            let plan = LauncherPlan {
                icon_path,
                args,
                startup_notify: e.startup_notify,
                startup_wm_class: e.startup_wm_class.clone(),
                working_directory: e.path.clone(),
            };
            assert(plan@ == plan_spec(*e, name@, desktop_path@, opt_view(*found), program_found, icon_name_exists)->0);
            Some(plan)
        },
    }
}

/// The name of the fallback icon file.
fn fallback_icon_name() -> (r: String)
    ensures
        r@ == fallback_icon(),
{
    proof {
        reveal_strlit("printer.png");
    }
    let r = String::from_str("printer.png");
    assert(r@ =~= fallback_icon());
    r
}

/// `which::which`: whether a program of that name is found, by a path or in
/// the directories of `PATH`. What it finds depends on the environment and
/// on the files on disk, so nothing is stated of the answer.
#[verifier::external_body]
fn program_on_path(program: &str) -> bool {
    which::which(program).is_ok()
}

/// `std::path::Path::exists`: whether a file is at `path`. It depends on the
/// files on disk, so nothing is stated of the answer.
#[verifier::external_body]
fn path_exists(path: &str) -> bool {
    std::path::Path::new(path).exists()
}

/// The program `TryExec` asks for: the first argument of its expansion,
/// when the entry has a `TryExec` that expands to any argument.
pub open spec fn try_exec_program_spec(
    e: DesktopEntryInfo,
    name: Seq<char>,
    desktop_path: Seq<char>,
    found: Option<Seq<char>>,
) -> Option<Seq<char>> {
    match e.try_exec {
        Some(t) => {
            let a = command_args(t@, desktop_path, name, found);
            if a.len() > 0 {
                Some(a[0])
            } else {
                None
            }
        },
        None => None,
    }
}

/// The file whose existence decides the icon: the entry's `Icon` value,
/// when the icon theme lookup gave an empty path and the entry has an
/// `Exec`.
pub open spec fn icon_file_to_check_spec(e: DesktopEntryInfo, found: Option<Seq<char>>) -> Option<
    Seq<char>,
> {
    if (found matches Some(x) && x.len() == 0) && e.command is Some {
        opt_view(e.icon)
    } else {
        None
    }
}

/// The program to look for on the `PATH` before making a launcher of the
/// entry (see `try_exec_program_spec`).
pub fn try_exec_program(
    e: &DesktopEntryInfo,
    name: &str,
    desktop_path: &str,
    found: &Option<String>,
) -> (r: Option<String>)
    ensures
        opt_view(r) == try_exec_program_spec(*e, name@, desktop_path@, opt_view(*found)),
{
    match &e.try_exec {
        Some(t) => {
            let mut a = command_args_of(t.as_str(), desktop_path, name, found);
            if a.len() > 0 {
                assert(views(a@)[0] == a@[0]@);
                Some(a.swap_remove(0))
            } else {
                None
            }
        },
        None => None,
    }
}

/// The file to check for existence when choosing the launcher's icon (see
/// `icon_file_to_check_spec`).
pub fn icon_file_to_check(e: &DesktopEntryInfo, found: &Option<String>) -> (r: Option<String>)
    ensures
        opt_view(r) == icon_file_to_check_spec(*e, opt_view(*found)),
{
    match found {
        Some(x) => {
            if x.as_str().is_empty() && e.command.is_some() {
                e.icon.clone()
            } else {
                None
            }
        },
        None => None,
    }
}

/// The launcher of the shown entry `name` read from `desktop_path`, given
/// what the icon theme lookup found. It looks for the program
/// `try_exec_program` names on the `PATH`, and checks whether the file
/// `icon_file_to_check` names exists, each only when there is one; then it
/// decides as `plan_spec` says for whatever those answers were. Where a
/// lookup is not made, its answer counts as found (the program) or absent
/// (the file).
pub fn prepare_launcher(
    e: &DesktopEntryInfo,
    name: &str,
    desktop_path: &str,
    found: &Option<String>,
) -> (r: Option<LauncherPlan>)
    requires
        (found matches Some(x) && x@.len() == 0) ==> e.icon is Some,
    ensures
        exists|program_found: bool, icon_name_exists: bool|
            {
                &&& opt_plan_view(r) == plan_spec(
                    *e,
                    name@,
                    desktop_path@,
                    opt_view(*found),
                    program_found,
                    icon_name_exists,
                )
                &&& try_exec_program_spec(*e, name@, desktop_path@, opt_view(*found)) is None
                    ==> program_found
                &&& icon_file_to_check_spec(*e, opt_view(*found)) is None ==> !icon_name_exists
            },
{
    let mut program_found = true;
    if let Some(program) = try_exec_program(e, name, desktop_path, found) {
        program_found = program_on_path(program.as_str());
        if !program_found {
            return plan_launcher(e, name, desktop_path, found, false, false);
        }
    }
    let mut icon_name_exists = false;
    if let Some(file) = icon_file_to_check(e, found) {
        icon_name_exists = path_exists(file.as_str());
    }
    plan_launcher(e, name, desktop_path, found, program_found, icon_name_exists)
}

/// Law: an entry whose `TryExec` expands to a program that was not found
/// gets no launcher, whatever else it holds.
pub proof fn law_missing_try_exec_program_skips(
    e: DesktopEntryInfo,
    name: Seq<char>,
    desktop_path: Seq<char>,
    found: Option<Seq<char>>,
    program_found: bool,
    icon_name_exists: bool,
)
    requires
        e.try_exec is Some,
        command_args(e.try_exec->0@, desktop_path, name, found).len() > 0,
        !program_found,
    ensures
        plan_spec(e, name, desktop_path, found, program_found, icon_name_exists) is None,
{
}

/// Law: an entry without `Exec` gets no launcher.
pub proof fn law_exec_required(
    e: DesktopEntryInfo,
    name: Seq<char>,
    desktop_path: Seq<char>,
    found: Option<Seq<char>>,
    program_found: bool,
    icon_name_exists: bool,
)
    requires
        e.command is None,
    ensures
        plan_spec(e, name, desktop_path, found, program_found, icon_name_exists) is None,
{
}

/// Law: an entry with `Exec` whose `TryExec` is absent, names no program,
/// or names one that was found, gets a launcher running its `Exec` line,
/// with its startup settings and working directory.
pub proof fn law_launcher_runs_exec(
    e: DesktopEntryInfo,
    name: Seq<char>,
    desktop_path: Seq<char>,
    found: Option<Seq<char>>,
    program_found: bool,
    icon_name_exists: bool,
)
    requires
        e.command is Some,
        e.try_exec is None || program_found || command_args(e.try_exec->0@, desktop_path, name, found).len()
            == 0,
    ensures
        plan_spec(e, name, desktop_path, found, program_found, icon_name_exists) matches Some(p) && {
            &&& p.args == command_args(e.command->0@, desktop_path, name, found)
            &&& p.startup_notify == e.startup_notify
            &&& p.startup_wm_class == opt_view(e.startup_wm_class)
            &&& p.working_directory == opt_view(e.path)
        },
{
}

/// Law: the icon of a launcher is the one the theme lookup found when it
/// found a non-empty path; after an empty path, the `Icon` value when that
/// file exists; `printer.png` otherwise.
pub proof fn law_icon_choice(
    e: DesktopEntryInfo,
    name: Seq<char>,
    desktop_path: Seq<char>,
    found: Option<Seq<char>>,
    program_found: bool,
    icon_name_exists: bool,
)
    requires
        plan_spec(e, name, desktop_path, found, program_found, icon_name_exists) is Some,
    ensures
        ({
            let icon = plan_spec(e, name, desktop_path, found, program_found, icon_name_exists)->0.icon_path;
            let printer = seq!['p', 'r', 'i', 'n', 't', 'e', 'r', '.', 'p', 'n', 'g'];
            &&& (found is Some && found->0.len() > 0) ==> icon == found->0
            &&& found is None ==> icon == printer
            &&& (found is Some && found->0.len() == 0 && icon_name_exists && e.icon is Some) ==> icon
                == e.icon->0@
            &&& (found is Some && found->0.len() == 0 && !icon_name_exists) ==> icon == printer
        }),
{
    assert(fallback_icon() =~= seq!['p', 'r', 'i', 'n', 't', 'e', 'r', '.', 'p', 'n', 'g']);
}

} // verus!
