use vstd::prelude::*;
use vstd::string::StringExecFns;
use vstd::utf8::encode_utf8;

use crate::entry::opt_view;
use crate::plan::LauncherPlan;
use crate::text::{chars_of, string_from_chars, views};

verus! {

broadcast use vstd::string::group_string_axioms;

/// A launcher on the dock: the icon window that answers clicks and what to
/// run then.
pub struct Launcher {
    pub icon_window_id: u32,
    pub args: Vec<String>,
    pub startup_notify: Option<bool>,
    pub startup_wm_class: Option<String>,
    pub working_directory: Option<String>,
}

impl Launcher {
    /// The launcher whose icon window is `icon_window_id`, made from `plan`.
    pub fn new(icon_window_id: u32, plan: LauncherPlan) -> (r: Launcher)
        ensures
            r.icon_window_id == icon_window_id,
            views(r.args@) == plan@.args,
            r.startup_notify == plan.startup_notify,
            opt_view(r.startup_wm_class) == plan@.startup_wm_class,
            opt_view(r.working_directory) == plan@.working_directory,
    {
        Launcher {
            icon_window_id,
            args: plan.args,
            startup_notify: plan.startup_notify,
            startup_wm_class: plan.startup_wm_class,
            working_directory: plan.working_directory,
        }
    }
}

/// The first launcher whose icon window is `window`.
pub open spec fn first_launcher(launchers: Seq<Launcher>, window: u32) -> Option<int> {
    if exists|i: int| 0 <= i < launchers.len() && launchers[i].icon_window_id == window {
        Some(
            choose|i: int|
                0 <= i < launchers.len() && launchers[i].icon_window_id == window && forall|j: int|
                    0 <= j < i ==> launchers[j].icon_window_id != window,
        )
    } else {
        None
    }
}

/// The position of the first launcher whose icon window is `window`.
pub fn find_launcher(launchers: &Vec<Launcher>, window: u32) -> (r: Option<usize>)
    ensures
        match r {
            Some(i) => i < launchers@.len() && launchers@[i as int].icon_window_id == window
                && forall|j: int| 0 <= j < i ==> launchers@[j].icon_window_id != window,
            None => forall|j: int| 0 <= j < launchers@.len() ==> launchers@[j].icon_window_id != window,
        },
{
    let mut i: usize = 0;
    while i < launchers.len()
        invariant
            i <= launchers@.len(),
            forall|j: int| 0 <= j < i ==> launchers@[j].icon_window_id != window,
        decreases launchers@.len() - i,
    {
        if launchers[i].icon_window_id == window {
            return Some(i);
        }
        i = i + 1;
    }
    None
}

/// The character of decimal digit `d`.
pub open spec fn digit_char(d: int) -> char {
    (48 + d) as char
}

/// `n` in decimal, as `{}` prints an unsigned integer.
pub open spec fn decimal_spec(n: nat) -> Seq<char>
    decreases n,
{
    if n < 10 {
        seq![digit_char(n as int)]
    } else {
        decimal_spec(n / 10).push(digit_char((n % 10) as int))
    }
}

/// The number that decimal digits stand for.
pub open spec fn digits_value(s: Seq<char>) -> int
    decreases s.len(),
{
    if s.len() == 0 {
        0
    } else {
        digits_value(s.drop_last()) * 10 + (s.last() as int - 48)
    }
}

/// Law: the decimal text of `n` is made of digits, has no leading zero
/// unless it is `0`, and stands for `n`.
pub proof fn lemma_decimal(n: nat)
    ensures
        decimal_spec(n).len() >= 1,
        forall|i: int| 0 <= i < decimal_spec(n).len() ==> 48 <= (#[trigger] decimal_spec(n)[i]) as int <= 57,
        n > 0 ==> decimal_spec(n)[0] != '0',
        digits_value(decimal_spec(n)) == n,
    decreases n,
{
    if n < 10 {
        assert(digit_char(n as int) as int == 48 + n);
        let s = decimal_spec(n);
        assert(s.drop_last() =~= Seq::<char>::empty());
        assert(digits_value(s) == digits_value(s.drop_last()) * 10 + (s.last() as int - 48));
    } else {
        lemma_decimal(n / 10);
        let d = (n % 10) as int;
        assert(digit_char(d) as int == 48 + d);
        let s = decimal_spec(n);
        assert(s.drop_last() == decimal_spec(n / 10));
        assert forall|i: int| 0 <= i < s.len() implies 48 <= (#[trigger] s[i]) as int <= 57 by {
            if i < s.len() - 1 {
                assert(s[i] == decimal_spec(n / 10)[i]);
            }
        }
        assert(s[0] == decimal_spec(n / 10)[0]);
        assert(s.last() == digit_char(d));
        assert(digits_value(s) == digits_value(decimal_spec(n / 10)) * 10 + d);
        assert(n == (n / 10) * 10 + d);
    }
}

/// Appends `n` in decimal to `out`.
fn push_decimal(out: &mut Vec<char>, n: u32)
    ensures
        final(out)@ == old(out)@ + decimal_spec(n as nat),
    decreases n,
{
    if n >= 10 {
        push_decimal(out, n / 10);
    }
    let d: u8 = (n % 10) as u8;
    let c: char = (48u8 + d) as char;
    assert(c == digit_char(d as int));
    out.push(c);
    assert(out@ =~= old(out)@ + decimal_spec(n as nat));
}

/// Appends the characters of `s` to `out`.
fn push_str(out: &mut Vec<char>, s: &str)
    ensures
        final(out)@ == old(out)@ + s@,
{
    let c = chars_of(s);
    let mut i: usize = 0;
    while i < c.len()
        invariant
            i <= c@.len(),
            c@ == s@,
            out@ == old(out)@ + c@.take(i as int),
        decreases c@.len() - i,
    {
        out.push(c[i]);
        assert(c@.take(i + 1) =~= c@.take(i as int).push(c@[i as int]));
        i = i + 1;
    }
    assert(c@.take(c@.len() as int) =~= c@);
}

/// `DESKTOP_STARTUP_ID=`.
pub open spec fn startup_id_key() -> Seq<char> {
    seq!['D', 'E', 'S', 'K', 'T', 'O', 'P', '_', 'S', 'T', 'A', 'R', 'T', 'U', 'P', '_', 'I', 'D', '=']
}

/// `+_TIME`.
pub open spec fn time_marker() -> Seq<char> {
    seq!['+', '_', 'T', 'I', 'M', 'E']
}

/// The environment setting that announces a launch to the startup
/// notification protocol: `DESKTOP_STARTUP_ID=<host>+<pid>+_TIME<time>`,
/// where `<host>` is the host name as `{:?}` prints it.
pub open spec fn startup_id_text(host_debug: Seq<char>, pid: nat, time: nat) -> Seq<char> {
    startup_id_key() + host_debug + seq!['+'] + decimal_spec(pid) + time_marker() + decimal_spec(time)
}

/// The most bytes the startup setting may take.
pub open spec fn startup_id_capacity() -> nat {
    280
}

/// The startup notification setting (see `startup_id_text`), or `None` when
/// its UTF-8 encoding is longer than the 280-byte buffer it is written to.
pub fn startup_notification_id(host_debug: &str, pid: u32, time: u32) -> (r: Option<String>)
    ensures
        match r {
            Some(s) => s@ == startup_id_text(host_debug@, pid as nat, time as nat)
                && encode_utf8(s@).len() <= startup_id_capacity(),
            None => encode_utf8(startup_id_text(host_debug@, pid as nat, time as nat)).len()
                > startup_id_capacity(),
        },
{
    let mut out: Vec<char> = Vec::new();
    proof {
        reveal_strlit("DESKTOP_STARTUP_ID=");
        reveal_strlit("+");
        reveal_strlit("+_TIME");
    }
    push_str(&mut out, "DESKTOP_STARTUP_ID=");
    push_str(&mut out, host_debug);
    push_str(&mut out, "+");
    push_decimal(&mut out, pid);
    push_str(&mut out, "+_TIME");
    push_decimal(&mut out, time);
    assert(out@ =~= startup_id_text(host_debug@, pid as nat, time as nat));
    let s = string_from_chars(out.as_slice());
    if s.as_str().as_bytes().len() <= 280 {
        Some(s)
    } else {
        None
    }
}

/// A program to start: `program` with `args`, in `working_directory` when
/// there is one; with startup notification at `startup_time` when that is
/// set.
pub struct LaunchCommand {
    pub program: String,
    pub args: Vec<String>,
    pub working_directory: Option<String>,
    pub startup_time: Option<u32>,
}

/// What the dock does about a released mouse button.
pub enum ClickAction {
    /// Nothing: it was not the first button.
    Ignore,
    /// Start a program.
    Launch(LaunchCommand),
}

/// The plain values of a `ClickAction`.
pub enum ClickView {
    Ignore,
    Launch {
        program: Seq<char>,
        args: Seq<Seq<char>>,
        working_directory: Option<Seq<char>>,
        startup_time: Option<u32>,
    },
}

/// The view of a `ClickAction`.
pub open spec fn click_view(a: ClickAction) -> ClickView {
    match a {
        ClickAction::Ignore => ClickView::Ignore,
        ClickAction::Launch(c) => ClickView::Launch {
            program: c.program@,
            args: views(c.args@),
            working_directory: opt_view(c.working_directory),
            startup_time: c.startup_time,
        },
    }
}

/// The program every launch goes through.
pub open spec fn env_program() -> Seq<char> {
    seq!['e', 'n', 'v']
}

/// The answer to releasing button `detail` over `window` at `time`: the
/// first button starts, through `env`, the program of the first launcher
/// whose icon window that is, in its working directory, with startup
/// notification at `time` when the entry asks for it.
pub open spec fn click_spec(launchers: Seq<Launcher>, detail: u8, window: u32, time: u32) -> ClickView {
    if detail != 1 {
        ClickView::Ignore
    } else {
        let l = launchers[first_launcher(launchers, window)->0];
        ClickView::Launch {
            program: env_program(),
            args: views(l.args@),
            working_directory: opt_view(l.working_directory),
            startup_time: if l.startup_notify == Some(true) {
                Some(time)
            } else {
                None
            },
        }
    }
}

/// Decides what to do when mouse button `detail` is released over
/// `window` at `time` (see `click_spec`). The first button must be released
/// over some launcher's icon window.
pub fn handle_click(launchers: &Vec<Launcher>, detail: u8, window: u32, time: u32) -> (r: ClickAction)
    requires
        detail == 1 ==> exists|i: int| 0 <= i < launchers@.len() && launchers@[i].icon_window_id == window,
    ensures
        click_view(r) == click_spec(launchers@, detail, window, time),
{
    if detail != 1 {
        return ClickAction::Ignore;
    }
    let i = match find_launcher(launchers, window) {
        Some(i) => i,
        None => {
            proof {
                let k = choose|k: int| 0 <= k < launchers@.len() && launchers@[k].icon_window_id == window;
                assert(launchers@[k].icon_window_id != window);
            }
            return ClickAction::Ignore;
        },
    };
    proof {
        let j = first_launcher(launchers@, window)->0;
        assert(0 <= i < launchers@.len() && launchers@[i as int].icon_window_id == window);
        if j < i {
            assert(launchers@[j].icon_window_id != window);
        } else if i < j {
            assert(launchers@[i as int].icon_window_id != window);
        }
        assert(j == i);
    }
    let l = &launchers[i];
    proof {
        reveal_strlit("env");
    }
    let program = String::from_str("env");
    assert(program@ =~= env_program());
    let startup_time = match l.startup_notify {
        Some(true) => Some(time),
        _ => None,
    };
    ClickAction::Launch(
        LaunchCommand {
            program,
            args: l.args.clone(),
            working_directory: l.working_directory.clone(),
            startup_time,
        },
    )
}

/// The arguments handed to the program of a launch: with startup
/// notification, the startup setting (see `startup_id_text`) before the
/// command's own arguments, or none when it does not fit its 280-byte
/// buffer; otherwise the command's arguments.
pub open spec fn exec_args_spec(
    args: Seq<Seq<char>>,
    startup_time: Option<u32>,
    host_debug: Seq<char>,
    pid: u32,
) -> Option<Seq<Seq<char>>> {
    match startup_time {
        None => Some(args),
        Some(t) => {
            let id = startup_id_text(host_debug, pid as nat, t as nat);
            if encode_utf8(id).len() > startup_id_capacity() {
                None
            } else {
                Some(seq![id] + args)
            }
        },
    }
}

/// The optional view of a list of strings.
pub open spec fn opt_views(o: Option<Vec<String>>) -> Option<Seq<Seq<char>>> {
    match o {
        Some(v) => Some(views(v@)),
        None => None,
    }
}

/// The arguments to hand to `command`'s program (see `exec_args_spec`),
/// computed in the started process: `host_debug` is the host name as `{:?}`
/// prints it and `pid` the started process's id.
pub fn exec_arguments(command: &LaunchCommand, host_debug: &str, pid: u32) -> (r: Option<Vec<String>>)
    ensures
        opt_views(r) == exec_args_spec(views(command.args@), command.startup_time, host_debug@, pid),
{
    match command.startup_time {
        None => Some(command.args.clone()),
        Some(time) => match startup_notification_id(host_debug, pid, time) {
            Some(id) => {
                let ghost id_v = id@;
                let mut args: Vec<String> = Vec::new();
                args.push(id);
                let mut k: usize = 0;
                while k < command.args.len()
                    invariant
                        k <= command.args@.len(),
                        views(args@) == seq![id_v] + views(command.args@).take(k as int),
                    decreases command.args@.len() - k,
                {
                    let ghost before = args@;
                    let a = command.args[k].clone();
                    args.push(a);
                    assert(args@ == before.push(a));
                    assert(views(args@) =~= views(before).push(command.args@[k as int]@));
                    assert(views(command.args@).take(k + 1) =~= views(command.args@).take(k as int).push(
                        command.args@[k as int]@,
                    ));
                    assert(views(args@) =~= seq![id_v] + views(command.args@).take(k + 1));
                    k = k + 1;
                }
                assert(views(command.args@).take(command.args@.len() as int) =~= views(command.args@));
                Some(args)
            },
            None => None,
        },
    }
}

/// Law: a released button other than the first does nothing.
pub proof fn law_other_buttons_ignored(launchers: Seq<Launcher>, detail: u8, window: u32, time: u32)
    requires
        detail != 1,
    ensures
        click_spec(launchers, detail, window, time) is Ignore,
{
}

/// Law: releasing the first button over the icon window of launcher `i`
/// (the first with that window) runs its arguments through `env` in its
/// working directory, with startup notification at the click's time
/// exactly when the entry says `StartupNotify=true`.
pub proof fn law_click_launches(launchers: Seq<Launcher>, window: u32, time: u32, i: int)
    requires
        0 <= i < launchers.len(),
        launchers[i].icon_window_id == window,
        forall|j: int| 0 <= j < i ==> launchers[j].icon_window_id != window,
    ensures
        click_spec(launchers, 1, window, time) matches ClickView::Launch {
            program,
            args,
            working_directory,
            startup_time,
        } && {
            &&& program == seq!['e', 'n', 'v']
            &&& args == views(launchers[i].args@)
            &&& working_directory == opt_view(launchers[i].working_directory)
            &&& launchers[i].startup_notify == Some(true) ==> startup_time == Some(time)
            &&& launchers[i].startup_notify == Some(false) ==> startup_time is None
            &&& launchers[i].startup_notify is None ==> startup_time is None
        },
{
    let k = first_launcher(launchers, window)->0;
    assert(0 <= k < launchers.len() && launchers[k].icon_window_id == window && forall|j: int|
        0 <= j < k ==> launchers[j].icon_window_id != window);
    if k < i {
        assert(launchers[k].icon_window_id != window);
    } else if i < k {
        assert(launchers[i].icon_window_id != window);
    }
}

} // verus!
