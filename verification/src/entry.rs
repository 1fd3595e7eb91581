use vstd::prelude::*;
use vstd::string::StringExecFns;

use crate::text::{chars_of, split_on, split_spec, views};

verus! {

broadcast use vstd::string::group_string_axioms;

/// What the dock reads of a desktop entry file's `[Desktop Entry]` group.
pub struct DesktopEntryInfo {
    /// `Name`, in the user's language where the file has it.
    pub name: Option<String>,
    /// `Hidden`.
    pub hidden: Option<bool>,
    /// `NoDisplay`.
    pub no_display: Option<bool>,
    /// How many desktops `OnlyShowIn` lists, when the key is there.
    pub only_show_in: Option<usize>,
    /// `Icon`.
    pub icon: Option<String>,
    /// `TryExec`.
    pub try_exec: Option<String>,
    /// `Exec`.
    pub command: Option<String>,
    /// `Path`: the working directory of the program.
    pub path: Option<String>,
    /// `StartupNotify`.
    pub startup_notify: Option<bool>,
    /// `StartupWMClass`.
    pub startup_wm_class: Option<String>,
}

/// The view of an optional string.
pub open spec fn opt_view(o: Option<String>) -> Option<Seq<char>> {
    match o {
        Some(s) => Some(s@),
        None => None,
    }
}

/// An entry is shown unless it is `Hidden`, `NoDisplay`, or restricted to
/// some desktops by `OnlyShowIn`.
pub open spec fn shown(e: DesktopEntryInfo) -> bool {
    &&& e.hidden != Some(true)
    &&& e.no_display != Some(true)
    &&& !(e.only_show_in matches Some(n) && n > 0)
}

/// Whether the dock shows a launcher for the entry at all (see `shown`).
pub fn is_shown(e: &DesktopEntryInfo) -> (r: bool)
    ensures
        r == shown(*e),
{
    if let Some(true) = e.hidden {
        return false;
    }
    if let Some(true) = e.no_display {
        return false;
    }
    match e.only_show_in {
        Some(n) => n == 0,
        None => true,
    }
}

/// `%` followed by `c`.
pub open spec fn field_code(c: char) -> Seq<char> {
    seq!['%', c]
}

/// Field codes of an `Exec` line that the dock drops: the file and URL
/// codes (it passes no files) and the deprecated ones.
pub open spec fn dropped_code(w: Seq<char>) -> bool {
    w.len() == 2 && w[0] == '%' && (w[1] == 'F' || w[1] == 'f' || w[1] == 'u' || w[1] == 'U'
        || w[1] == 'd' || w[1] == 'D' || w[1] == 'n' || w[1] == 'N' || w[1] == 'v' || w[1] == 'm')
}

/// The option that announces an icon to a program.
pub open spec fn icon_option() -> Seq<char> {
    seq!['-', '-', 'i', 'c', 'o', 'n']
}

/// The arguments that one word of an `Exec` line stands for: dropped codes
/// stand for nothing, `%k` for the desktop file's path, `%c` for the
/// entry's name, `%i` for `--icon` and the icon found (empty when none was),
/// any other word for itself.
pub open spec fn expand_word(w: Seq<char>, desktop_path: Seq<char>, name: Seq<char>, icon: Seq<char>) -> Seq<Seq<char>> {
    if dropped_code(w) {
        Seq::<Seq<char>>::empty()
    } else if w == field_code('k') {
        seq![desktop_path]
    } else if w == field_code('c') {
        seq![name]
    } else if w == field_code('i') {
        seq![icon_option(), icon]
    } else {
        seq![w]
    }
}

/// The arguments that a list of words stands for, word after word.
pub open spec fn expand_words(
    words: Seq<Seq<char>>,
    desktop_path: Seq<char>,
    name: Seq<char>,
    icon: Seq<char>,
) -> Seq<Seq<char>>
    decreases words.len(),
{
    if words.len() == 0 {
        Seq::<Seq<char>>::empty()
    } else {
        expand_words(words.drop_last(), desktop_path, name, icon) + expand_word(
            words.last(),
            desktop_path,
            name,
            icon,
        )
    }
}

/// Whether `w` is one of the field codes an `Exec` line may hold.
pub open spec fn is_field_code(w: Seq<char>) -> bool {
    dropped_code(w) || w == field_code('k') || w == field_code('c') || w == field_code('i')
}

/// Law: words that are no field codes stand for themselves, so a line
/// without field codes gives its words unchanged.
pub proof fn lemma_plain_words(words: Seq<Seq<char>>, desktop_path: Seq<char>, name: Seq<char>, icon: Seq<char>)
    requires
        forall|i: int| 0 <= i < words.len() ==> !is_field_code(#[trigger] words[i]),
    ensures
        expand_words(words, desktop_path, name, icon) == words,
    decreases words.len(),
{
    if words.len() > 0 {
        lemma_plain_words(words.drop_last(), desktop_path, name, icon);
        assert(!is_field_code(words[words.len() - 1]));
        assert(words =~= words.drop_last().push(words.last()));
        assert(expand_words(words, desktop_path, name, icon) =~= words.drop_last() + seq![words.last()]);
    }
}

/// The text of an optional icon, empty when there is none.
pub open spec fn icon_text(icon: Option<Seq<char>>) -> Seq<char> {
    match icon {
        Some(s) => s,
        None => Seq::<char>::empty(),
    }
}

/// The arguments of a command line: the line is cut at each space (two
/// spaces in a row give an empty word) and each word expanded.
pub open spec fn command_args(
    command_line: Seq<char>,
    desktop_path: Seq<char>,
    name: Seq<char>,
    icon: Option<Seq<char>>,
) -> Seq<Seq<char>> {
    expand_words(split_spec(command_line, ' '), desktop_path, name, icon_text(icon))
}

/// Turns the `Exec` (or `TryExec`) line of the entry `name`, read from the
/// file at `desktop_path`, into the arguments of the program to run.
pub fn command_args_of(
    command_line: &str,
    desktop_path: &str,
    name: &str,
    icon: &Option<String>,
) -> (r: Vec<String>)
    ensures
        views(r@) == command_args(command_line@, desktop_path@, name@, opt_view(*icon)),
{
    let words = split_on(command_line, ' ');
    let ghost wv = views(words@);
    let ghost icon_v = icon_text(opt_view(*icon));
    let mut out: Vec<String> = Vec::new();
    let mut i: usize = 0;
    while i < words.len()
        invariant
            wv == views(words@),
            wv == split_spec(command_line@, ' '),
            icon_v == icon_text(opt_view(*icon)),
            i <= words@.len(),
            views(out@) == expand_words(wv.take(i as int), desktop_path@, name@, icon_v),
        decreases words@.len() - i,
    {
        proof {
            assert(wv.take(i + 1).drop_last() =~= wv.take(i as int));
            assert(wv.take(i + 1).last() == words@[i as int]@);
        }
        let w = &words[i];
        let c = chars_of(w.as_str());
        let ghost before = views(out@);
        if c.len() == 2 && c[0] == '%' && (c[1] == 'F' || c[1] == 'f' || c[1] == 'u' || c[1] == 'U'
            || c[1] == 'd' || c[1] == 'D' || c[1] == 'n' || c[1] == 'N' || c[1] == 'v' || c[1] == 'm') {
            assert(views(out@) =~= before + Seq::<Seq<char>>::empty());
        } else if c.len() == 2 && c[0] == '%' && c[1] == 'k' {
            assert(w@ =~= field_code('k'));
            out.push(desktop_path.to_owned());
            assert(views(out@) =~= before + seq![desktop_path@]);
        } else if c.len() == 2 && c[0] == '%' && c[1] == 'c' {
            assert(w@ =~= field_code('c'));
            out.push(name.to_owned());
            assert(views(out@) =~= before + seq![name@]);
        } else if c.len() == 2 && c[0] == '%' && c[1] == 'i' {
            assert(w@ =~= field_code('i'));
            proof {
                reveal_strlit("--icon");
            }
            let option = String::from_str("--icon");
            assert(option@ =~= icon_option());
            out.push(option);
            let shown_icon = match icon {
                Some(s) => s.clone(),
                None => String::new(),
            };
            assert(shown_icon@ == icon_v);
            out.push(shown_icon);
            assert(views(out@) =~= before + seq![icon_option(), icon_v]);
        } else {
            proof {
                if w@ == field_code('k') || w@ == field_code('c') || w@ == field_code('i') {
                    assert(c@[1] == w@[1]);
                }
            }
            out.push(w.clone());
            assert(views(out@) =~= before + seq![w@]);
        }
        i = i + 1;
    }
    assert(wv.take(words@.len() as int) =~= wv);
    out
}

/// Law: only `Hidden=true`, `NoDisplay=true` or an `OnlyShowIn` that lists
/// some desktop leave an entry out; any entry without these is shown.
pub proof fn law_shown_unless_excluded(e: DesktopEntryInfo)
    ensures
        e.hidden == Some(true) ==> !shown(e),
        e.no_display == Some(true) ==> !shown(e),
        (e.only_show_in matches Some(n) && n > 0) ==> !shown(e),
        (e.hidden is None || e.hidden == Some(false)) && (e.no_display is None || e.no_display == Some(
            false,
        )) && (e.only_show_in is None || e.only_show_in == Some(0usize)) ==> shown(e),
{
}

/// Law: a `Hidden` or `NoDisplay` key set to false counts as if it were
/// absent.
pub proof fn law_false_keys_are_absent(e: DesktopEntryInfo)
    ensures
        shown(DesktopEntryInfo { hidden: Some(false), ..e }) == shown(DesktopEntryInfo { hidden: None, ..e }),
        shown(DesktopEntryInfo { no_display: Some(false), ..e }) == shown(
            DesktopEntryInfo { no_display: None, ..e },
        ),
{
}

} // verus!
