use vstd::prelude::*;

use crate::adapters::{is_wifi_lowered, names_wifi};
use crate::config::{opt_text, path_parent, spec_path_parent};
use crate::text::{
    decimal, lowercase, owned, push_decimal, push_str, spec_lowercase, trim, trimmed,
};

verus! {

/// The file, beside the program, in which the console launcher keeps the game's path.
pub const CONFIG_FILE: &'static str = "blur.config";

/// The saved game path from the text of the settings file (absent when the file is
/// missing or unreadable): the text without surrounding white space.
pub fn load_config(contents: Option<String>) -> (p: Option<String>)
    ensures
        opt_text(p) == match contents {
            Some(c) => Some(trimmed(c@)),
            None => None,
        },
{
    match contents {
        Some(c) => Some(trim(c.as_str())),
        None => None,
    }
}

/// How the console launcher finds the game.
#[derive(Debug)]
pub enum GamePathChoice {
    /// The saved path names an existing file: use it.
    UseSaved(String),
    /// Ask the user; first log this line, if any.
    Prompt(Option<String>),
}

/// Finds the game from the saved path: a saved path whose file exists is used;
/// otherwise the user is asked, after a log line naming a saved path that no longer exists.
pub fn get_game_path(saved: Option<String>, saved_exists: bool) -> (c: GamePathChoice)
    ensures
        match saved {
            Some(p) => if saved_exists {
                c matches GamePathChoice::UseSaved(q) && q@ == p@
            } else {
                c matches GamePathChoice::Prompt(Some(line)) && line@ == "Saved path not found: "@
                    + p@
            },
            None => c matches GamePathChoice::Prompt(None),
        },
{
    match saved {
        Some(p) => if saved_exists {
            GamePathChoice::UseSaved(p)
        } else {
            let mut line = owned("Saved path not found: ");
            push_str(&mut line, p.as_str());
            GamePathChoice::Prompt(Some(line))
        },
        None => GamePathChoice::Prompt(None),
    }
}

/// A UTF-16 code unit that starts a surrogate pair.
pub open spec fn is_high_surrogate(u: u16) -> bool {
    0xD800 <= u <= 0xDBFF
}

/// A UTF-16 code unit that ends a surrogate pair.
pub open spec fn is_low_surrogate(u: u16) -> bool {
    0xDC00 <= u <= 0xDFFF
}

/// The lossy decoding of UTF-16 code units: a high surrogate followed by a low one
/// stands for the character they encode together, any other surrogate (an unpaired
/// one) becomes U+FFFD, and every other unit is the character of that value.
pub open spec fn utf16_lossy_text(units: Seq<u16>) -> Seq<char>
    decreases units.len(),
{
    if units.len() == 0 {
        Seq::empty()
    } else if units.len() >= 2 && is_high_surrogate(units[0]) && is_low_surrogate(units[1]) {
        seq![(0x10000 + (units[0] - 0xD800) * 0x400 + (units[1] - 0xDC00)) as char]
            + utf16_lossy_text(units.subrange(2, units.len() as int))
    } else if is_high_surrogate(units[0]) || is_low_surrogate(units[0]) {
        seq!['\u{FFFD}'] + utf16_lossy_text(units.drop_first())
    } else {
        seq![units[0] as char] + utf16_lossy_text(units.drop_first())
    }
}

/// Calls `String::from_utf16_lossy`, which decodes UTF-16 and replaces each unpaired
/// surrogate with U+FFFD, as `utf16_lossy_text` states.
#[verifier::external_body]
fn utf16_lossy(units: &[u16]) -> (s: String)
    ensures
        s@ == utf16_lossy_text(units@),
{
    String::from_utf16_lossy(units)
}

/// The text without its trailing NUL characters.
pub open spec fn without_trailing_nuls(s: Seq<char>) -> Seq<char>
    decreases s.len(),
{
    if s.len() > 0 && s.last() == '\0' {
        without_trailing_nuls(s.drop_last())
    } else {
        s
    }
}

/// The text without its trailing NUL characters, as `trim_end_matches('\0')` gives it.
pub fn trim_trailing_nuls(s: &str) -> (r: String)
    ensures
        r@ == without_trailing_nuls(s@),
{
    let v = crate::text::chars_of(s);
    let mut b: usize = v.len();
    assert(s@.take(b as int) =~= s@);
    while b > 0 && v[b - 1] == '\0'
        invariant
            v@ == s@,
            b <= s@.len(),
            without_trailing_nuls(s@) == without_trailing_nuls(s@.take(b as int)),
        decreases b,
    {
        assert(s@.take(b as int).drop_last() =~= s@.take(b - 1));
        b = b - 1;
    }
    let mut r = String::new();
    let mut i: usize = 0;
    while i < b
        invariant
            v@ == s@,
            b <= s@.len(),
            i <= b,
            r@ == s@.take(i as int),
        decreases b - i,
    {
        r.push(v[i]);
        assert(s@.take(i + 1) =~= s@.take(i as int).push(v@[i as int]));
        i = i + 1;
    }
    assert(s@.take(b as int).len() == 0 || s@.take(b as int).last() != '\0');
    r
}

/// A network interface as the console launcher sees it.
#[derive(Clone, Debug)]
pub struct InterfaceEntry {
    pub name: String,
    pub friendly_name: String,
    pub enabled: bool,
}

/// The `dwOperStatus` value that the launcher counts as "enabled": 1, which Windows
/// names `IF_OPER_STATUS_UNREACHABLE` (its operational status is 5). Every other
/// value counts as disabled.
pub const ENABLED_OPER_STATUS: u32 = 1;

/// The name an interface is shown under: `Interface #` and its index.
pub open spec fn interface_label(index: u32) -> Seq<char> {
    "Interface #"@ + decimal(index as nat)
}

/// The interface from one row of the interface table: its name (the UTF-16 name field
/// decoded, without the trailing NULs), the name it is shown under, and whether it
/// counts as enabled (`ENABLED_OPER_STATUS`).
pub fn interface_entry(wsz_name: &[u16], index: u32, oper_status: u32) -> (e: InterfaceEntry)
    ensures
        e.name@ == without_trailing_nuls(utf16_lossy_text(wsz_name@)),
        e.friendly_name@ == interface_label(index),
        e.enabled == (oper_status == ENABLED_OPER_STATUS),
{
    let raw = utf16_lossy(wsz_name);
    let name = trim_trailing_nuls(raw.as_str());
    let mut friendly = owned("Interface #");
    push_decimal(&mut friendly, index as u64);
    InterfaceEntry { name, friendly_name: friendly, enabled: oper_status == ENABLED_OPER_STATUS }
}

/// The interfaces to turn off: the enabled ones whose shown name does not name a
/// wireless adapter, by shown name, in order.
pub open spec fn to_disable(v: Seq<InterfaceEntry>) -> Seq<Seq<char>>
    decreases v.len(),
{
    if v.len() == 0 {
        Seq::empty()
    } else {
        let before = to_disable(v.drop_last());
        let e = v.last();
        if !names_wifi(spec_lowercase(e.friendly_name@)) && e.enabled {
            before.push(e.friendly_name@)
        } else {
            before
        }
    }
}

/// The interfaces to turn on again: the ones not enabled, by shown name, in order.
pub open spec fn to_enable(v: Seq<InterfaceEntry>) -> Seq<Seq<char>>
    decreases v.len(),
{
    if v.len() == 0 {
        Seq::empty()
    } else {
        let before = to_enable(v.drop_last());
        let e = v.last();
        if !e.enabled {
            before.push(e.friendly_name@)
        } else {
            before
        }
    }
}

/// The log lines that name what is done with each interface of a selection.
pub open spec fn selection_log(
    heading: Seq<char>,
    none: Seq<char>,
    verb: Seq<char>,
    names: Seq<Seq<char>>,
) -> Seq<Seq<char>> {
    if names.len() == 0 {
        seq![heading, none]
    } else {
        seq![heading] + names.map_values(|n: Seq<char>| verb + n)
    }
}

/// The texts of a list of strings.
pub open spec fn lines(v: Seq<String>) -> Seq<Seq<char>> {
    v.map_values(|s: String| s@)
}

fn log_selection(heading: &str, none: &str, verb: &str, names: Vec<String>) -> (out: Vec<String>)
    ensures
        lines(out@) =~= selection_log(heading@, none@, verb@, lines(names@)),
{
    let mut out: Vec<String> = Vec::new();
    out.push(owned(heading));
    if names.len() == 0 {
        out.push(owned(none));
        return out;
    }
    let n = names.len();
    let mut i: usize = 0;
    while i < n
        invariant
            n == names@.len(),
            i <= n,
            lines(out@) =~= seq![heading@] + lines(names@).take(i as int).map_values(
                |x: Seq<char>| verb@ + x,
            ),
        decreases n - i,
    {
        let mut line = owned(verb);
        push_str(&mut line, names[i].as_str());
        let ghost before = out@;
        let ghost l = line@;
        out.push(line);
        assert(lines(out@) =~= lines(before).push(l));
        assert(lines(names@).take(i + 1) =~= lines(names@).take(i as int).push(names@[i as int]@));
        assert(lines(names@).take(i + 1).map_values(|x: Seq<char>| verb@ + x) =~= lines(
            names@,
        ).take(i as int).map_values(|x: Seq<char>| verb@ + x).push(verb@ + names@[i as int]@));
        i = i + 1;
    }
    assert(lines(names@).take(n as int) =~= lines(names@));
    out
}

fn select_to_disable(entries: &Vec<InterfaceEntry>) -> (names: Vec<String>)
    ensures
        lines(names@) =~= to_disable(entries@),
{
    let mut names: Vec<String> = Vec::new();
    let n = entries.len();
    let mut i: usize = 0;
    while i < n
        invariant
            n == entries@.len(),
            i <= n,
            lines(names@) =~= to_disable(entries@.take(i as int)),
        decreases n - i,
    {
        assert(entries@.take(i + 1).drop_last() =~= entries@.take(i as int));
        let lowered = lowercase(entries[i].friendly_name.as_str());
        if !is_wifi_lowered(lowered.as_str()) && entries[i].enabled {
            names.push(entries[i].friendly_name.clone());
        }
        i = i + 1;
    }
    assert(entries@.take(n as int) =~= entries@);
    names
}

fn select_to_enable(entries: &Vec<InterfaceEntry>) -> (names: Vec<String>)
    ensures
        lines(names@) =~= to_enable(entries@),
{
    let mut names: Vec<String> = Vec::new();
    let n = entries.len();
    let mut i: usize = 0;
    while i < n
        invariant
            n == entries@.len(),
            i <= n,
            lines(names@) =~= to_enable(entries@.take(i as int)),
        decreases n - i,
    {
        assert(entries@.take(i + 1).drop_last() =~= entries@.take(i as int));
        if !entries[i].enabled {
            names.push(entries[i].friendly_name.clone());
        }
        i = i + 1;
    }
    assert(entries@.take(n as int) =~= entries@);
    names
}

/// The log lines of turning off the enabled interfaces that are not wireless.
pub fn disable_non_wifi_adapters(entries: &Vec<InterfaceEntry>) -> (out: Vec<String>)
    ensures
        lines(out@) =~= selection_log(
            "Disabling non-WiFi adapters..."@,
            "No non-WiFi adapters to disable"@,
            "Disabling: "@,
            to_disable(entries@),
        ),
{
    let names = select_to_disable(entries);
    log_selection(
        "Disabling non-WiFi adapters...",
        "No non-WiFi adapters to disable",
        "Disabling: ",
        names,
    )
}

/// The log lines of turning on again the interfaces that are not enabled.
pub fn enable_all_adapters(entries: &Vec<InterfaceEntry>) -> (out: Vec<String>)
    ensures
        lines(out@) =~= selection_log(
            "Re-enabling adapters..."@,
            "No disabled adapters to enable"@,
            "Enabling: "@,
            to_enable(entries@),
        ),
{
    let names = select_to_enable(entries);
    log_selection("Re-enabling adapters...", "No disabled adapters to enable", "Enabling: ", names)
}

/// The multiplayer files are all in place: each of the three DLLs, and `amax/init.lua`.
pub fn multiplayer_installed(dlls_present: &Vec<bool>, init_lua_present: bool) -> (b: bool)
    ensures
        b == ((forall|i: int| 0 <= i < dlls_present@.len() ==> dlls_present@[i])
            && init_lua_present),
{
    let n = dlls_present.len();
    let mut i: usize = 0;
    while i < n
        invariant
            n == dlls_present@.len(),
            i <= n,
            forall|k: int| 0 <= k < i ==> dlls_present@[k],
        decreases n - i,
    {
        if !dlls_present[i] {
            return false;
        }
        i = i + 1;
    }
    init_lua_present
}

/// The files to write: those of the candidates (destination, already there) that are
/// missing, in order. Files already there are never overwritten.
pub open spec fn missing_files(v: Seq<(String, bool)>) -> Seq<Seq<char>>
    decreases v.len(),
{
    if v.len() == 0 {
        Seq::empty()
    } else {
        let before = missing_files(v.drop_last());
        if !v.last().1 {
            before.push(v.last().0@)
        } else {
            before
        }
    }
}

/// The destinations of the candidate files that are missing, in order.
pub fn copy_files_to_game(candidates: &Vec<(String, bool)>) -> (out: Vec<String>)
    ensures
        lines(out@) =~= missing_files(candidates@),
{
    let mut out: Vec<String> = Vec::new();
    let n = candidates.len();
    let mut i: usize = 0;
    while i < n
        invariant
            n == candidates@.len(),
            i <= n,
            lines(out@) =~= missing_files(candidates@.take(i as int)),
        decreases n - i,
    {
        assert(candidates@.take(i + 1).drop_last() =~= candidates@.take(i as int));
        if !candidates[i].1 {
            out.push(candidates[i].0.clone());
        }
        i = i + 1;
    }
    assert(candidates@.take(n as int) =~= candidates@);
    out
}

/// The folder the console launcher starts the game in: the folder of its executable,
/// or the executable's own path when it has no parent.
pub fn launch_dir(game_path: &str) -> (d: String)
    ensures
        d@ == match spec_path_parent(game_path@) {
            Some(p) => p,
            None => game_path@,
        },
{
    match path_parent(game_path) {
        Some(p) => p,
        None => owned(game_path),
    }
}

/// The PowerShell command that waits for the game's process to exit.
pub open spec fn wait_script_text(pid: u32) -> Seq<char> {
    "Wait-Process -Id "@ + decimal(pid as nat) + " -ErrorAction SilentlyContinue"@
}

/// The PowerShell command that waits for the game's process to exit.
pub fn wait_for_process(pid: u32) -> (s: String)
    ensures
        s@ == wait_script_text(pid),
{
    let mut s = owned("Wait-Process -Id ");
    push_decimal(&mut s, pid as u64);
    push_str(&mut s, " -ErrorAction SilentlyContinue");
    s
}

} // verus!
