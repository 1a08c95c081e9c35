//! The decisions of the app listing tool: what its command line asks for,
//! which device it talks to, and which installed apps it lists, and how.

use vstd::prelude::*;
use vstd::string::StrSliceExecFns;

verus! {

/// What the command line asks the tool to do.
#[derive(Debug, PartialEq, Eq)]
pub enum Command {
    /// List the apps of the device with UDID `udid` (of the first device
    /// found when `udid` is empty); `all` also lists the apps of the system.
    Run { udid: String, all: bool },
    /// Show the usage.
    Help,
    /// Show the version.
    Version,
    /// Refuse the flag that is not known.
    UnknownFlag(String),
}

/// The model of a `Command`, with its strings as character sequences.
pub enum CommandView {
    Run { udid: Seq<char>, all: bool },
    Help,
    Version,
    UnknownFlag(Seq<char>),
}

impl View for Command {
    type V = CommandView;

    open spec fn view(&self) -> CommandView {
        match self {
            Command::Run { udid, all } => CommandView::Run { udid: udid@, all: *all },
            Command::Help => CommandView::Help,
            Command::Version => CommandView::Version,
            Command::UnknownFlag(flag) => CommandView::UnknownFlag(flag@),
        }
    }
}

/// The device the tool talks to.
#[derive(Debug, PartialEq, Eq)]
pub enum DeviceChoice {
    /// The first device found.
    First,
    /// The device with this UDID.
    Udid(String),
}

/// An installed app, as the installation service describes it.
#[derive(Debug, Clone)]
pub struct AppEntry {
    /// The bundle identifier, such as `com.apple.mobilesafari`.
    pub bundle_id: String,
    /// The name shown under the app's icon.
    pub display_name: String,
}

/// The command line arguments as character sequences.
pub open spec fn arg_views(args: Seq<String>) -> Seq<Seq<char>> {
    args.map_values(|a: String| a@)
}

pub open spec fn udid_short() -> Seq<char> {
    seq!['-', 'u']
}

pub open spec fn udid_long() -> Seq<char> {
    seq!['-', '-', 'u', 'd', 'i', 'd']
}

pub open spec fn help_short() -> Seq<char> {
    seq!['-', 'h']
}

pub open spec fn help_long() -> Seq<char> {
    seq!['-', '-', 'h', 'e', 'l', 'p']
}

pub open spec fn all_short() -> Seq<char> {
    seq!['-', 'a']
}

pub open spec fn all_long() -> Seq<char> {
    seq!['-', '-', 'a', 'l', 'l']
}

pub open spec fn version_short() -> Seq<char> {
    seq!['-', 'v']
}

pub open spec fn version_long() -> Seq<char> {
    seq!['-', '-', 'v', 'e', 'r', 's', 'i', 'o', 'n']
}

/// The text that marks the bundle identifiers of system apps.
pub open spec fn system_marker() -> Seq<char> {
    seq!['c', 'o', 'm', '.', 'a', 'p', 'p', 'l', 'e']
}

/// What the arguments from position `i` on ask for, when the UDID read so
/// far is `udid` and `all` tells whether all apps were asked for. `None`
/// when a UDID flag comes last, with no value after it.
pub open spec fn parse_from(args: Seq<Seq<char>>, i: int, udid: Seq<char>, all: bool) -> Option<CommandView>
    decreases args.len() - i,
{
    if i < 0 || i >= args.len() {
        Some(CommandView::Run { udid, all })
    } else {
        let a = args[i];
        if a == udid_short() || a == udid_long() {
            if i + 1 < args.len() {
                parse_from(args, i + 2, args[i + 1], all)
            } else {
                None
            }
        } else if a == help_short() || a == help_long() {
            Some(CommandView::Help)
        } else if a == all_short() || a == all_long() {
            parse_from(args, i + 1, udid, true)
        } else if a == version_short() || a == version_long() {
            Some(CommandView::Version)
        } else if a.len() > 0 && a[0] == '-' {
            Some(CommandView::UnknownFlag(a))
        } else {
            parse_from(args, i + 1, udid, all)
        }
    }
}

/// What the command line `args` asks for; its first element is the name of
/// the program.
pub open spec fn parse_spec(args: Seq<Seq<char>>) -> Option<CommandView> {
    parse_from(args, 1, Seq::empty(), false)
}

/// Whether `needle` occurs in `haystack`.
pub open spec fn contains_text(haystack: Seq<char>, needle: Seq<char>) -> bool {
    exists|i: int| 0 <= i && i + needle.len() <= haystack.len() && #[trigger] haystack.subrange(i, i + needle.len()) == needle
}

/// Whether the app with bundle identifier `bundle_id` is listed; `all` asks
/// for the apps of the system too.
pub open spec fn listed(bundle_id: Seq<char>, all: bool) -> bool {
    all || !contains_text(bundle_id, system_marker())
}

/// The line that lists an app: its name, a colon, a space, its identifier.
pub open spec fn listing_line(display_name: Seq<char>, bundle_id: Seq<char>) -> Seq<char> {
    display_name + seq![':', ' '] + bundle_id
}

/// The apps as pairs of display name and bundle identifier.
pub open spec fn app_views(apps: Seq<AppEntry>) -> Seq<(Seq<char>, Seq<char>)> {
    apps.map_values(|a: AppEntry| (a.display_name@, a.bundle_id@))
}

/// The lines that list the apps `apps` (pairs of display name and bundle
/// identifier), in their order.
pub open spec fn listing(apps: Seq<(Seq<char>, Seq<char>)>, all: bool) -> Seq<Seq<char>>
    decreases apps.len(),
{
    if apps.len() == 0 {
        Seq::empty()
    } else {
        let last = apps.last();
        let before = listing(apps.drop_last(), all);
        if listed(last.1, all) {
            before.push(listing_line(last.0, last.1))
        } else {
            before
        }
    }
}

/// With `all`, every app is listed, in order, one line each.
pub proof fn lemma_listing_all(apps: Seq<(Seq<char>, Seq<char>)>)
    ensures
        listing(apps, true) == apps.map_values(|p: (Seq<char>, Seq<char>)| listing_line(p.0, p.1)),
    decreases apps.len(),
{
    if apps.len() > 0 {
        lemma_listing_all(apps.drop_last());
        assert(listing(apps, true) =~= apps.map_values(
            |p: (Seq<char>, Seq<char>)| listing_line(p.0, p.1),
        ));
    }
}

/// Without `all`, the lines list exactly the apps whose identifier does not
/// hold `com.apple`, in their order.
pub proof fn lemma_listing_user_apps(apps: Seq<(Seq<char>, Seq<char>)>)
    ensures
        listing(apps, false) == apps.filter(|p: (Seq<char>, Seq<char>)| !contains_text(p.1, system_marker()))
            .map_values(|p: (Seq<char>, Seq<char>)| listing_line(p.0, p.1)),
    decreases apps.len(),
{
    let keep = |p: (Seq<char>, Seq<char>)| !contains_text(p.1, system_marker());
    let line = |p: (Seq<char>, Seq<char>)| listing_line(p.0, p.1);
    reveal(Seq::filter);
    if apps.len() > 0 {
        lemma_listing_user_apps(apps.drop_last());
        assert(listing(apps, false) =~= apps.filter(keep).map_values(line));
    } else {
        assert(listing(apps, false) =~= apps.filter(keep).map_values(line));
    }
}

/// With `all` every app is listed; without it, exactly the apps whose
/// identifier does not hold `com.apple`.
pub proof fn lemma_listed(bundle_id: Seq<char>)
    ensures
        listed(bundle_id, true),
        listed(bundle_id, false) <==> !contains_text(bundle_id, system_marker()),
{
}

/// Text found anywhere inside a string is contained in it, and nothing longer
/// than a string is contained in it.
pub proof fn lemma_contains_text(before: Seq<char>, needle: Seq<char>, after: Seq<char>)
    ensures
        contains_text(before + needle + after, needle),
        needle.len() > after.len() ==> !contains_text(after, needle),
{
    let h = before + needle + after;
    let i: int = before.len() as int;
    assert(h.subrange(i, i + needle.len()) =~= needle);
}

/// An argument that leaves the reading going on: the flag asking for all
/// apps, or an argument that is not a flag.
pub open spec fn passive_arg(a: Seq<char>) -> bool {
    a == all_short() || a == all_long() || !(a.len() > 0 && a[0] == '-')
}

/// Whether some argument in `args[i..k]` asks for all apps.
pub open spec fn asks_all(args: Seq<Seq<char>>, i: int, k: int) -> bool {
    exists|j: int| i <= j < k && (#[trigger] args[j] == all_short() || args[j] == all_long())
}

/// A help flag that follows only flags asking for all apps and plain
/// arguments, at whatever position, makes the tool show its usage.
pub proof fn lemma_help_anywhere(args: Seq<Seq<char>>, i: int, k: int, udid: Seq<char>, all: bool)
    requires
        0 <= i <= k < args.len(),
        forall|j: int| i <= j < k ==> passive_arg(#[trigger] args[j]),
        args[k] == help_short() || args[k] == help_long(),
    ensures
        parse_from(args, i, udid, all) == Some(CommandView::Help),
    decreases k - i,
{
    lemma_flags_distinct();
    if i < k {
        assert(passive_arg(args[i]));
        lemma_help_anywhere(args, i + 1, k, udid, all);
        lemma_help_anywhere(args, i + 1, k, udid, true);
    }
}

/// A version flag that follows only flags asking for all apps and plain
/// arguments makes the tool show its version.
pub proof fn lemma_version_anywhere(args: Seq<Seq<char>>, i: int, k: int, udid: Seq<char>, all: bool)
    requires
        0 <= i <= k < args.len(),
        forall|j: int| i <= j < k ==> passive_arg(#[trigger] args[j]),
        args[k] == version_short() || args[k] == version_long(),
    ensures
        parse_from(args, i, udid, all) == Some(CommandView::Version),
    decreases k - i,
{
    lemma_flags_distinct();
    if i < k {
        assert(passive_arg(args[i]));
        lemma_version_anywhere(args, i + 1, k, udid, all);
        lemma_version_anywhere(args, i + 1, k, udid, true);
    }
}

/// A flag that is not known, following only flags asking for all apps and
/// plain arguments, is refused.
pub proof fn lemma_unknown_flag_anywhere(args: Seq<Seq<char>>, i: int, k: int, udid: Seq<char>, all: bool)
    requires
        0 <= i <= k < args.len(),
        forall|j: int| i <= j < k ==> passive_arg(#[trigger] args[j]),
        args[k].len() > 0 && args[k][0] == '-',
        !passive_arg(args[k]),
        args[k] != udid_short() && args[k] != udid_long(),
        args[k] != help_short() && args[k] != help_long(),
        args[k] != version_short() && args[k] != version_long(),
    ensures
        parse_from(args, i, udid, all) == Some(CommandView::UnknownFlag(args[k])),
    decreases k - i,
{
    lemma_flags_distinct();
    if i < k {
        assert(passive_arg(args[i]));
        lemma_unknown_flag_anywhere(args, i + 1, k, udid, all);
        lemma_unknown_flag_anywhere(args, i + 1, k, udid, true);
    }
}

/// Arguments that are all flags asking for all apps or plain arguments list
/// the apps of the device read so far, all of them when one of the flags
/// asks for it.
pub proof fn lemma_run_when_passive(args: Seq<Seq<char>>, i: int, udid: Seq<char>, all: bool)
    requires
        0 <= i <= args.len(),
        forall|j: int| i <= j < args.len() ==> passive_arg(#[trigger] args[j]),
    ensures
        parse_from(args, i, udid, all) == Some(CommandView::Run { udid, all: all || asks_all(args, i, args.len() as int) }),
    decreases args.len() - i,
{
    lemma_flags_distinct();
    if i < args.len() {
        assert(passive_arg(args[i]));
        let a = args[i];
        let next_all = all || a == all_short() || a == all_long();
        lemma_run_when_passive(args, i + 1, udid, next_all);
        if a == all_short() || a == all_long() {
            assert(asks_all(args, i, args.len() as int));
        } else {
            if asks_all(args, i, args.len() as int) {
                let j = choose|j: int| i <= j < args.len() && (#[trigger] args[j] == all_short() || args[j] == all_long());
                assert(j != i);
                assert(asks_all(args, i + 1, args.len() as int));
            }
            if asks_all(args, i + 1, args.len() as int) {
                let j = choose|j: int| i + 1 <= j < args.len() && (#[trigger] args[j] == all_short() || args[j] == all_long());
                assert(asks_all(args, i, args.len() as int));
            }
        }
    } else {
        assert(!asks_all(args, i, args.len() as int));
    }
}

/// The argument after a UDID flag is the UDID, whatever it looks like, and
/// reading goes on after it; a UDID flag with nothing after it cannot be read.
pub proof fn lemma_udid_value(args: Seq<Seq<char>>, i: int, udid: Seq<char>, all: bool)
    requires
        0 <= i < args.len(),
        args[i] == udid_short() || args[i] == udid_long(),
    ensures
        i + 1 < args.len() ==> parse_from(args, i, udid, all) == parse_from(args, i + 2, args[i + 1], all),
        i + 1 == args.len() ==> parse_from(args, i, udid, all) is None,
{
}

/// The short and the long flags are told apart: no flag stands for two
/// things, and none of them is a plain argument.
proof fn lemma_flags_distinct()
    ensures
        udid_short() != help_short() && udid_short() != all_short() && udid_short() != version_short(),
        udid_long() != help_long() && udid_long() != all_long() && udid_long() != version_long(),
        udid_short() != help_long() && udid_short() != all_long() && udid_short() != version_long(),
        udid_long() != help_short() && udid_long() != all_short() && udid_long() != version_short(),
        help_short() != all_short() && help_short() != version_short(),
        help_short() != all_long() && help_short() != version_long(),
        help_long() != all_short() && help_long() != version_short(),
        help_long() != all_long() && help_long() != version_long(),
        all_short() != version_short() && all_short() != version_long(),
        all_long() != version_short() && all_long() != version_long(),
{
    assert(udid_short()[1] != help_short()[1]);
    assert(udid_short()[1] != all_short()[1]);
    assert(udid_short()[1] != version_short()[1]);
    assert(udid_long()[2] != help_long()[2]);
    assert(udid_long()[2] != all_long()[2]);
    assert(udid_long().len() != version_long().len());
    assert(udid_short().len() != help_long().len());
    assert(udid_short().len() != all_long().len());
    assert(udid_short().len() != version_long().len());
    assert(udid_long().len() != help_short().len());
    assert(udid_long().len() != all_short().len());
    assert(udid_long().len() != version_short().len());
    assert(help_short()[1] != all_short()[1]);
    assert(help_short()[1] != version_short()[1]);
    assert(help_short().len() != all_long().len());
    assert(help_short().len() != version_long().len());
    assert(help_long().len() != all_short().len());
    assert(help_long().len() != version_short().len());
    assert(help_long().len() != all_long().len());
    assert(help_long().len() != version_long().len());
    assert(all_short()[1] != version_short()[1]);
    assert(all_short().len() != version_long().len());
    assert(all_long().len() != version_short().len());
    assert(all_long().len() != version_long().len());
}

/// Whether two strings hold the same text.
fn same_text(a: &str, b: &str) -> (r: bool)
    ensures
        r == (a@ == b@),
{
    let n = a.unicode_len();
    if n != b.unicode_len() {
        return false;
    }
    let mut i: usize = 0;
    while i < n
        invariant
            n == a@.len(),
            n == b@.len(),
            i <= n,
            forall|j: int| 0 <= j < i ==> a@[j] == b@[j],
        decreases n - i,
    {
        if a.get_char(i) != b.get_char(i) {
            return false;
        }
        i = i + 1;
    }
    assert(a@ =~= b@);
    true
}

/// Whether `a` is the short or the long form of a flag.
fn is_flag(a: &str, short: &str, long: &str) -> (r: bool)
    ensures
        r == (a@ == short@ || a@ == long@),
{
    same_text(a, short) || same_text(a, long)
}

/// Reads the command line `args` as `parse_spec` says; `None` where a UDID
/// flag comes last.
fn scan(args: &[String]) -> (r: Option<Command>)
    requires
        args@.len() >= 1,
    ensures
        match r {
            Some(c) => parse_spec(arg_views(args@)) == Some(c@),
            None => parse_spec(arg_views(args@)) is None,
        },
{
    let ghost views = arg_views(args@);
    proof {
        reveal_strlit("-u");
        reveal_strlit("--udid");
        reveal_strlit("-h");
        reveal_strlit("--help");
        reveal_strlit("-a");
        reveal_strlit("--all");
        reveal_strlit("-v");
        reveal_strlit("--version");
    }
    let mut udid = String::new();
    let mut all = false;
    let mut i: usize = 1;
    while i < args.len()
        invariant
            1 <= i,
            views == arg_views(args@),
            views.len() == args@.len(),
            "-u"@ == udid_short(),
            "--udid"@ == udid_long(),
            "-h"@ == help_short(),
            "--help"@ == help_long(),
            "-a"@ == all_short(),
            "--all"@ == all_long(),
            "-v"@ == version_short(),
            "--version"@ == version_long(),
            parse_spec(views) == parse_from(views, i as int, udid@, all),
        decreases args@.len() - i,
    {
        let a = args[i].as_str();
        assert(a@ == views[i as int]);
        if is_flag(a, "-u", "--udid") {
            if i + 1 < args.len() {
                udid = args[i + 1].clone();
                assert(udid@ == views[i + 1]);
                i = i + 2;
            } else {
                return None;
            }
        } else if is_flag(a, "-h", "--help") {
            return Some(Command::Help);
        } else if is_flag(a, "-a", "--all") {
            all = true;
            i = i + 1;
        } else if is_flag(a, "-v", "--version") {
            return Some(Command::Version);
        } else if a.unicode_len() > 0 && a.get_char(0) == '-' {
            return Some(Command::UnknownFlag(args[i].clone()));
        } else {
            i = i + 1;
        }
    }
    Some(Command::Run { udid, all })
}

/// Whether the command line `args` ends with a UDID flag that has no value
/// after it, which the tool cannot read; its first element is the name of
/// the program.
pub fn missing_udid_value(args: &[String]) -> (r: bool)
    requires
        args@.len() >= 1,
    ensures
        r == parse_spec(arg_views(args@)) is None,
{
    scan(args).is_none()
}

/// What the command line `args` asks the tool to do; its first element is
/// the name of the program.
pub fn parse_args(args: &[String]) -> (c: Command)
    requires
        args@.len() >= 1,
        parse_spec(arg_views(args@)) is Some,
    ensures
        parse_spec(arg_views(args@)) == Some(c@),
{
    match scan(args) {
        Some(c) => c,
        None => Command::Help,
    }
}

/// The device to talk to for the UDID given on the command line: the first
/// device found when it is empty.
pub fn device_choice(udid: &str) -> (d: DeviceChoice)
    ensures
        match d {
            DeviceChoice::First => udid@.len() == 0,
            DeviceChoice::Udid(u) => udid@.len() != 0 && u@ == udid@,
        },
{
    if udid.is_empty() {
        DeviceChoice::First
    } else {
        DeviceChoice::Udid(udid.to_owned())
    }
}

/// Whether `needle` occurs in `haystack`.
fn contains(haystack: &str, needle: &str) -> (r: bool)
    ensures
        r == contains_text(haystack@, needle@),
{
    let n = haystack.unicode_len();
    let m = needle.unicode_len();
    if m > n {
        assert(!contains_text(haystack@, needle@));
        return false;
    }
    if m == 0 {
        assert(haystack@.subrange(0int, 0int + needle@.len()) =~= needle@);
        return true;
    }
    let mut i: usize = 0;
    while i <= n - m
        invariant
            n == haystack@.len(),
            m == needle@.len(),
            0 < m <= n,
            i <= n - m + 1,
            forall|k: int| 0 <= k < i ==> #[trigger] haystack@.subrange(k, k + m) != needle@,
        decreases n - m + 1 - i,
    {
        let mut j: usize = 0;
        let mut matched = true;
        while j < m
            invariant
                n == haystack@.len(),
                m == needle@.len(),
                i + m <= n,
                j <= m,
                matched ==> forall|l: int| 0 <= l < j ==> haystack@[i + l] == needle@[l],
                !matched ==> haystack@.subrange(i as int, i + m) != needle@,
            decreases m - j,
        {
            if haystack.get_char(i + j) != needle.get_char(j) {
                if matched {
                    assert(haystack@.subrange(i as int, i + m)[j as int] != needle@[j as int]);
                }
                matched = false;
            }
            j = j + 1;
        }
        if matched {
            assert(haystack@.subrange(i as int, i + m) =~= needle@);
            return true;
        }
        i = i + 1;
    }
    assert forall|k: int| 0 <= k && k + m <= n implies #[trigger] haystack@.subrange(k, k + m) != needle@ by {
        assert(k < i);
    }
    false
}

/// Whether the app with bundle identifier `bundle_id` is listed: apps of
/// the system, whose identifier holds `com.apple`, only when `all` asks
/// for them.
pub fn keep_app(bundle_id: &str, all: bool) -> (r: bool)
    ensures
        r == listed(bundle_id@, all),
        all ==> r,
        !all ==> (r <==> !contains_text(bundle_id@, system_marker())),
{
    proof {
        reveal_strlit("com.apple");
    }
    assert("com.apple"@ == system_marker());
    !(contains(bundle_id, "com.apple") && !all)
}

/// The line that lists an app.
pub fn app_line(display_name: &str, bundle_id: &str) -> (s: String)
    ensures
        s@ == listing_line(display_name@, bundle_id@),
{
    proof {
        reveal_strlit(": ");
    }
    let mut s = display_name.to_owned();
    s.append(": ");
    s.append(bundle_id);
    s
}

/// The lines that list the apps `apps`, in their order; `all` asks for the
/// apps of the system too.
pub fn app_lines(apps: &[AppEntry], all: bool) -> (lines: Vec<String>)
    ensures
        lines@.map_values(|s: String| s@) == listing(app_views(apps@), all),
{
    let mut lines: Vec<String> = Vec::new();
    let mut i: usize = 0;
    while i < apps.len()
        invariant
            i <= apps@.len(),
            lines@.map_values(|s: String| s@) == listing(app_views(apps@).take(i as int), all),
        decreases apps@.len() - i,
    {
        let app = &apps[i];
        let ghost prefix = app_views(apps@).take(i as int);
        let ghost next = app_views(apps@).take(i + 1);
        assert(next.drop_last() =~= prefix);
        assert(next.last() == (app.display_name@, app.bundle_id@));
        if keep_app(app.bundle_id.as_str(), all) {
            let line = app_line(app.display_name.as_str(), app.bundle_id.as_str());
            lines.push(line);
            assert(lines@.map_values(|s: String| s@) =~= listing(prefix, all).push(
                listing_line(app.display_name@, app.bundle_id@),
            ));
        }
        i = i + 1;
    }
    assert(app_views(apps@).take(i as int) =~= app_views(apps@));
    lines
}

} // verus!
