//! Renders status facts as one line for the prompt.
//!
//! The line is the prefix (the symbol and the word `on`) followed by up to
//! three segments with one space between them: the name, the identifier and the
//! status summary. Each flag of [`DisplayFlags`] leaves one part out. The line
//! ends without a line break.

use crate::color::BLUE;
use crate::color::BRIGHT_BLACK;
use crate::color::BRIGHT_MAGENTA;
use crate::color::GREEN;
use crate::color::PURPLE;
use crate::color::RED;
use crate::config::Config;
use crate::config::ConfigView;
use crate::config::DisplayFlags;
use crate::git::GitInfo;
use crate::git::GitInfoView;
use crate::jj::JjInfo;
use crate::jj::JjInfoView;
use crate::text::paint;
use crate::text::painted;
use crate::text::prefix_of;
use crate::text::rest_of;
use crate::text::skip_chars;
use crate::text::starts_with;
use crate::text::take_chars;
use vstd::prelude::*;
use vstd::string::*;

verus! {

/// The word between the symbol and the segments.
pub const ON: &'static str = "on ";

/// What stands between two segments.
pub const SEPARATOR: &'static str = " ";

/// Opens the status summary.
pub const STATUS_OPEN: &'static str = "[";

/// Closes the status summary.
pub const STATUS_CLOSE: &'static str = "]";

/// Token of a revision with unresolved conflicts.
pub const CONFLICT: &'static str = "!";

/// Token of a divergent revision.
pub const DIVERGENT: &'static str = "\u{21d4}";

/// Token of a revision without a description.
pub const EMPTY_DESC: &'static str = "?";

/// Token of a name that a remote has at another revision.
pub const UNSYNCED: &'static str = "\u{21e1}";

/// The health flags that the status summary shows.
#[derive(Debug, Clone, Copy, PartialEq, Eq, Structural)]
pub struct Health {
    /// There are unresolved conflicts.
    pub conflict: bool,
    /// The revision has diverged.
    pub divergent: bool,
    /// The description is empty.
    pub empty_desc: bool,
    /// A remote has the name, and not at this revision.
    pub unsynced: bool,
}

impl Health {
    /// No flag is raised.
    pub open spec fn healthy() -> Health {
        Health { conflict: false, divergent: false, empty_desc: false, unsynced: false }
    }
}

/// What the line is made from: the facts of either kind of repository.
pub struct Shown {
    /// Bookmark or branch, if there is one.
    pub name: Option<Seq<char>>,
    /// Identifier, already cut to the length shown.
    pub id: Seq<char>,
    /// How many leading characters of `id` tell it apart from all others.
    pub unique_prefix: nat,
    /// The flags of the status summary.
    pub health: Health,
}

impl JjInfoView {
    /// What is shown of a change-oriented repository. A bookmark counts as out
    /// of step where a remote has it and none has it at the working revision.
    pub open spec fn shown(self) -> Shown {
        Shown {
            name: self.bookmark,
            id: self.change_id,
            unique_prefix: self.unique_prefix,
            health: Health {
                conflict: self.conflict,
                divergent: self.divergent,
                empty_desc: self.empty_desc,
                unsynced: self.has_remote && !self.is_synced,
            },
        }
    }
}

impl GitInfoView {
    /// What is shown of a branch-oriented repository, which knows no empty
    /// description.
    pub open spec fn shown(self) -> Shown {
        Shown {
            name: self.branch,
            id: self.commit_id,
            unique_prefix: self.unique_prefix,
            health: Health {
                conflict: self.conflict,
                divergent: self.diverged,
                empty_desc: false,
                unsynced: self.has_upstream && !self.is_synced,
            },
        }
    }
}

/// `name` without the first of `prefixes`, from position `from` on, that it
/// begins with.
pub open spec fn strip_from(name: Seq<char>, prefixes: Seq<Seq<char>>, from: int) -> Seq<char>
    decreases prefixes.len() - from,
{
    if from < 0 || from >= prefixes.len() {
        name
    } else if prefixes[from].is_prefix_of(name) {
        name.skip(prefixes[from].len() as int)
    } else {
        strip_from(name, prefixes, from + 1)
    }
}

/// `name` without the first of `prefixes` that it begins with. The order of
/// `prefixes` decides where several fit, and one prefix at most is taken off.
pub open spec fn stripped(name: Seq<char>, prefixes: Seq<Seq<char>>) -> Seq<char> {
    strip_from(name, prefixes, 0)
}

/// `name` cut to `limit` characters, where 0 stands for no limit.
pub open spec fn truncated(name: Seq<char>, limit: nat) -> Seq<char> {
    if limit == 0 {
        name
    } else {
        prefix_of(name, limit)
    }
}

/// The name as it is displayed: a prefix taken off first, then cut.
pub open spec fn displayed_name(name: Seq<char>, config: ConfigView) -> Seq<char> {
    truncated(stripped(name, config.strip_prefixes), config.truncate_name)
}

/// One token for each flag that is raised, in a fixed order.
pub open spec fn status_tokens(health: Health) -> Seq<char> {
    (if health.conflict {
        CONFLICT@
    } else {
        Seq::empty()
    }) + (if health.divergent {
        DIVERGENT@
    } else {
        Seq::empty()
    }) + (if health.empty_desc {
        EMPTY_DESC@
    } else {
        Seq::empty()
    }) + (if health.unsynced {
        UNSYNCED@
    } else {
        Seq::empty()
    })
}

/// The symbol and the word `on`.
pub open spec fn prefix_part(symbol: Seq<char>, flags: DisplayFlags) -> Seq<char> {
    if flags.no_prefix {
        Seq::empty()
    } else {
        painted(symbol, BLUE@, !flags.no_color) + ON@
    }
}

/// The name segment, where there is a name and names are shown.
pub open spec fn name_segment(shown: Shown, flags: DisplayFlags, config: ConfigView) -> Option<
    Seq<char>,
> {
    match shown.name {
        Some(name) if !flags.no_name => Some(
            painted(displayed_name(name, config), PURPLE@, !flags.no_color),
        ),
        _ => None,
    }
}

/// The identifier in colour: its unique prefix in one tone and the rest in
/// another, or all of it in one colour.
pub open spec fn coloured_id(id: Seq<char>, unique_prefix: nat, two_tone: bool) -> Seq<char> {
    if two_tone {
        painted(prefix_of(id, unique_prefix), BRIGHT_MAGENTA@, true) + painted(
            rest_of(id, unique_prefix),
            BRIGHT_BLACK@,
            true,
        )
    } else {
        painted(id, GREEN@, true)
    }
}

/// The identifier segment, where identifiers are shown.
pub open spec fn id_segment(shown: Shown, flags: DisplayFlags) -> Option<Seq<char>> {
    if flags.no_id {
        None
    } else if flags.no_color {
        Some(shown.id)
    } else {
        Some(coloured_id(shown.id, shown.unique_prefix, !flags.no_prefix_color))
    }
}

/// The status segment: the tokens in brackets, where a flag is raised and the
/// status is shown.
pub open spec fn status_segment(shown: Shown, flags: DisplayFlags) -> Option<Seq<char>> {
    if flags.no_status || status_tokens(shown.health).len() == 0 {
        None
    } else {
        Some(
            painted(
                STATUS_OPEN@ + status_tokens(shown.health) + STATUS_CLOSE@,
                RED@,
                !flags.no_color,
            ),
        )
    }
}

/// Two segments with a space between them; one alone stands as it is.
pub open spec fn joined(first: Option<Seq<char>>, second: Option<Seq<char>>) -> Option<
    Seq<char>,
> {
    match (first, second) {
        (Some(a), Some(b)) => Some(a + SEPARATOR@ + b),
        (Some(a), None) => Some(a),
        (None, second) => second,
    }
}

/// The whole line.
pub open spec fn line(
    shown: Shown,
    symbol: Seq<char>,
    flags: DisplayFlags,
    config: ConfigView,
) -> Seq<char> {
    prefix_part(symbol, flags) + (match joined(
        joined(name_segment(shown, flags, config), id_segment(shown, flags)),
        status_segment(shown, flags),
    ) {
        Some(segments) => segments,
        None => Seq::empty(),
    })
}

/// The line of a change-oriented repository.
pub open spec fn jj_line(info: JjInfoView, config: ConfigView) -> Seq<char> {
    line(info.shown(), config.jj_symbol, config.jj_display, config)
}

/// The line of a branch-oriented repository.
pub open spec fn git_line(info: GitInfoView, config: ConfigView) -> Seq<char> {
    line(info.shown(), config.git_symbol, config.git_display, config)
}

/// Where the status is hidden, the health flags leave no trace in the line:
/// it is the line of a healthy revision, which has no status segment.
pub proof fn lemma_no_status_hides_health(
    shown: Shown,
    symbol: Seq<char>,
    flags: DisplayFlags,
    config: ConfigView,
)
    requires
        flags.no_status,
    ensures
        status_segment(shown, flags) is None,
        line(shown, symbol, flags, config) == line(
            Shown { health: Health::healthy(), ..shown },
            symbol,
            flags,
            config,
        ),
        line(shown, symbol, flags, config) == prefix_part(symbol, flags) + (match joined(
            name_segment(shown, flags, config),
            id_segment(shown, flags),
        ) {
            Some(segments) => segments,
            None => Seq::empty(),
        }),
{
}

/// `text` holds no line break: neither a line feed nor a carriage return.
pub open spec fn one_line(text: Seq<char>) -> bool {
    forall|i: int| 0 <= i < text.len() ==> text[i] != '\n' && text[i] != '\r'
}

/// Two texts put together hold no line break exactly where neither holds one.
proof fn lemma_one_line_joined(first: Seq<char>, second: Seq<char>)
    ensures
        one_line(first + second) == (one_line(first) && one_line(second)),
{
    let both = first + second;
    if one_line(both) {
        assert forall|i: int| 0 <= i < first.len() implies first[i] != '\n' && first[i] != '\r' by {
            assert(both[i] == first[i]);
        }
        assert forall|i: int| 0 <= i < second.len() implies second[i] != '\n' && second[i] != '\r' by {
            assert(both[first.len() + i] == second[i]);
        }
    }
}

/// None of the texts that the renderer adds holds a line break.
proof fn lemma_own_texts_one_line()
    ensures
        one_line(ON@),
        one_line(SEPARATOR@),
        one_line(STATUS_OPEN@),
        one_line(STATUS_CLOSE@),
        one_line(CONFLICT@),
        one_line(DIVERGENT@),
        one_line(EMPTY_DESC@),
        one_line(UNSYNCED@),
        one_line(crate::color::RESET@),
        one_line(BLUE@),
        one_line(PURPLE@),
        one_line(GREEN@),
        one_line(RED@),
        one_line(BRIGHT_MAGENTA@),
        one_line(BRIGHT_BLACK@),
{
    reveal_strlit("on ");
    reveal_strlit(" ");
    reveal_strlit("[");
    reveal_strlit("]");
    reveal_strlit("!");
    reveal_strlit("\u{21d4}");
    reveal_strlit("?");
    reveal_strlit("\u{21e1}");
    reveal_strlit("\x1b[0m");
    reveal_strlit("\x1b[34m");
    reveal_strlit("\x1b[35m");
    reveal_strlit("\x1b[32m");
    reveal_strlit("\x1b[31m");
    reveal_strlit("\x1b[95m");
    reveal_strlit("\x1b[90m");
}

/// Colouring a text adds no line break.
proof fn lemma_painted_one_line(text: Seq<char>, colour: Seq<char>, on: bool)
    requires
        one_line(text),
        one_line(colour),
    ensures
        one_line(painted(text, colour, on)),
{
    lemma_own_texts_one_line();
    lemma_one_line_joined(colour, text);
    lemma_one_line_joined(colour + text, crate::color::RESET@);
}

/// Joining two segments adds no line break.
proof fn lemma_joined_one_line(first: Option<Seq<char>>, second: Option<Seq<char>>)
    requires
        first matches Some(text) ==> one_line(text),
        second matches Some(text) ==> one_line(text),
    ensures
        joined(first, second) matches Some(text) ==> one_line(text),
{
    lemma_own_texts_one_line();
    if let (Some(a), Some(b)) = (first, second) {
        lemma_one_line_joined(a, SEPARATOR@);
        lemma_one_line_joined(a + SEPARATOR@, b);
    }
}

/// Taking a prefix off a name adds no line break.
proof fn lemma_strip_one_line(name: Seq<char>, prefixes: Seq<Seq<char>>, from: int)
    requires
        one_line(name),
        0 <= from <= prefixes.len(),
    ensures
        one_line(strip_from(name, prefixes, from)),
    decreases prefixes.len() - from,
{
    if from < prefixes.len() {
        if prefixes[from].is_prefix_of(name) {
            let count = prefixes[from].len() as int;
            assert forall|i: int| 0 <= i < name.skip(count).len() implies name.skip(count)[i] != '\n'
                && name.skip(count)[i] != '\r' by {
                assert(name.skip(count)[i] == name[count + i]);
            }
        } else {
            lemma_strip_one_line(name, prefixes, from + 1);
        }
    }
}

/// The output is a single line: where the symbol, the name and the identifier
/// hold no line break, the line holds none, and so it does not end in one.
pub proof fn lemma_line_is_one_line(
    shown: Shown,
    symbol: Seq<char>,
    flags: DisplayFlags,
    config: ConfigView,
)
    requires
        one_line(symbol),
        one_line(shown.id),
        shown.name matches Some(name) ==> one_line(name),
    ensures
        one_line(line(shown, symbol, flags, config)),
{
    lemma_own_texts_one_line();
    let colour = !flags.no_color;

    lemma_painted_one_line(symbol, BLUE@, colour);
    lemma_one_line_joined(painted(symbol, BLUE@, colour), ON@);
    assert(one_line(prefix_part(symbol, flags)));

    let name_part = name_segment(shown, flags, config);
    if let Some(name) = shown.name {
        lemma_strip_one_line(name, config.strip_prefixes, 0);
        let shown_name = displayed_name(name, config);
        assert(one_line(shown_name));
        lemma_painted_one_line(shown_name, PURPLE@, colour);
    }
    assert(name_part matches Some(text) ==> one_line(text));

    let id_part = id_segment(shown, flags);
    let head = prefix_of(shown.id, shown.unique_prefix);
    let tail = rest_of(shown.id, shown.unique_prefix);
    assert(one_line(head));
    assert forall|i: int| 0 <= i < tail.len() implies tail[i] != '\n' && tail[i] != '\r' by {
        assert(tail[i] == shown.id[shown.unique_prefix + i]);
    }
    lemma_painted_one_line(head, BRIGHT_MAGENTA@, true);
    lemma_painted_one_line(tail, BRIGHT_BLACK@, true);
    lemma_one_line_joined(
        painted(head, BRIGHT_MAGENTA@, true),
        painted(tail, BRIGHT_BLACK@, true),
    );
    lemma_painted_one_line(shown.id, GREEN@, true);
    assert(id_part matches Some(text) ==> one_line(text));

    let health = shown.health;
    let conflict = if health.conflict { CONFLICT@ } else { Seq::empty() };
    let divergent = if health.divergent { DIVERGENT@ } else { Seq::empty() };
    let empty_desc = if health.empty_desc { EMPTY_DESC@ } else { Seq::empty() };
    let unsynced = if health.unsynced { UNSYNCED@ } else { Seq::empty() };
    lemma_one_line_joined(conflict, divergent);
    lemma_one_line_joined(conflict + divergent, empty_desc);
    lemma_one_line_joined(conflict + divergent + empty_desc, unsynced);
    let tokens = status_tokens(health);
    assert(one_line(tokens));
    lemma_one_line_joined(STATUS_OPEN@, tokens);
    lemma_one_line_joined(STATUS_OPEN@ + tokens, STATUS_CLOSE@);
    lemma_painted_one_line(STATUS_OPEN@ + tokens + STATUS_CLOSE@, RED@, colour);
    let status_part = status_segment(shown, flags);
    assert(status_part matches Some(text) ==> one_line(text));

    lemma_joined_one_line(name_part, id_part);
    lemma_joined_one_line(joined(name_part, id_part), status_part);
    let segments = match joined(joined(name_part, id_part), status_part) {
        Some(segments) => segments,
        None => Seq::empty(),
    };
    lemma_one_line_joined(prefix_part(symbol, flags), segments);
}

/// A healthy revision has no status segment, whatever the flags.
pub proof fn lemma_healthy_has_no_status(shown: Shown, flags: DisplayFlags)
    requires
        shown.health == Health::healthy(),
    ensures
        status_segment(shown, flags) is None,
{
}

/// What `strip_from` does from `from` on: with the prefix at `first` fitting
/// and none between `from` and `first` fitting, that prefix is taken off.
proof fn lemma_strip_from(name: Seq<char>, prefixes: Seq<Seq<char>>, from: int, first: int)
    requires
        0 <= from <= first < prefixes.len(),
        prefixes[first].is_prefix_of(name),
        forall|j: int| from <= j < first ==> !(#[trigger] prefixes[j]).is_prefix_of(name),
    ensures
        strip_from(name, prefixes, from) == name.skip(prefixes[first].len() as int),
    decreases first - from,
{
    if from < first {
        lemma_strip_from(name, prefixes, from + 1, first);
    }
}

/// What `strip_from` does from `from` on where no prefix fits: nothing.
proof fn lemma_strip_nothing(name: Seq<char>, prefixes: Seq<Seq<char>>, from: int)
    requires
        0 <= from <= prefixes.len(),
        forall|j: int| from <= j < prefixes.len() ==> !(#[trigger] prefixes[j]).is_prefix_of(name),
    ensures
        strip_from(name, prefixes, from) == name,
    decreases prefixes.len() - from,
{
    if from < prefixes.len() {
        lemma_strip_nothing(name, prefixes, from + 1);
    }
}

/// The first prefix in the list that fits is the one taken off, whatever
/// fits behind it, and only its own length is taken.
pub proof fn lemma_first_fitting_prefix_is_stripped(
    name: Seq<char>,
    prefixes: Seq<Seq<char>>,
    first: int,
)
    requires
        0 <= first < prefixes.len(),
        prefixes[first].is_prefix_of(name),
        forall|j: int| 0 <= j < first ==> !(#[trigger] prefixes[j]).is_prefix_of(name),
    ensures
        stripped(name, prefixes) == name.skip(prefixes[first].len() as int),
        prefixes[first] + stripped(name, prefixes) == name,
{
    lemma_strip_from(name, prefixes, 0, first);
    assert(prefixes[first] + name.skip(prefixes[first].len() as int) =~= name);
}

/// A name that begins with none of the prefixes stays as it is.
pub proof fn lemma_no_fitting_prefix_strips_nothing(name: Seq<char>, prefixes: Seq<Seq<char>>)
    requires
        forall|j: int| 0 <= j < prefixes.len() ==> !(#[trigger] prefixes[j]).is_prefix_of(name),
    ensures
        stripped(name, prefixes) == name,
{
    lemma_strip_nothing(name, prefixes, 0);
}

/// The displayed name is never longer than the limit, where there is one.
pub proof fn lemma_displayed_name_fits(name: Seq<char>, config: ConfigView)
    requires
        config.truncate_name > 0,
    ensures
        displayed_name(name, config).len() <= config.truncate_name,
{
}

/// Takes the first fitting prefix off `name`.
pub fn strip_prefix(name: &str, prefixes: &Vec<String>) -> (rest: String)
    ensures
        rest@ == stripped(name@, prefixes@.map_values(|prefix: String| prefix@)),
{
    let ghost views = prefixes@.map_values(|prefix: String| prefix@);
    let mut i: usize = 0;
    while i < prefixes.len()
        invariant
            i <= prefixes.len(),
            views == prefixes@.map_values(|prefix: String| prefix@),
            strip_from(name@, views, 0) == strip_from(name@, views, i as int),
        decreases prefixes.len() - i,
    {
        let prefix = prefixes[i].as_str();
        assert(views[i as int] == prefix@);
        if starts_with(name, prefix) {
            return skip_chars(name, prefix.unicode_len());
        }
        i += 1;
    }
    name.to_owned()
}

/// Cuts `name` to `limit` characters; 0 leaves it whole.
pub fn truncate_name(name: &str, limit: usize) -> (cut: String)
    ensures
        cut@ == truncated(name@, limit as nat),
{
    if limit == 0 {
        name.to_owned()
    } else {
        take_chars(name, limit)
    }
}

/// The name as it is displayed.
pub fn display_name(name: &str, config: &Config) -> (out: String)
    ensures
        out@ == displayed_name(name@, config@),
{
    let rest = strip_prefix(name, &config.strip_prefixes);
    truncate_name(rest.as_str(), config.truncate_name)
}

/// The tokens of the flags that are raised.
pub fn status_summary(health: Health) -> (tokens: String)
    ensures
        tokens@ == status_tokens(health),
{
    let mut tokens = String::new();
    if health.conflict {
        tokens.append(CONFLICT);
    }
    if health.divergent {
        tokens.append(DIVERGENT);
    }
    if health.empty_desc {
        tokens.append(EMPTY_DESC);
    }
    if health.unsynced {
        tokens.append(UNSYNCED);
    }
    proof {
        assert(tokens@ =~= status_tokens(health));
    }
    tokens
}

/// Joins two segments.
fn join(first: Option<String>, second: Option<String>) -> (both: Option<String>)
    ensures
        option_view(both) == joined(option_view(first), option_view(second)),
{
    match (first, second) {
        (Some(a), Some(b)) => {
            let mut both = a;
            both.append(SEPARATOR);
            both.append(b.as_str());
            Some(both)
        },
        (Some(a), None) => Some(a),
        (None, second) => second,
    }
}

/// The view of a segment that may be absent.
pub open spec fn option_view(segment: Option<String>) -> Option<Seq<char>> {
    match segment {
        Some(text) => Some(text@),
        None => None,
    }
}

/// The identifier in colour.
fn colour_id(id: &str, unique_prefix: usize, two_tone: bool) -> (out: String)
    ensures
        out@ == coloured_id(id@, unique_prefix as nat, two_tone),
{
    if two_tone {
        let head = take_chars(id, unique_prefix);
        let tail = skip_chars(id, unique_prefix);
        let mut out = paint(head.as_str(), BRIGHT_MAGENTA, true);
        let rest = paint(tail.as_str(), BRIGHT_BLACK, true);
        out.append(rest.as_str());
        out
    } else {
        paint(id, GREEN, true)
    }
}

/// Renders one line from the facts of either kind of repository, with the
/// symbol and the flags of that kind. It never fails: what cannot be shown is
/// left out.
pub fn render(
    name: Option<&String>,
    id: &str,
    unique_prefix: usize,
    health: Health,
    symbol: &str,
    flags: DisplayFlags,
    config: &Config,
) -> (out: String)
    ensures
        out@ == line(
            Shown {
                name: match name {
                    Some(name) => Some(name@),
                    None => None,
                },
                id: id@,
                unique_prefix: unique_prefix as nat,
                health,
            },
            symbol@,
            flags,
            config@,
        ),
{
    let colour = !flags.no_color;
    let mut out = String::new();
    if !flags.no_prefix {
        let painted_symbol = paint(symbol, BLUE, colour);
        out.append(painted_symbol.as_str());
        out.append(ON);
    }
    let name_part: Option<String> = match name {
        Some(name) if !flags.no_name => {
            let shown = display_name(name.as_str(), config);
            Some(paint(shown.as_str(), PURPLE, colour))
        },
        _ => None,
    };
    let id_part: Option<String> = if flags.no_id {
        None
    } else if flags.no_color {
        Some(id.to_owned())
    } else {
        Some(colour_id(id, unique_prefix, !flags.no_prefix_color))
    };
    let tokens = status_summary(health);
    let status_part: Option<String> = if flags.no_status || tokens.as_str().unicode_len() == 0 {
        None
    } else {
        let mut summary = STATUS_OPEN.to_owned();
        summary.append(tokens.as_str());
        summary.append(STATUS_CLOSE);
        Some(paint(summary.as_str(), RED, colour))
    };
    match join(join(name_part, id_part), status_part) {
        Some(segments) => {
            out.append(segments.as_str());
        },
        None => {},
    }
    proof {
        assert(out@ =~= line(
            Shown {
                name: match name {
                    Some(name) => Some(name@),
                    None => None,
                },
                id: id@,
                unique_prefix: unique_prefix as nat,
                health,
            },
            symbol@,
            flags,
            config@,
        ));
    }
    out
}

/// Renders the line of a change-oriented repository.
pub fn format_jj(info: &JjInfo, config: &Config) -> (out: String)
    ensures
        out@ == jj_line(info@, config@),
{
    render(
        info.bookmark.as_ref(),
        info.change_id.as_str(),
        info.unique_prefix,
        Health {
            conflict: info.conflict,
            divergent: info.divergent,
            empty_desc: info.empty_desc,
            unsynced: info.has_remote && !info.is_synced,
        },
        config.jj_symbol.as_str(),
        config.jj_display,
        config,
    )
}

/// Renders the line of a branch-oriented repository.
pub fn format_git(info: &GitInfo, config: &Config) -> (out: String)
    ensures
        out@ == git_line(info@, config@),
{
    render(
        info.branch.as_ref(),
        info.commit_id.as_str(),
        info.unique_prefix,
        Health {
            conflict: info.conflict,
            divergent: info.diverged,
            empty_desc: false,
            unsynced: info.has_upstream && !info.is_synced,
        },
        config.git_symbol.as_str(),
        config.git_display,
        config,
    )
}

} // verus!
