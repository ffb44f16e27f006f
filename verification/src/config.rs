//! The configuration of one run: what was asked for, laid over the defaults.

use vstd::prelude::*;

verus! {

/// Length of an identifier where none is asked for.
pub const DEFAULT_ID_LENGTH: usize = 8;

/// Symbol of a change-oriented repository where none is asked for.
pub const DEFAULT_JJ_SYMBOL: &'static str = "\u{f0d9b} ";

/// Symbol of a branch-oriented repository where none is asked for.
pub const DEFAULT_GIT_SYMBOL: &'static str = " ";

/// Which parts of the line are left out, for one kind of repository.
#[derive(Debug, Clone, Copy, PartialEq, Eq, Structural)]
pub struct DisplayFlags {
    /// Leave out the symbol and the word `on`.
    pub no_prefix: bool,
    /// Leave out the bookmark or branch.
    pub no_name: bool,
    /// Leave out the identifier.
    pub no_id: bool,
    /// Leave out the status summary.
    pub no_status: bool,
    /// Write no colour codes.
    pub no_color: bool,
    /// Show the identifier in one colour, its unique prefix like the rest.
    pub no_prefix_color: bool,
}

impl DisplayFlags {
    /// Every part shown, in colour.
    pub open spec fn all_shown() -> DisplayFlags {
        DisplayFlags {
            no_prefix: false,
            no_name: false,
            no_id: false,
            no_status: false,
            no_color: false,
            no_prefix_color: false,
        }
    }
}

impl Default for DisplayFlags {
    fn default() -> (flags: DisplayFlags)
        ensures
            flags == DisplayFlags::all_shown(),
    {
        DisplayFlags {
            no_prefix: false,
            no_name: false,
            no_id: false,
            no_status: false,
            no_color: false,
            no_prefix_color: false,
        }
    }
}

/// The configuration of one run. It is built once and read from then on.
#[derive(Debug)]
pub struct Config {
    /// Longest name shown, in characters; 0 for no limit.
    pub truncate_name: usize,
    /// Length of the identifier shown.
    pub id_length: usize,
    /// Prefixes taken off a name, in the order in which they are tried.
    pub strip_prefixes: Vec<String>,
    /// Symbol of a change-oriented repository.
    pub jj_symbol: String,
    /// Symbol of a branch-oriented repository.
    pub git_symbol: String,
    /// No symbol is shown, whatever was asked for.
    pub no_symbol: bool,
    /// What is left out for a change-oriented repository.
    pub jj_display: DisplayFlags,
    /// What is left out for a branch-oriented repository.
    pub git_display: DisplayFlags,
}

/// A configuration as the contracts see it.
pub struct ConfigView {
    pub truncate_name: nat,
    pub id_length: nat,
    pub strip_prefixes: Seq<Seq<char>>,
    pub jj_symbol: Seq<char>,
    pub git_symbol: Seq<char>,
    pub no_symbol: bool,
    pub jj_display: DisplayFlags,
    pub git_display: DisplayFlags,
}

impl View for Config {
    type V = ConfigView;

    open spec fn view(&self) -> ConfigView {
        ConfigView {
            truncate_name: self.truncate_name as nat,
            id_length: self.id_length as nat,
            strip_prefixes: self.strip_prefixes@.map_values(|prefix: String| prefix@),
            jj_symbol: self.jj_symbol@,
            git_symbol: self.git_symbol@,
            no_symbol: self.no_symbol,
            jj_display: self.jj_display,
            git_display: self.git_display,
        }
    }
}

impl ConfigView {
    /// Where symbols are switched off, both are empty.
    pub open spec fn wf(self) -> bool {
        self.no_symbol ==> self.jj_symbol.len() == 0 && self.git_symbol.len() == 0
    }
}

/// The symbol that results from what was asked for: nothing where symbols are
/// switched off, whatever else was asked; else the symbol asked for; else the
/// default.
pub open spec fn resolved_symbol(
    asked: Option<Seq<char>>,
    no_symbol: bool,
    default: Seq<char>,
) -> Seq<char> {
    if no_symbol {
        Seq::empty()
    } else {
        match asked {
            Some(symbol) => symbol,
            None => default,
        }
    }
}

/// The configuration that results from what was asked for.
pub open spec fn resolved(
    truncate_name: Option<usize>,
    id_length: Option<usize>,
    strip_prefixes: Seq<Seq<char>>,
    jj_symbol: Option<Seq<char>>,
    git_symbol: Option<Seq<char>>,
    no_symbol: bool,
    jj_display: DisplayFlags,
    git_display: DisplayFlags,
) -> ConfigView {
    ConfigView {
        truncate_name: match truncate_name {
            Some(limit) => limit as nat,
            None => 0,
        },
        id_length: match id_length {
            Some(length) => length as nat,
            None => DEFAULT_ID_LENGTH as nat,
        },
        strip_prefixes,
        jj_symbol: resolved_symbol(jj_symbol, no_symbol, DEFAULT_JJ_SYMBOL@),
        git_symbol: resolved_symbol(git_symbol, no_symbol, DEFAULT_GIT_SYMBOL@),
        no_symbol,
        jj_display,
        git_display,
    }
}

/// The view of a symbol that may have been asked for.
pub open spec fn asked_view(asked: Option<String>) -> Option<Seq<char>> {
    match asked {
        Some(symbol) => Some(symbol@),
        None => None,
    }
}

/// Switching symbols off wins over any symbol asked for, for both kinds of
/// repository.
pub proof fn lemma_no_symbol_wins(
    truncate_name: Option<usize>,
    id_length: Option<usize>,
    strip_prefixes: Seq<Seq<char>>,
    jj_symbol: Option<Seq<char>>,
    git_symbol: Option<Seq<char>>,
    no_symbol: bool,
    jj_display: DisplayFlags,
    git_display: DisplayFlags,
)
    requires
        no_symbol,
    ensures
        resolved(
            truncate_name,
            id_length,
            strip_prefixes,
            jj_symbol,
            git_symbol,
            no_symbol,
            jj_display,
            git_display,
        ).jj_symbol == Seq::<char>::empty(),
        resolved(
            truncate_name,
            id_length,
            strip_prefixes,
            jj_symbol,
            git_symbol,
            no_symbol,
            jj_display,
            git_display,
        ).git_symbol == Seq::<char>::empty(),
{
}

/// Every configuration that results from what was asked for is well formed.
pub proof fn lemma_resolved_wf(
    truncate_name: Option<usize>,
    id_length: Option<usize>,
    strip_prefixes: Seq<Seq<char>>,
    jj_symbol: Option<Seq<char>>,
    git_symbol: Option<Seq<char>>,
    no_symbol: bool,
    jj_display: DisplayFlags,
    git_display: DisplayFlags,
)
    ensures
        resolved(
            truncate_name,
            id_length,
            strip_prefixes,
            jj_symbol,
            git_symbol,
            no_symbol,
            jj_display,
            git_display,
        ).wf(),
{
}

/// The symbol for one kind of repository.
fn resolve_symbol(asked: Option<String>, no_symbol: bool, default: &str) -> (symbol: String)
    ensures
        symbol@ == resolved_symbol(asked_view(asked), no_symbol, default@),
{
    if no_symbol {
        String::new()
    } else {
        match asked {
            Some(symbol) => symbol,
            None => default.to_owned(),
        }
    }
}

impl Config {
    /// Lays what was asked for over the defaults. Nothing asked for is ever
    /// refused.
    pub fn new(
        truncate_name: Option<usize>,
        id_length: Option<usize>,
        strip_prefixes: Vec<String>,
        jj_symbol: Option<String>,
        git_symbol: Option<String>,
        no_symbol: bool,
        jj_display: DisplayFlags,
        git_display: DisplayFlags,
    ) -> (config: Config)
        ensures
            config@ == resolved(
                truncate_name,
                id_length,
                strip_prefixes@.map_values(|prefix: String| prefix@),
                asked_view(jj_symbol),
                asked_view(git_symbol),
                no_symbol,
                jj_display,
                git_display,
            ),
            config@.wf(),
    {
        Config {
            truncate_name: match truncate_name {
                Some(limit) => limit,
                None => 0,
            },
            id_length: match id_length {
                Some(length) => length,
                None => DEFAULT_ID_LENGTH,
            },
            strip_prefixes,
            jj_symbol: resolve_symbol(jj_symbol, no_symbol, DEFAULT_JJ_SYMBOL),
            git_symbol: resolve_symbol(git_symbol, no_symbol, DEFAULT_GIT_SYMBOL),
            no_symbol,
            jj_display,
            git_display,
        }
    }
}

} // verus!
