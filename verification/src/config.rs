//! What the bot is configured with: its leaders, its owners, and the
//! options that commands read.

use crate::proto::{parsed_prefix, Prefix, PrefixView};
use crate::text::{chars_of, fields, split};
use crate::{options_view, Options};
use vstd::prelude::*;

verus! {

/// The option that holds the leader characters.
pub const LEADERS_OPTION: &'static str = "leaders";

/// The leader characters where the option is not set.
pub const DEFAULT_LEADERS: &'static str = "&";

/// The option that holds the owner rules, with `;` between them.
pub const OWNERS_OPTION: &'static str = "owners";

/// What stands between two owner rules.
pub const OWNERS_SEPARATOR: char = ';';

/// The option of the given name, or `default` where it is not set.
pub open spec fn option_or(options: Map<Seq<char>, Seq<char>>, name: Seq<char>, default: Seq<char>)
    -> Seq<char> {
    if options.contains_key(name) {
        options[name]
    } else {
        default
    }
}

/// The leader characters that the options set: each character of the
/// option `leaders`, or `&` alone.
pub open spec fn leaders_of(options: Map<Seq<char>, Seq<char>>) -> Seq<char> {
    option_or(options, LEADERS_OPTION@, DEFAULT_LEADERS@)
}

/// The owner rules that the options set: the option `owners`, cut at
/// every `;`, each piece read as a prefix. Without the option there is one
/// rule, read from the empty text.
pub open spec fn owners_of(options: Map<Seq<char>, Seq<char>>) -> Seq<PrefixView> {
    fields(option_or(options, OWNERS_OPTION@, Seq::empty()), OWNERS_SEPARATOR).map_values(
        |rule: Seq<char>| parsed_prefix(rule),
    )
}

/// The leader characters that the options set.
pub fn leaders(options: &Options) -> (leaders: Vec<char>)
    ensures
        leaders@ == leaders_of(options_view(*options)),
{
    match options.get(LEADERS_OPTION) {
        Some(value) => chars_of(value.as_str()),
        None => chars_of(DEFAULT_LEADERS),
    }
}

/// The owner rules that the options set.
pub fn owners(options: &Options) -> (owners: Vec<Prefix>)
    ensures
        owners.deep_view() == owners_of(options_view(*options)),
{
    let rules = match options.get(OWNERS_OPTION) {
        Some(value) => split(value.as_str(), OWNERS_SEPARATOR),
        None => split("", OWNERS_SEPARATOR),
    };
    proof {
        reveal_strlit("");
        assert(""@ =~= Seq::<char>::empty());
    }
    let ghost texts = rules.deep_view();
    let mut owners: Vec<Prefix> = Vec::new();
    let mut i: usize = 0;
    while i < rules.len()
        invariant
            i <= rules.len(),
            texts == rules.deep_view(),
            owners.len() == i,
            forall|j: int|
                0 <= j < i ==> (#[trigger] owners[j]).deep_view() == parsed_prefix(texts[j]),
        decreases rules.len() - i,
    {
        owners.push(Prefix::new_from_str(rules[i].as_str()));
        i += 1;
    }
    assert(owners.deep_view() =~= texts.map_values(|rule: Seq<char>| parsed_prefix(rule)));
    owners
}

/// The configuration of the bot. It is read once and never changed.
pub struct Config {
    /// The characters that a command in a channel begins with.
    pub leaders: Vec<char>,
    /// The rules that say who owns the bot.
    pub owners: Vec<Prefix>,
    /// The options, by name.
    pub options: Options,
}

impl Config {
    /// The configuration that the options make.
    pub fn new(options: Options) -> (config: Config)
        ensures
            config.options == options,
            config.leaders@ == leaders_of(options_view(options)),
            config.owners.deep_view() == owners_of(options_view(options)),
    {
        let leaders = leaders(&options);
        let owners = owners(&options);
        Config { leaders, owners, options }
    }
}

} // verus!
