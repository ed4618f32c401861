//! Helpers for writing bot commands: who owns the bot, and what is a
//! channel.

use crate::proto::{Prefix, PrefixView};
use irc::proto::ChannelExt;
use vstd::prelude::*;

verus! {

/// A compiled glob pattern.
#[verifier::external_type_specification]
#[verifier::external_body]
pub struct ExPattern(glob::Pattern);

/// Why a glob pattern did not compile.
#[verifier::external_type_specification]
#[verifier::external_body]
pub struct ExPatternError(glob::PatternError);

/// Whether the glob crate compiles `pattern`.
pub uninterp spec fn glob_compiles(pattern: Seq<char>) -> bool;

/// The text that a compiled pattern was made from.
pub uninterp spec fn glob_source(matcher: glob::Pattern) -> Seq<char>;

/// Whether the pattern compiled from `pattern` matches the whole of
/// `value`, under the glob crate's default options.
pub uninterp spec fn glob_accepts(pattern: Seq<char>, value: Seq<char>) -> bool;

/// `glob::Pattern::new`: compiles a shell-style pattern, or says why it is
/// not one. Whether it compiles depends on the pattern's text alone (and on
/// which characters the build target takes for path separators); the
/// compiled pattern remembers that text.
#[verifier::external_body]
fn compile(pattern: &str) -> (compiled: Result<glob::Pattern, glob::PatternError>)
    ensures
        compiled is Ok <==> glob_compiles(pattern@),
        compiled is Ok ==> glob_source(compiled->Ok_0) == pattern@,
{
    glob::Pattern::new(pattern)
}

/// `glob::Pattern::matches`: whether the compiled pattern matches the
/// whole of `value` under the default options, which are case-sensitive
/// and let `*`, `?` and `[...]` match path separators and leading dots. A
/// function of the pattern's text and of `value` (and, for a pattern with
/// `**`, of which characters the build target takes for path separators).
#[verifier::external_body]
fn accepts(matcher: &glob::Pattern, value: &str) -> (hit: bool)
    ensures
        hit == glob_accepts(glob_source(*matcher), value@),
{
    matcher.matches(value)
}

/// A pattern matches a value when it compiles and then accepts the value.
/// A pattern that does not compile matches nothing.
pub open spec fn glob_matches(pattern: Seq<char>, value: Seq<char>) -> bool {
    glob_compiles(pattern) && glob_accepts(pattern, value)
}

/// Shell-style matching of `value` against `pattern`, case-sensitive and on
/// the text as given. A malformed pattern matches nothing.
pub fn matches(pattern: &str, value: &str) -> (hit: bool)
    ensures
        hit == glob_matches(pattern@, value@),
{
    match compile(pattern) {
        Err(_) => false,
        Ok(matcher) => accepts(&matcher, value),
    }
}

/// One field of an owner rule against one part of a sender: an empty field
/// asks for nothing, any other must match as a glob.
pub open spec fn field_matches(pattern: Seq<char>, value: Seq<char>) -> bool {
    pattern.len() == 0 || glob_matches(pattern, value)
}

/// A rule with nothing in any of its three fields. It grants nothing.
pub open spec fn inert(nick: Seq<char>, user: Seq<char>, host: Seq<char>) -> bool {
    nick.len() == 0 && user.len() == 0 && host.len() == 0
}

/// Whether one owner rule lets one sender in: both are users, the rule is
/// not inert, and each of its fields matches.
pub open spec fn rule_grants(rule: PrefixView, who: PrefixView) -> bool {
    match (rule, who) {
        (PrefixView::Nickname(rn, ru, rh), PrefixView::Nickname(nick, user, host)) => {
            &&& !inert(rn, ru, rh)
            &&& field_matches(rn, nick)
            &&& field_matches(ru, user)
            &&& field_matches(rh, host)
        },
        _ => false,
    }
}

/// Whether some rule of `owners` lets `who` in.
pub open spec fn owner(who: PrefixView, owners: Seq<PrefixView>) -> bool {
    exists|i: int| 0 <= i < owners.len() && rule_grants(#[trigger] owners[i], who)
}

fn field_ok(pattern: &str, value: &str) -> (ok: bool)
    ensures
        ok == field_matches(pattern@, value@),
{
    pattern.is_empty() || matches(pattern, value)
}

fn grants(rule: &Prefix, who: &Prefix) -> (ok: bool)
    ensures
        ok == rule_grants(rule.deep_view(), who.deep_view()),
{
    match (rule, who) {
        (Prefix::Nickname(rn, ru, rh), Prefix::Nickname(nick, user, host)) => {
            if rn.as_str().is_empty() && ru.as_str().is_empty() && rh.as_str().is_empty() {
                return false;
            }
            field_ok(rn.as_str(), nick.as_str()) && field_ok(ru.as_str(), user.as_str())
                && field_ok(rh.as_str(), host.as_str())
        },
        _ => false,
    }
}

/// Whether the sender `prefix` is an owner of the bot under the rules
/// `owners`. A server never is. A user is one as soon as some rule grants
/// it: every non-empty field of the rule matches the sender's part as a
/// glob, and the rule has at least one such field.
pub fn is_owner(prefix: &Prefix, owners: &Vec<Prefix>) -> (granted: bool)
    ensures
        granted == owner(prefix.deep_view(), owners.deep_view()),
{
    let ghost who = prefix.deep_view();
    let ghost rules = owners.deep_view();
    let mut i: usize = 0;
    while i < owners.len()
        invariant
            i <= owners.len(),
            who == prefix.deep_view(),
            rules == owners.deep_view(),
            forall|j: int| 0 <= j < i ==> !rule_grants(#[trigger] rules[j], who),
        decreases owners.len() - i,
    {
        if grants(&owners[i], prefix) {
            assert(rule_grants(rules[i as int], who));
            return true;
        }
        i += 1;
    }
    false
}

/// Rules whose three fields are all empty make nobody an owner, however
/// many of them there are.
pub proof fn lemma_inert_rules_grant_nothing(who: PrefixView, owners: Seq<PrefixView>)
    requires
        forall|i: int|
            0 <= i < owners.len() ==> (#[trigger] owners[i] matches PrefixView::Nickname(
                nick,
                user,
                host,
            ) && inert(nick, user, host)),
    ensures
        !owner(who, owners),
{
}

/// The rule with three empty fields lets nobody in, although each empty
/// field on its own asks for nothing.
pub proof fn lemma_empty_rule_never_grants(who: PrefixView)
    ensures
        !rule_grants(PrefixView::Nickname(Seq::empty(), Seq::empty(), Seq::empty()), who),
{
}

/// A server is never an owner, whatever the rules say.
pub proof fn lemma_server_is_never_owner(name: Seq<char>, owners: Seq<PrefixView>)
    ensures
        !owner(PrefixView::ServerName(name), owners),
{
}

/// Whether `target` names a channel: it begins with `#`, `&`, `+` or `!`.
pub open spec fn is_channel_name(target: Seq<char>) -> bool {
    target.len() > 0 && (target[0] == '#' || target[0] == '&' || target[0] == '+' || target[0]
        == '!')
}

/// `ChannelExt::is_channel_name` of the irc crate, which tests the first
/// character of the name against the four channel prefixes.
#[verifier::external_body]
fn channel_name(target: &str) -> (channel: bool)
    ensures
        channel == is_channel_name(target@),
{
    target.is_channel_name()
}

/// True iff `target` is a channel, false for anything else, such as a
/// nickname.
pub fn is_public(target: &str) -> (public: bool)
    ensures
        public == is_channel_name(target@),
{
    channel_name(target)
}

} // verus!
