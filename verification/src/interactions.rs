//! How the bot routes the interactions it receives: which command, button,
//! menu or form a name or custom id stands for, the query that a custom id
//! carries, the locale to answer in, and the user who acted.

use vstd::prelude::*;
use crate::models::guild::GuildMember;
use crate::models::ids::UserId;
use crate::models::user::User;
use crate::text::{chars_to_string, str_eq, str_to_chars};
use crate::text_map::{law_with_text, pairs_view, set_text, text_of, with_text};
use crate::profile::{plain, Localized};
use crate::models::message::{empty_builder, MessageBuilder, MessageBuilderView};

verus! {

// ----------------------------------------------------------------------
// Splitting texts

/// The pieces of a text between the occurrences of `c`, as `str::split`
/// gives them: empty pieces included, and one piece at least.
pub open spec fn split_on(s: Seq<char>, c: char) -> Seq<Seq<char>>
    decreases s.len(),
{
    if s.len() == 0 {
        seq![Seq::empty()]
    } else {
        let prev = split_on(s.drop_last(), c);
        if s.last() == c {
            prev.push(Seq::empty())
        } else {
            prev.update(prev.len() - 1, prev.last().push(s.last()))
        }
    }
}

pub proof fn lemma_split_on_len(s: Seq<char>, c: char)
    ensures
        split_on(s, c).len() >= 1,
    decreases s.len(),
{
    if s.len() > 0 {
        lemma_split_on_len(s.drop_last(), c);
    }
}

/// Splits a text on a character.
pub fn split_chars(s: &[char], c: char) -> (r: Vec<Vec<char>>)
    ensures
        r@.len() == split_on(s@, c).len(),
        forall|i: int| 0 <= i < r@.len() ==> #[trigger] r@[i]@ == split_on(s@, c)[i],
{
    let mut pieces: Vec<Vec<char>> = Vec::new();
    pieces.push(Vec::new());
    let mut i: usize = 0;
    assert(s@.take(0) =~= Seq::<char>::empty());
    while i < s.len()
        invariant
            i <= s.len(),
            pieces@.len() == split_on(s@.take(i as int), c).len(),
            pieces@.len() >= 1,
            forall|j: int| 0 <= j < pieces@.len() ==> #[trigger] pieces@[j]@ == split_on(s@.take(i as int), c)[j],
        decreases s.len() - i,
    {
        let ghost prev = split_on(s@.take(i as int), c);
        proof {
            assert(s@.take(i + 1).drop_last() =~= s@.take(i as int));
            assert(s@.take(i + 1).last() == s@[i as int]);
        }
        if s[i] == c {
            pieces.push(Vec::new());
            proof {
                assert forall|j: int| 0 <= j < pieces@.len() implies #[trigger] pieces@[j]@ == split_on(s@.take(i + 1), c)[j] by {}
            }
        } else {
            let last = pieces.len() - 1;
            let mut piece = pieces.remove(last);
            piece.push(s[i]);
            pieces.push(piece);
            proof {
                assert forall|j: int| 0 <= j < pieces@.len() implies #[trigger] pieces@[j]@ == split_on(s@.take(i + 1), c)[j] by {}
            }
        }
        i = i + 1;
    }
    assert(s@.take(i as int) =~= s@);
    pieces
}

/// The parts of a custom id: what stands before its first `&`, and what
/// follows it (empty where there is none).
pub open spec fn custom_id_parts(s: Seq<char>) -> (Seq<char>, Seq<char>) {
    let pieces = split_on(s, '&');
    if pieces.len() == 1 {
        (pieces[0], Seq::empty())
    } else {
        (pieces[0], s.subrange(pieces[0].len() + 1int, s.len() as int))
    }
}

pub proof fn lemma_first_piece(s: Seq<char>, c: char)
    ensures
        split_on(s, c).len() >= 1,
        split_on(s, c)[0] =~= s.take(split_on(s, c)[0].len() as int),
        split_on(s, c).len() == 1 ==> split_on(s, c)[0] =~= s,
        split_on(s, c).len() > 1 ==> split_on(s, c)[0].len() < s.len() && s[split_on(s, c)[0].len() as int] == c,
        forall|j: int| 0 <= j < split_on(s, c)[0].len() ==> s[j] != c,
    decreases s.len(),
{
    lemma_split_on_len(s, c);
    if s.len() > 0 {
        let t = s.drop_last();
        lemma_first_piece(t, c);
        lemma_split_on_len(t, c);
        assert forall|j: int| 0 <= j < t.len() implies t[j] == s[j] by {}
    }
}

/// A custom id is its name, then `&` and its query where it holds a `&`;
/// the name holds no `&`.
pub proof fn law_custom_id_rejoins(s: Seq<char>)
    ensures
        !custom_id_parts(s).0.contains('&'),
        s.contains('&') ==> custom_id_parts(s).0 + seq!['&'] + custom_id_parts(s).1 == s,
        !s.contains('&') ==> custom_id_parts(s).0 == s && custom_id_parts(s).1.len() == 0,
{
    lemma_first_piece(s, '&');
    let p0 = split_on(s, '&')[0];
    assert(!p0.contains('&')) by {
        if p0.contains('&') {
            let j = choose|j: int| 0 <= j < p0.len() && p0[j] == '&';
            assert(s[j] == '&');
        }
    }
    if split_on(s, '&').len() > 1 {
        let n = p0.len() as int;
        assert(s[n] == '&');
        assert(s.contains('&'));
        assert(p0 + seq!['&'] + s.subrange(n + 1, s.len() as int) =~= s);
    } else {
        assert(p0 =~= s);
        assert(!s.contains('&'));
    }
}

/// Splits a custom id into its name and its query.
pub fn split_custom_id(custom_id: &str) -> (r: (String, String))
    ensures
        r.0@ == custom_id_parts(custom_id@).0,
        r.1@ == custom_id_parts(custom_id@).1,
{
    let chars = str_to_chars(custom_id);
    let mut i: usize = 0;
    while i < chars.len()
        invariant
            i <= chars.len(),
            chars@ == custom_id@,
            forall|j: int| 0 <= j < i ==> chars@[j] != '&',
        ensures
            i <= chars.len(),
            chars@ == custom_id@,
            forall|j: int| 0 <= j < i ==> chars@[j] != '&',
            i < chars.len() ==> chars@[i as int] == '&',
        decreases chars.len() - i,
    {
        if chars[i] == '&' {
            break;
        }
        i = i + 1;
    }
    let ghost s = custom_id@;
    proof {
        lemma_first_piece(s, '&');
    }
    let mut head: Vec<char> = Vec::new();
    let mut j: usize = 0;
    while j < i
        invariant
            j <= i,
            i <= chars.len(),
            head@ == chars@.take(j as int),
        decreases i - j,
    {
        head.push(chars[j]);
        proof {
            assert(chars@.take(j + 1) =~= chars@.take(j as int).push(chars@[j as int]));
        }
        j = j + 1;
    }
    let mut tail: Vec<char> = Vec::new();
    if i < chars.len() {
        let mut k: usize = i + 1;
        while k < chars.len()
            invariant
                i + 1 <= k <= chars.len(),
                tail@ == chars@.subrange(i + 1, k as int),
            decreases chars.len() - k,
        {
            tail.push(chars[k]);
            proof {
                assert(chars@.subrange(i + 1, k + 1) =~= chars@.subrange(i + 1, k as int).push(chars@[k as int]));
            }
            k = k + 1;
        }
    }
    proof {
        let p0 = split_on(s, '&')[0];
        if i < chars.len() {
            assert(chars@[i as int] == '&');
            if split_on(s, '&').len() == 1 {
                assert(p0 =~= s);
                assert(p0[i as int] != '&');
            }
            if p0.len() > i {
                assert(p0[i as int] == s[i as int]);
            }
            if p0.len() < i {
                assert(s[p0.len() as int] != '&');
            }
            assert(p0.len() == i);
            assert(head@ =~= p0);
        } else {
            if split_on(s, '&').len() > 1 {
                assert(s[p0.len() as int] == '&');
            }
            assert(p0 =~= s);
            assert(head@ =~= p0);
            assert(tail@ =~= Seq::<char>::empty());
        }
    }
    (chars_to_string(head.as_slice()), chars_to_string(tail.as_slice()))
}

// ----------------------------------------------------------------------
// Queries

/// The pairs `key=value` of a query, each piece between `&` split on `=`;
/// a later key replaces the value of an earlier one. A piece without `=`
/// makes the query invalid, and the first such piece is told.
pub open spec fn query_pairs(parts: Seq<Seq<char>>) -> Result<Seq<(Seq<char>, Seq<char>)>, Seq<char>>
    decreases parts.len(),
{
    if parts.len() == 0 {
        Ok(Seq::empty())
    } else {
        match query_pairs(parts.drop_last()) {
            Err(e) => Err(e),
            Ok(m) => {
                let q = split_on(parts.last(), '=');
                if q.len() >= 2 {
                    Ok(with_text(m, q[0], q[1]))
                } else {
                    Err(parts.last())
                }
            },
        }
    }
}

/// The query of a custom id: none unless it holds a `&`.
pub open spec fn query_spec(s: Seq<char>) -> Result<Seq<(Seq<char>, Seq<char>)>, Seq<char>> {
    if !s.contains('&') {
        Ok(Seq::empty())
    } else {
        query_pairs(split_on(s, '&'))
    }
}

/// A text without the separator is one piece.
pub proof fn lemma_split_without_separator(s: Seq<char>, c: char)
    requires
        !s.contains(c),
    ensures
        split_on(s, c) == seq![s],
    decreases s.len(),
{
    if s.len() > 0 {
        let t = s.drop_last();
        assert(!t.contains(c)) by {
            if t.contains(c) {
                let j = choose|j: int| 0 <= j < t.len() && t[j] == c;
                assert(s[j] == c);
            }
        }
        lemma_split_without_separator(t, c);
        assert(s.last() != c) by {
            assert(s[s.len() - 1] == c ==> s.contains(c));
        }
        assert(t.push(s.last()) =~= s);
    } else {
        assert(s =~= Seq::<char>::empty());
    }
}

/// Two texts without the separator, joined by it, split into those two.
pub proof fn lemma_split_two(k: Seq<char>, v: Seq<char>, c: char)
    requires
        !k.contains(c),
        !v.contains(c),
    ensures
        split_on(k + seq![c] + v, c) == seq![k, v],
    decreases v.len(),
{
    if v.len() == 0 {
        lemma_split_without_separator(k, c);
        assert(v =~= Seq::<char>::empty());
        let s = k + seq![c] + v;
        assert(s.drop_last() =~= k);
        assert(s.last() == c);
        assert(seq![k].push(Seq::<char>::empty()) =~= seq![k, v]);
    } else {
        let w = v.drop_last();
        assert(!w.contains(c)) by {
            if w.contains(c) {
                let j = choose|j: int| 0 <= j < w.len() && w[j] == c;
                assert(v[j] == c);
            }
        }
        lemma_split_two(k, w, c);
        let s = k + seq![c] + v;
        assert(s.drop_last() =~= k + seq![c] + w);
        assert(s.last() == v.last());
        assert(v.last() != c) by {
            assert(v[v.len() - 1] == c ==> v.contains(c));
        }
        assert(w.push(v.last()) =~= v);
        assert(seq![k, w].update(1, w.push(v.last())) =~= seq![k, v]);
    }
}

/// A valid query followed by a piece without `=` is refused, and the
/// refusal names that piece.
pub proof fn law_query_piece_without_equals_is_refused(parts: Seq<Seq<char>>, p: Seq<char>)
    requires
        query_pairs(parts) is Ok,
        !p.contains('='),
    ensures
        query_pairs(parts.push(p)) == Err::<Seq<(Seq<char>, Seq<char>)>, Seq<char>>(p),
{
    lemma_split_without_separator(p, '=');
    assert(parts.push(p).drop_last() =~= parts);
}

/// A valid query followed by a piece `key=value` stays valid and gives
/// that value to the key, whatever the key held before; the other keys
/// keep their values.
pub proof fn law_query_last_value_wins(parts: Seq<Seq<char>>, k: Seq<char>, v: Seq<char>, other: Seq<char>)
    requires
        query_pairs(parts) is Ok,
        !k.contains('='),
        !v.contains('='),
        other != k,
    ensures
        query_pairs(parts.push(k + seq!['='] + v)) matches Ok(m) && text_of(m, k) == Some(v)
            && text_of(m, other) == text_of(query_pairs(parts)->Ok_0, other),
{
    lemma_split_two(k, v, '=');
    let p = k + seq!['='] + v;
    assert(parts.push(p).drop_last() =~= parts);
    law_with_text(query_pairs(parts)->Ok_0, k, v, other);
}

/// Why a query cannot be read: a piece of it has no `=`.
#[derive(Debug, PartialEq, Eq)]
pub struct QueryError {
    pub pair: String,
}

/// Reads the query that a custom id carries into pairs of texts.
pub fn querify(string: &str) -> (r: Result<Vec<(String, String)>, QueryError>)
    ensures
        match query_spec(string@) {
            Ok(m) => r matches Ok(v) && pairs_view(v@) == m,
            Err(p) => r matches Err(e) && e.pair@ == p,
        },
{
    let chars = str_to_chars(string);
    let mut has_amp = false;
    let mut i: usize = 0;
    while i < chars.len()
        invariant
            i <= chars.len(),
            chars@ == string@,
            has_amp == exists|j: int| 0 <= j < i && chars@[j] == '&',
        decreases chars.len() - i,
    {
        if chars[i] == '&' {
            has_amp = true;
        }
        i = i + 1;
    }
    if !has_amp {
        let v: Vec<(String, String)> = Vec::new();
        proof {
            assert(!string@.contains('&'));
        }
        assert(pairs_view(v@) =~= Seq::<(Seq<char>, Seq<char>)>::empty());
        return Ok(v);
    }
    proof {
        let j = choose|j: int| 0 <= j < i && chars@[j] == '&';
        assert(string@[j] == '&');
        assert(string@.contains('&'));
    }
    let parts = split_chars(chars.as_slice(), '&');
    let ghost ps = split_on(string@, '&');
    let mut map: Vec<(String, String)> = Vec::new();
    let mut k: usize = 0;
    assert(ps.take(0) =~= Seq::<Seq<char>>::empty());
    assert(pairs_view(map@) =~= Seq::<(Seq<char>, Seq<char>)>::empty());
    while k < parts.len()
        invariant
            k <= parts.len(),
            string@.contains('&'),
            ps == split_on(string@, '&'),
            parts@.len() == ps.len(),
            forall|j: int| 0 <= j < parts@.len() ==> #[trigger] parts@[j]@ == ps[j],
            query_pairs(ps.take(k as int)) == Ok::<_, Seq<char>>(pairs_view(map@)),
        decreases parts.len() - k,
    {
        let q = split_chars(parts[k].as_slice(), '=');
        proof {
            assert(ps.take(k + 1).drop_last() =~= ps.take(k as int));
            assert(ps.take(k + 1).last() == ps[k as int]);
        }
        if q.len() < 2 {
            let e = QueryError { pair: chars_to_string(parts[k].as_slice()) };
            proof {
                assert(split_on(ps[k as int], '=').len() < 2);
                assert(query_pairs(ps.take(k + 1)) == Err::<Seq<(Seq<char>, Seq<char>)>, _>(ps[k as int]));
                lemma_query_error_persists(ps, k as int + 1);
                assert(query_pairs(ps) == Err::<Seq<(Seq<char>, Seq<char>)>, _>(ps[k as int]));
                assert(e.pair@ == ps[k as int]);
            }
            return Err(e);
        }
        let key = chars_to_string(q[0].as_slice());
        let value = chars_to_string(q[1].as_slice());
        set_text(&mut map, key.as_str(), value.as_str());
        k = k + 1;
    }
    assert(ps.take(k as int) =~= ps);
    Ok(map)
}

proof fn lemma_query_error_persists(ps: Seq<Seq<char>>, k: int)
    requires
        0 <= k <= ps.len(),
        query_pairs(ps.take(k)) is Err,
    ensures
        query_pairs(ps) == query_pairs(ps.take(k)),
    decreases ps.len() - k,
{
    if k < ps.len() {
        assert(ps.take(k + 1).drop_last() =~= ps.take(k));
        lemma_query_error_persists(ps, k + 1);
    } else {
        assert(ps.take(k) =~= ps);
    }
}

// ----------------------------------------------------------------------
// Routing

/// The slash commands of the bot.
#[derive(Debug, Clone, Copy, PartialEq, Eq, Structural)]
pub enum SlashCommand {
    Ping,
    Citation,
    AdminReloadCommands,
    AdminReloadRequests,
    AdminReloadLangs,
    AdminMemoryReport,
    GuildRank,
    Top,
    Cookies,
    Avatar,
    Banner,
    Welcome,
    RateIt,
    Unacceptable,
    EightBall,
    UserInfo,
    Help,
    Kady,
    Unknown,
}

/// The command that a name stands for.
pub open spec fn slash_command_spec(n: Seq<char>) -> SlashCommand {
    if n == "ping"@ { SlashCommand::Ping }
    else if n == "citation"@ { SlashCommand::Citation }
    else if n == "admin_reload_commands"@ || n == "admin_update_commands"@ { SlashCommand::AdminReloadCommands }
    else if n == "admin_reload_requests"@ { SlashCommand::AdminReloadRequests }
    else if n == "admin_reload_langs"@ { SlashCommand::AdminReloadLangs }
    else if n == "admin_memory_report"@ { SlashCommand::AdminMemoryReport }
    else if n == "guild_rank"@ { SlashCommand::GuildRank }
    else if n == "top"@ { SlashCommand::Top }
    else if n == "cookies"@ { SlashCommand::Cookies }
    else if n == "avatar"@ { SlashCommand::Avatar }
    else if n == "banner"@ { SlashCommand::Banner }
    else if n == "welcome"@ { SlashCommand::Welcome }
    else if n == "rateit"@ || n == "note"@ { SlashCommand::RateIt }
    else if n == "unacceptable"@ { SlashCommand::Unacceptable }
    else if n == "8ball"@ { SlashCommand::EightBall }
    else if n == "userinfo"@ { SlashCommand::UserInfo }
    else if n == "help"@ { SlashCommand::Help }
    else if n == "kady"@ { SlashCommand::Kady }
    else { SlashCommand::Unknown }
}

/// The name under which each command is registered; the unknown command
/// has none.
pub open spec fn slash_command_name(c: SlashCommand) -> Seq<char> {
    match c {
        SlashCommand::Ping => "ping"@,
        SlashCommand::Citation => "citation"@,
        SlashCommand::AdminReloadCommands => "admin_reload_commands"@,
        SlashCommand::AdminReloadRequests => "admin_reload_requests"@,
        SlashCommand::AdminReloadLangs => "admin_reload_langs"@,
        SlashCommand::AdminMemoryReport => "admin_memory_report"@,
        SlashCommand::GuildRank => "guild_rank"@,
        SlashCommand::Top => "top"@,
        SlashCommand::Cookies => "cookies"@,
        SlashCommand::Avatar => "avatar"@,
        SlashCommand::Banner => "banner"@,
        SlashCommand::Welcome => "welcome"@,
        SlashCommand::RateIt => "rateit"@,
        SlashCommand::Unacceptable => "unacceptable"@,
        SlashCommand::EightBall => "8ball"@,
        SlashCommand::UserInfo => "userinfo"@,
        SlashCommand::Help => "help"@,
        SlashCommand::Kady => "kady"@,
        SlashCommand::Unknown => Seq::empty(),
    }
}

/// The second name some commands answer to.
pub open spec fn slash_command_alias(c: SlashCommand) -> Option<Seq<char>> {
    match c {
        SlashCommand::AdminReloadCommands => Some("admin_update_commands"@),
        SlashCommand::RateIt => Some("note"@),
        _ => None,
    }
}

/// Every command is routed under its name (and its second name, where it
/// has one), and a name is routed only to the command it names: no known
/// command is answered as unknown, and no two commands share a name.
pub proof fn law_slash_command_names(c: SlashCommand, name: Seq<char>)
    ensures
        c != SlashCommand::Unknown ==> slash_command_spec(slash_command_name(c)) == c,
        slash_command_alias(c) matches Some(a) ==> slash_command_spec(a) == c,
        slash_command_spec(name) != SlashCommand::Unknown ==> name == slash_command_name(slash_command_spec(name))
            || slash_command_alias(slash_command_spec(name)) == Some(name),
{
    reveal_strlit("ping");
    reveal_strlit("citation");
    reveal_strlit("admin_reload_commands");
    reveal_strlit("admin_update_commands");
    reveal_strlit("admin_reload_requests");
    reveal_strlit("admin_reload_langs");
    reveal_strlit("admin_memory_report");
    reveal_strlit("guild_rank");
    reveal_strlit("top");
    reveal_strlit("cookies");
    reveal_strlit("avatar");
    reveal_strlit("banner");
    reveal_strlit("welcome");
    reveal_strlit("rateit");
    reveal_strlit("note");
    reveal_strlit("unacceptable");
    reveal_strlit("8ball");
    reveal_strlit("userinfo");
    reveal_strlit("help");
    reveal_strlit("kady");
    assert("ping"@.len() == 4 && "note"@.len() == 4 && "help"@.len() == 4 && "kady"@.len() == 4);
    assert("ping"@[0] != "note"@[0] && "ping"@[0] != "help"@[0] && "ping"@[0] != "kady"@[0]);
    assert("note"@[0] != "help"@[0] && "note"@[0] != "kady"@[0] && "help"@[0] != "kady"@[0]);
    assert("citation"@.len() == 8 && "userinfo"@.len() == 8);
    assert("citation"@[0] != "userinfo"@[0]);
    assert("admin_reload_commands"@.len() == 21 && "admin_update_commands"@.len() == 21);
    assert("admin_reload_requests"@.len() == 21);
    assert("admin_reload_commands"@[6] != "admin_update_commands"@[6]);
    assert("admin_reload_requests"@[6] != "admin_update_commands"@[6]);
    assert("admin_reload_commands"@[13] != "admin_reload_requests"@[13]);
    assert("admin_reload_langs"@.len() == 18);
    assert("admin_memory_report"@.len() == 19);
    assert("guild_rank"@.len() == 10);
    assert("top"@.len() == 3);
    assert("cookies"@.len() == 7 && "welcome"@.len() == 7);
    assert("cookies"@[0] != "welcome"@[0]);
    assert("avatar"@.len() == 6 && "banner"@.len() == 6 && "rateit"@.len() == 6);
    assert("avatar"@[0] != "banner"@[0] && "avatar"@[0] != "rateit"@[0] && "banner"@[0] != "rateit"@[0]);
    assert("unacceptable"@.len() == 12);
    assert("8ball"@.len() == 5);
}

/// The command that a name stands for; a missing name stands for none.
pub fn slash_command_of(name: &str) -> (r: SlashCommand)
    ensures
        r == slash_command_spec(name@),
{
    if str_eq(name, "ping") { SlashCommand::Ping }
    else if str_eq(name, "citation") { SlashCommand::Citation }
    else if str_eq(name, "admin_reload_commands") || str_eq(name, "admin_update_commands") { SlashCommand::AdminReloadCommands }
    else if str_eq(name, "admin_reload_requests") { SlashCommand::AdminReloadRequests }
    else if str_eq(name, "admin_reload_langs") { SlashCommand::AdminReloadLangs }
    else if str_eq(name, "admin_memory_report") { SlashCommand::AdminMemoryReport }
    else if str_eq(name, "guild_rank") { SlashCommand::GuildRank }
    else if str_eq(name, "top") { SlashCommand::Top }
    else if str_eq(name, "cookies") { SlashCommand::Cookies }
    else if str_eq(name, "avatar") { SlashCommand::Avatar }
    else if str_eq(name, "banner") { SlashCommand::Banner }
    else if str_eq(name, "welcome") { SlashCommand::Welcome }
    else if str_eq(name, "rateit") || str_eq(name, "note") { SlashCommand::RateIt }
    else if str_eq(name, "unacceptable") { SlashCommand::Unacceptable }
    else if str_eq(name, "8ball") { SlashCommand::EightBall }
    else if str_eq(name, "userinfo") { SlashCommand::UserInfo }
    else if str_eq(name, "help") { SlashCommand::Help }
    else if str_eq(name, "kady") { SlashCommand::Kady }
    else { SlashCommand::Unknown }
}

/// The buttons of the bot.
#[derive(Debug, Clone, Copy, PartialEq, Eq, Structural)]
pub enum ButtonAction {
    CaptchaRequest,
    CaptchaTry,
    AnswerCookiesQuiz,
    Suggestion,
    Unknown,
}

/// The button that the name of a custom id stands for.
pub open spec fn button_spec(n: Seq<char>) -> ButtonAction {
    if n == "CAPTCHA_REQUEST"@ { ButtonAction::CaptchaRequest }
    else if n == "CAPTCHA_TRY"@ { ButtonAction::CaptchaTry }
    else if n == "ANSWER_COOKIES_QUIZ"@ { ButtonAction::AnswerCookiesQuiz }
    else if n == "SUGGESTION"@ { ButtonAction::Suggestion }
    else { ButtonAction::Unknown }
}

/// The custom id name of each button; the unknown button has none.
pub open spec fn button_name(b: ButtonAction) -> Seq<char> {
    match b {
        ButtonAction::CaptchaRequest => "CAPTCHA_REQUEST"@,
        ButtonAction::CaptchaTry => "CAPTCHA_TRY"@,
        ButtonAction::AnswerCookiesQuiz => "ANSWER_COOKIES_QUIZ"@,
        ButtonAction::Suggestion => "SUGGESTION"@,
        ButtonAction::Unknown => Seq::empty(),
    }
}

/// Every button is routed under its own name, and a name is routed only to
/// the button it names.
pub proof fn law_button_names(b: ButtonAction, name: Seq<char>)
    ensures
        b != ButtonAction::Unknown ==> button_spec(button_name(b)) == b,
        button_spec(name) != ButtonAction::Unknown ==> name == button_name(button_spec(name)),
{
    reveal_strlit("CAPTCHA_REQUEST");
    reveal_strlit("CAPTCHA_TRY");
    reveal_strlit("ANSWER_COOKIES_QUIZ");
    reveal_strlit("SUGGESTION");
    assert("CAPTCHA_REQUEST"@.len() == 15);
    assert("CAPTCHA_TRY"@.len() == 11);
    assert("ANSWER_COOKIES_QUIZ"@.len() == 19);
    assert("SUGGESTION"@.len() == 10);
}

/// The button that the name of a custom id stands for.
pub fn button_of(name: &str) -> (r: ButtonAction)
    ensures
        r == button_spec(name@),
{
    if str_eq(name, "CAPTCHA_REQUEST") { ButtonAction::CaptchaRequest }
    else if str_eq(name, "CAPTCHA_TRY") { ButtonAction::CaptchaTry }
    else if str_eq(name, "ANSWER_COOKIES_QUIZ") { ButtonAction::AnswerCookiesQuiz }
    else if str_eq(name, "SUGGESTION") { ButtonAction::Suggestion }
    else { ButtonAction::Unknown }
}

/// The select menus of the bot.
#[derive(Debug, Clone, Copy, PartialEq, Eq, Structural)]
pub enum SelectMenuAction {
    SelectHelpCategory,
    Unknown,
}

/// The select menu that the name of a custom id stands for.
pub fn select_menu_of(name: &str) -> (r: SelectMenuAction)
    ensures
        r == if name@ == "SELECT_HELP_CATEGORY"@ { SelectMenuAction::SelectHelpCategory } else { SelectMenuAction::Unknown },
{
    if str_eq(name, "SELECT_HELP_CATEGORY") { SelectMenuAction::SelectHelpCategory } else { SelectMenuAction::Unknown }
}

/// The forms of the bot.
#[derive(Debug, Clone, Copy, PartialEq, Eq, Structural)]
pub enum ModalAction {
    CookieUserQuizAnswer,
    KadySuggest,
    KadyIssue,
    KadyReview,
    Unknown,
}

/// The form that the name of a custom id stands for.
pub open spec fn modal_spec(n: Seq<char>) -> ModalAction {
    if n == "COOKIE_USER_QUIZ_ANSWER"@ { ModalAction::CookieUserQuizAnswer }
    else if n == "KADY_SUGGEST_MODAL"@ { ModalAction::KadySuggest }
    else if n == "KADY_ISSUE_MODAL"@ { ModalAction::KadyIssue }
    else if n == "KADY_REVIEW_MODAL"@ { ModalAction::KadyReview }
    else { ModalAction::Unknown }
}

/// The custom id name of each form; the unknown form has none.
pub open spec fn modal_name(m: ModalAction) -> Seq<char> {
    match m {
        ModalAction::CookieUserQuizAnswer => "COOKIE_USER_QUIZ_ANSWER"@,
        ModalAction::KadySuggest => "KADY_SUGGEST_MODAL"@,
        ModalAction::KadyIssue => "KADY_ISSUE_MODAL"@,
        ModalAction::KadyReview => "KADY_REVIEW_MODAL"@,
        ModalAction::Unknown => Seq::empty(),
    }
}

/// Every form is routed under its own name, and a name is routed only to
/// the form it names.
pub proof fn law_modal_names(m: ModalAction, name: Seq<char>)
    ensures
        m != ModalAction::Unknown ==> modal_spec(modal_name(m)) == m,
        modal_spec(name) != ModalAction::Unknown ==> name == modal_name(modal_spec(name)),
{
    reveal_strlit("COOKIE_USER_QUIZ_ANSWER");
    reveal_strlit("KADY_SUGGEST_MODAL");
    reveal_strlit("KADY_ISSUE_MODAL");
    reveal_strlit("KADY_REVIEW_MODAL");
    assert("COOKIE_USER_QUIZ_ANSWER"@.len() == 23);
    assert("KADY_SUGGEST_MODAL"@.len() == 18);
    assert("KADY_ISSUE_MODAL"@.len() == 16);
    assert("KADY_REVIEW_MODAL"@.len() == 17);
}

/// The form that the name of a custom id stands for.
pub fn modal_of(name: &str) -> (r: ModalAction)
    ensures
        r == modal_spec(name@),
{
    if str_eq(name, "COOKIE_USER_QUIZ_ANSWER") { ModalAction::CookieUserQuizAnswer }
    else if str_eq(name, "KADY_SUGGEST_MODAL") { ModalAction::KadySuggest }
    else if str_eq(name, "KADY_ISSUE_MODAL") { ModalAction::KadyIssue }
    else if str_eq(name, "KADY_REVIEW_MODAL") { ModalAction::KadyReview }
    else { ModalAction::Unknown }
}

// ----------------------------------------------------------------------
// Locale and user

/// The language answered in when the guild's is not known.
pub open spec fn default_lang() -> Seq<char> {
    "fr"@
}

/// The locale to answer a guild in: its own where translations for it are
/// loaded, the default one otherwise.
pub fn guild_locale(locale: &Option<String>, loaded: &Vec<String>) -> (r: String)
    ensures
        r@ == match locale {
            Some(l) => if exists|i: int| 0 <= i < loaded@.len() && #[trigger] loaded@[i]@ == l@ { l@ } else { default_lang() },
            None => default_lang(),
        },
{
    match locale {
        None => String::from_str("fr"),
        Some(l) => {
            let mut i: usize = 0;
            while i < loaded.len()
                invariant
                    *locale == Some(*l),
                    i <= loaded.len(),
                    forall|j: int| 0 <= j < i ==> #[trigger] loaded@[j]@ != l@,
                decreases loaded.len() - i,
            {
                if str_eq(loaded[i].as_str(), l.as_str()) {
                    assert(loaded@[i as int]@ == l@);
                    return l.clone();
                }
                i = i + 1;
            }
            String::from_str("fr")
        },
    }
}

/// The user who acted: the user of the interaction, or else the user of
/// the member.
pub fn get_user_id(user: &Option<User>, member: &Option<GuildMember>) -> (r: Option<UserId>)
    ensures
        match user {
            Some(u) => r matches Some(id) && id@ == u.id@,
            None => match member {
                Some(m) => match m.user {
                    Some(u) => r matches Some(id) && id@ == u.id@,
                    None => r is None,
                },
                None => r is None,
            },
        },
{
    if let Some(u) = user {
        return Some(u.id.clone());
    }
    if let Some(m) = member {
        if let Some(u) = &m.user {
            return Some(u.id.clone());
        }
    }
    None
}

/// The kinds of interaction the bot routes by name.
#[derive(Debug, Clone, Copy, PartialEq, Eq, Structural)]
pub enum InteractionKind {
    SlashCommand,
    Button,
    SelectMenu,
    Modal,
}

/// The key of the text that answers an interaction nobody handles.
pub open spec fn unknown_key(kind: InteractionKind) -> Seq<char> {
    match kind {
        InteractionKind::SlashCommand => "errors::unknown_slash_command"@,
        InteractionKind::Button => "errors::unknown_button"@,
        InteractionKind::SelectMenu => "errors::unknown_select_menu"@,
        InteractionKind::Modal => "errors::unknown_modal"@,
    }
}

/// Whether an interaction nobody handles is answered: a slash command
/// always is; a component or a form only when it came from a channel.
pub open spec fn answers_unknown_spec(kind: InteractionKind, from_channel: bool) -> bool {
    kind == InteractionKind::SlashCommand || from_channel
}

/// Whether an interaction nobody handles is answered.
pub fn answers_unknown(kind: InteractionKind, from_channel: bool) -> (r: bool)
    ensures
        r == answers_unknown_spec(kind, from_channel),
{
    kind == InteractionKind::SlashCommand || from_channel
}

/// The text that answers an interaction nobody handles.
pub fn unknown_text(kind: InteractionKind) -> (r: Localized)
    ensures
        r@ == plain(unknown_key(kind)),
{
    let key = match kind {
        InteractionKind::SlashCommand => "errors::unknown_slash_command",
        InteractionKind::Button => "errors::unknown_button",
        InteractionKind::SelectMenu => "errors::unknown_select_menu",
        InteractionKind::Modal => "errors::unknown_modal",
    };
    let r = Localized { key: String::from_str(key), args: Vec::new() };
    assert(r@.args =~= Seq::<(Seq<char>, Seq<char>)>::empty());
    r
}

/// The answer to an interaction nobody handles, from the translation of its
/// text: a message only its author sees.
pub fn unknown_message(text: &str) -> (r: MessageBuilder)
    ensures
        r@ == (MessageBuilderView {
            content: Some(text@),
            flags: empty_builder().flags | crate::models::message::message_flags::EPHEMERAL,
            ..empty_builder()
        }),
{
    MessageBuilder::new().set_content(text).set_ephemeral(true)
}

/// The text of the `welcome` command.
pub fn welcome_text() -> (r: Localized)
    ensures
        r@ == plain("slashs::welcome::msg"@),
{
    let r = Localized { key: String::from_str("slashs::welcome::msg"), args: Vec::new() };
    assert(r@.args =~= Seq::<(Seq<char>, Seq<char>)>::empty());
    r
}

} // verus!
