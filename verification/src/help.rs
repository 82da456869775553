//! What the help command writes of the commands it lists: a mention that
//! can be clicked for each registered command, the description of one
//! command, and the category picked in its menu.

use vstd::prelude::*;
use crate::models::command::{ApplicationCommand, ApplicationCommandView};
use crate::text::{chars_to_string, str_eq, str_to_chars};

verus! {

/// The position of the first command, from `i` on, with the given name.
pub open spec fn command_named_from(cs: Seq<ApplicationCommandView>, name: Seq<char>, i: int) -> Option<int>
    decreases cs.len() - i,
{
    if i < 0 || i >= cs.len() {
        None
    } else if cs[i].name == name {
        Some(i)
    } else {
        command_named_from(cs, name, i + 1)
    }
}

/// The values of a list of commands.
pub open spec fn commands_view(cs: Seq<ApplicationCommand>) -> Seq<ApplicationCommandView> {
    Seq::new(cs.len(), |i: int| cs[i]@)
}

/// How a command is written in the help: `</name:id>`, which the client
/// turns into a clickable mention, for the first registered command of that
/// name; else the name between backquotes.
pub open spec fn mention_of(cs: Seq<ApplicationCommandView>, name: Seq<char>) -> Seq<char> {
    match command_named_from(cs, name, 0) {
        Some(k) => "</"@ + cs[k].name + ":"@ + cs[k].id + ">"@,
        None => "`"@ + name + "`"@,
    }
}

fn append_chars(out: &mut Vec<char>, s: &str)
    ensures
        final(out)@ == old(out)@ + s@,
{
    let cs = str_to_chars(s);
    let mut i: usize = 0;
    let ghost start = out@;
    while i < cs.len()
        invariant
            i <= cs.len(),
            out@ == start + cs@.take(i as int),
        decreases cs.len() - i,
    {
        out.push(cs[i]);
        i += 1;
        assert(out@ =~= start + cs@.take(i as int));
    }
    assert(cs@.take(cs.len() as int) =~= cs@);
}

fn push_mention(out: &mut Vec<char>, commands: &Vec<ApplicationCommand>, name: &str)
    ensures
        final(out)@ == old(out)@ + mention_of(commands_view(commands@), name@),
{
    let ghost cv = commands_view(commands@);
    let ghost start = out@;
    let mut i: usize = 0;
    while i < commands.len()
        invariant
            i <= commands.len(),
            cv == commands_view(commands@),
            out@ == start,
            start == old(out)@,
            command_named_from(cv, name@, 0) == command_named_from(cv, name@, i as int),
        decreases commands.len() - i,
    {
        proof {
            assert(cv[i as int] == commands@[i as int]@);
        }
        if str_eq(commands[i].name.as_str(), name) {
            append_chars(out, "</");
            append_chars(out, commands[i].name.as_str());
            append_chars(out, ":");
            append_chars(out, commands[i].id.0.as_str());
            append_chars(out, ">");
            assert(out@ =~= start + mention_of(cv, name@));
            return;
        }
        i += 1;
    }
    append_chars(out, "`");
    append_chars(out, name);
    append_chars(out, "`");
    assert(out@ =~= start + mention_of(cv, name@));
}

/// How a command is written in the help.
pub fn command_mention(commands: &Vec<ApplicationCommand>, name: &str) -> (r: String)
    ensures
        r@ == mention_of(commands_view(commands@), name@),
{
    let mut out: Vec<char> = Vec::new();
    push_mention(&mut out, commands, name);
    assert(out@ =~= mention_of(commands_view(commands@), name@));
    chars_to_string(out.as_slice())
}

/// Texts joined by a separator.
pub open spec fn join_texts(items: Seq<Seq<char>>, sep: Seq<char>) -> Seq<char>
    decreases items.len(),
{
    if items.len() == 0 {
        Seq::empty()
    } else if items.len() == 1 {
        items[0]
    } else {
        join_texts(items.drop_last(), sep) + sep + items.last()
    }
}

/// The mentions of the named commands, joined by `, `.
pub open spec fn mentions_of(cs: Seq<ApplicationCommandView>, names: Seq<Seq<char>>) -> Seq<char> {
    join_texts(Seq::new(names.len(), |i: int| mention_of(cs, names[i])), ", "@)
}

/// Writes the mentions of the named commands, joined by `, `.
pub fn command_mentions(commands: &Vec<ApplicationCommand>, names: &Vec<String>) -> (r: String)
    ensures
        r@ == mentions_of(commands_view(commands@), Seq::new(names@.len(), |i: int| names@[i]@)),
{
    let ghost cv = commands_view(commands@);
    let ghost nv = Seq::new(names@.len(), |i: int| names@[i]@);
    let ghost ms = Seq::new(nv.len(), |i: int| mention_of(cv, nv[i]));
    let mut out: Vec<char> = Vec::new();
    let mut i: usize = 0;
    while i < names.len()
        invariant
            i <= names.len(),
            cv == commands_view(commands@),
            nv == Seq::new(names@.len(), |i: int| names@[i]@),
            ms == Seq::new(nv.len(), |i: int| mention_of(cv, nv[i])),
            out@ == join_texts(ms.take(i as int), ", "@),
        decreases names.len() - i,
    {
        let ghost before = out@;
        if i > 0 {
            append_chars(&mut out, ", ");
        }
        push_mention(&mut out, commands, names[i].as_str());
        proof {
            let t = ms.take(i + 1);
            assert(t.drop_last() =~= ms.take(i as int));
            assert(t.last() == mention_of(cv, nv[i as int]));
            if i == 0 {
                assert(before =~= Seq::<char>::empty());
                assert(out@ =~= t[0]);
            } else {
                assert(out@ =~= join_texts(t.drop_last(), ", "@) + ", "@ + t.last());
            }
        }
        i += 1;
    }
    proof {
        assert(ms.take(names.len() as int) =~= ms);
    }
    chars_to_string(out.as_slice())
}

/// The description of a command in the help: the sentence that names it
/// and its category, then, each after a blank line, its translated
/// description and its translated use when it has them.
pub open spec fn command_help_text_of(required: Seq<char>, desc: Option<Seq<char>>, use_case: Option<Seq<char>>) -> Seq<char> {
    required + match desc {
        Some(d) => "\n\n"@ + d,
        None => Seq::empty(),
    } + match use_case {
        Some(u) => "\n\n"@ + u,
        None => Seq::empty(),
    }
}

/// Writes the description of a command in the help.
pub fn command_help_text(required: &str, desc: Option<&str>, use_case: Option<&str>) -> (r: String)
    ensures
        r@ == command_help_text_of(
            required@,
            match desc { Some(d) => Some(d@), None => None },
            match use_case { Some(u) => Some(u@), None => None },
        ),
{
    let mut out: Vec<char> = Vec::new();
    append_chars(&mut out, required);
    match desc {
        Some(d) => {
            append_chars(&mut out, "\n\n");
            append_chars(&mut out, d);
        },
        None => {},
    }
    match use_case {
        Some(u) => {
            append_chars(&mut out, "\n\n");
            append_chars(&mut out, u);
        },
        None => {},
    }
    assert(out@ =~= command_help_text_of(
        required@,
        match desc { Some(d) => Some(d@), None => None },
        match use_case { Some(u) => Some(u@), None => None },
    ));
    chars_to_string(out.as_slice())
}

/// A text with each `;` turned into a line break.
pub open spec fn use_lines_of(s: Seq<char>) -> Seq<char> {
    Seq::new(s.len(), |i: int| if s[i] == ';' { '\n' } else { s[i] })
}

/// How the use of a command is shown: its steps, written apart by `;`, one
/// per line.
pub fn use_lines(s: &str) -> (r: String)
    ensures
        r@ == use_lines_of(s@),
{
    let cs = str_to_chars(s);
    let mut out: Vec<char> = Vec::new();
    let mut i: usize = 0;
    while i < cs.len()
        invariant
            i <= cs.len(),
            cs@ == s@,
            out@ == use_lines_of(s@).take(i as int),
        decreases cs.len() - i,
    {
        if cs[i] == ';' {
            out.push('\n');
        } else {
            out.push(cs[i]);
        }
        i += 1;
        assert(out@ =~= use_lines_of(s@).take(i as int));
    }
    assert(use_lines_of(s@).take(cs.len() as int) =~= use_lines_of(s@));
    chars_to_string(out.as_slice())
}

/// What the help menu shows for the category picked in it.
#[derive(Debug, PartialEq, Eq)]
pub enum HelpChoice {
    /// No category, an unknown one, or the developers' one: the menu answers
    /// that the category is invalid.
    Invalid,
    /// Every command.
    All,
    /// The commands of the category with this id.
    Category(String),
}

/// The id of the menu's entry for every command.
pub open spec fn all_categories_id() -> Seq<char> {
    "all"@
}

/// The texts of a list of strings.
pub open spec fn texts_view(v: Seq<String>) -> Seq<Seq<char>> {
    Seq::new(v.len(), |i: int| v[i]@)
}

/// The first value picked in a menu, if any.
pub open spec fn first_pick(values: Option<Seq<String>>) -> Option<Seq<char>> {
    match values {
        Some(vs) => if vs.len() > 0 { Some(vs[0]@) } else { None },
        None => None,
    }
}

/// Reads the category picked in the help menu from its first selected
/// value. `categories` holds the ids of the categories a user may open
/// (every category of commands but the developers'); `all` picks every
/// command; anything else, or no value, is invalid.
pub fn help_category_choice(values: &Option<Vec<String>>, categories: &Vec<String>) -> (r: HelpChoice)
    ensures
        match first_pick(match values { Some(v) => Some(v@), None => None }) {
            None => r == HelpChoice::Invalid,
            Some(v) => if v == all_categories_id() {
                r == HelpChoice::All
            } else if texts_view(categories@).contains(v) {
                r matches HelpChoice::Category(c) && c@ == v
            } else {
                r == HelpChoice::Invalid
            },
        },
{
    let first: &String = match values {
        Some(vs) => if vs.len() > 0 { &vs[0] } else { return HelpChoice::Invalid },
        None => return HelpChoice::Invalid,
    };
    proof {
        reveal_strlit("all");
    }
    if str_eq(first.as_str(), "all") {
        return HelpChoice::All;
    }
    let ghost pick = first_pick(match values { Some(v) => Some(v@), None => None });
    assert(pick == Some(first@));
    let mut i: usize = 0;
    while i < categories.len()
        invariant
            i <= categories.len(),
            pick == Some(first@),
            first@ != all_categories_id(),
            pick == first_pick(match values { Some(v) => Some(v@), None => None }),
            forall|j: int| 0 <= j < i ==> categories@[j]@ != first@,
        decreases categories.len() - i,
    {
        if str_eq(categories[i].as_str(), first.as_str()) {
            proof {
                assert(texts_view(categories@)[i as int] == first@);
            }
            return HelpChoice::Category(String::from_str(first.as_str()));
        }
        i = i + 1;
    }
    proof {
        assert forall|j: int| 0 <= j < texts_view(categories@).len() implies texts_view(categories@)[j] != first@ by {
            assert(categories@[j]@ != first@);
        }
    }
    HelpChoice::Invalid
}

} // verus!
