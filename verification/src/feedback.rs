//! What the forms of the `kady` command bring back (a suggestion, an issue
//! report, a review): the texts typed in them, the grade a review gives and
//! the embeds posted to the team's channels.

use vstd::prelude::*;
use crate::models::components::Color;
use crate::models::components::embed::{Author, AuthorView, Embed, EmbedView, Field, FieldView, empty_embed};
use crate::models::components::message_components::{
    components_view, lemma_action_row_view, Component, ComponentView,
};
use crate::models::interaction::option_value_text;
use crate::models::user::{image_url, User};
use crate::profile::{
    display_name, display_name_of, opt_user_view, Localized, LocalizedView, DEFAULT_AVATAR,
};
use crate::text::{chars_to_string, str_eq, str_to_chars};
use crate::text_map::{law_with_text, pairs_view, set_text, text_of, with_text, first_occurrence};

verus! {

// The texts of a form

/// The name and text of each text input, depth first, in order; an input
/// left empty gives the empty text.
pub open spec fn text_inputs(cs: Seq<ComponentView>) -> Seq<(Seq<char>, Seq<char>)>
    decreases cs,
{
    if cs.len() == 0 {
        Seq::empty()
    } else {
        text_inputs(cs.subrange(0, cs.len() - 1)) + component_text_inputs(cs[cs.len() - 1])
    }
}

/// The name and text of each text input a component holds.
pub open spec fn component_text_inputs(c: ComponentView) -> Seq<(Seq<char>, Seq<char>)>
    decreases c,
{
    match c {
        ComponentView::ActionRow(r) => {
            proof {
                assert(decreases_to!(c => r));
                assert(decreases_to!(r => r.components));
            }
            text_inputs(r.components)
        },
        ComponentView::TextInput(t) => seq![(
            t.custom_id,
            match t.value {
                Some(v) => option_value_text(v),
                None => Seq::empty(),
            },
        )],
        _ => Seq::empty(),
    }
}

/// The texts after giving each name its text, in order.
pub open spec fn apply_entries(
    s: Seq<(Seq<char>, Seq<char>)>,
    es: Seq<(Seq<char>, Seq<char>)>,
) -> Seq<(Seq<char>, Seq<char>)>
    decreases es.len(),
{
    if es.len() == 0 {
        s
    } else {
        with_text(apply_entries(s, es.drop_last()), es.last().0, es.last().1)
    }
}

proof fn lemma_apply_concat(
    s: Seq<(Seq<char>, Seq<char>)>,
    a: Seq<(Seq<char>, Seq<char>)>,
    b: Seq<(Seq<char>, Seq<char>)>,
)
    ensures
        apply_entries(s, a + b) == apply_entries(apply_entries(s, a), b),
    decreases b.len(),
{
    if b.len() == 0 {
        assert(a + b =~= a);
    } else {
        assert((a + b).drop_last() =~= a + b.drop_last());
        assert((a + b).last() == b.last());
        lemma_apply_concat(s, a, b.drop_last());
    }
}

/// The text of the last entry with the name `k`.
pub open spec fn last_text(es: Seq<(Seq<char>, Seq<char>)>, k: Seq<char>) -> Option<Seq<char>>
    decreases es.len(),
{
    if es.len() == 0 {
        None
    } else if es.last().0 == k {
        Some(es.last().1)
    } else {
        last_text(es.drop_last(), k)
    }
}

/// Gathering the texts of a form keeps, for each name, the text of the last
/// input with that name.
pub proof fn law_form_last_input_wins(es: Seq<(Seq<char>, Seq<char>)>, k: Seq<char>)
    ensures
        text_of(apply_entries(Seq::empty(), es), k) == last_text(es, k),
    decreases es.len(),
{
    if es.len() == 0 {
        assert forall|i: int| !first_occurrence(Seq::<(Seq<char>, Seq<char>)>::empty(), k, i) by {}
    } else {
        let l = es.last();
        let before = apply_entries(Seq::empty(), es.drop_last());
        law_form_last_input_wins(es.drop_last(), k);
        if l.0 == k {
            if seq!['x'] != k {
                law_with_text(before, k, l.1, seq!['x']);
            } else {
                assert(k[0] == 'x');
                assert(seq!['y'][0] == 'y');
                law_with_text(before, k, l.1, seq!['y']);
            }
        } else {
            law_with_text(before, l.0, l.1, k);
        }
    }
}

fn collect_text_inputs(components: &Vec<Component>, out: &mut Vec<(String, String)>)
    ensures
        pairs_view(final(out)@) == apply_entries(pairs_view(old(out)@), text_inputs(components_view(components@))),
    decreases components,
{
    let ghost cv = components_view(components@);
    let ghost start = pairs_view(out@);
    let mut i: usize = 0;
    proof {
        assert(cv.subrange(0, 0) =~= Seq::<ComponentView>::empty());
    }
    while i < components.len()
        invariant
            i <= components.len(),
            cv == components_view(components@),
            start == pairs_view(old(out)@),
            pairs_view(out@) == apply_entries(start, text_inputs(cv.subrange(0, i as int))),
        decreases components.len() - i,
    {
        let ghost before = pairs_view(out@);
        proof {
            assert(cv.subrange(0, i + 1).subrange(0, i as int) =~= cv.subrange(0, i as int));
            assert(cv.subrange(0, i + 1)[i as int] == cv[i as int]);
            assert(cv[i as int] == components@[i as int]@);
        }
        match &components[i] {
            Component::ActionRow(r) => {
                proof {
                    assert(decreases_to!(components => components@));
                    assert(decreases_to!(components@ => components@[i as int]));
                    assert(decreases_to!(components@[i as int] => *r));
                    assert(decreases_to!(*r => r.components));
                    lemma_action_row_view(*r);
                    assert(component_text_inputs(cv[i as int]) == text_inputs(components_view(r.components@)));
                }
                collect_text_inputs(&r.components, out);
            },
            Component::TextInput(t) => {
                let v = match &t.value {
                    Some(x) => x.text(),
                    None => String::new(),
                };
                set_text(out, t.custom_id.as_str(), v.as_str());
                proof {
                    let e = component_text_inputs(cv[i as int]);
                    assert(e == seq![(t.custom_id@, v@)]);
                    assert(e.drop_last() =~= Seq::<(Seq<char>, Seq<char>)>::empty());
                    assert(apply_entries(before, e.drop_last()) == before);
                    assert(apply_entries(before, e) == with_text(before, t.custom_id@, v@));
                }
            },
            _ => {
                proof {
                    assert(component_text_inputs(cv[i as int]) =~= Seq::<(Seq<char>, Seq<char>)>::empty());
                }
            },
        }
        proof {
            lemma_apply_concat(start, text_inputs(cv.subrange(0, i as int)), component_text_inputs(cv[i as int]));
        }
        i += 1;
    }
    proof {
        assert(cv.subrange(0, components.len() as int) =~= cv);
    }
}

/// The texts typed in a form, under the names of their inputs; where two
/// inputs share a name, the later one counts.
pub fn modal_texts(components: &Vec<Component>) -> (r: Vec<(String, String)>)
    ensures
        pairs_view(r@) == apply_entries(Seq::empty(), text_inputs(components_view(components@))),
{
    let mut out: Vec<(String, String)> = Vec::new();
    proof {
        assert(pairs_view(out@) =~= Seq::<(Seq<char>, Seq<char>)>::empty());
    }
    collect_text_inputs(components, &mut out);
    out
}

/// The text under a name, or the fallback when the form has none.
pub open spec fn text_or(texts: Seq<(Seq<char>, Seq<char>)>, k: Seq<char>, fallback: Seq<char>) -> Seq<char> {
    match text_of(texts, k) {
        Some(v) => v,
        None => fallback,
    }
}

/// The text under a name, or the fallback when the form has none.
pub fn get_text_or(texts: &Vec<(String, String)>, k: &str, fallback: &str) -> (r: String)
    ensures
        r@ == text_or(pairs_view(texts@), k@, fallback@),
{
    let ghost s = pairs_view(texts@);
    let mut i: usize = 0;
    while i < texts.len()
        invariant
            i <= texts.len(),
            s == pairs_view(texts@),
            forall|j: int| 0 <= j < i ==> #[trigger] s[j].0 != k@,
        decreases texts.len() - i,
    {
        if str_eq(texts[i].0.as_str(), k) {
            proof {
                assert(first_occurrence(s, k@, i as int));
                let c = choose|c: int| first_occurrence(s, k@, c);
                crate::text_map::lemma_first_occurrence_unique(s, k@, i as int, c);
            }
            return texts[i].1.clone();
        }
        i += 1;
    }
    proof {
        assert forall|c: int| !first_occurrence(s, k@, c) by {
            if 0 <= c < s.len() {
                assert(s[c].0 != k@);
            }
        }
    }
    String::from_str(fallback)
}

// The grade of a review

/// Whether a character is a grade from 0 to 5.
pub open spec fn is_grade_digit(c: char) -> bool {
    '0' <= c <= '5'
}

/// Whether a character is a star: `⭐` or `*`.
pub open spec fn is_star(c: char) -> bool {
    c == '⭐' || c == '*'
}

/// Whether the text from `i` to its end is one to five stars.
pub open spec fn stars_to_end(s: Seq<char>, i: int) -> bool {
    &&& 0 <= i
    &&& 1 <= s.len() - i <= 5
    &&& forall|j: int| i <= j < s.len() ==> is_star(#[trigger] s[j])
}

/// What the grade pattern matches from `i`, its alternatives tried in
/// order: a grade out of five at the start, a single grade digit, or one to
/// five stars that end the text.
pub open spec fn grade_match_at(s: Seq<char>, i: int) -> Option<Seq<char>> {
    if i == 0 && s.len() >= 3 && is_grade_digit(s[0]) && s[1] == '/' && s[2] == '5' {
        Some(s.subrange(0, 3))
    } else if 0 <= i < s.len() && is_grade_digit(s[i]) {
        Some(seq![s[i]])
    } else if stars_to_end(s, i) {
        Some(s.subrange(i, s.len() as int))
    } else {
        None
    }
}

/// The leftmost match of the grade pattern, from `i` on.
pub open spec fn grade_match_from(s: Seq<char>, i: int) -> Option<Seq<char>>
    decreases s.len() + 1 - i,
{
    if i < 0 || i > s.len() {
        None
    } else {
        match grade_match_at(s, i) {
            Some(m) => Some(m),
            None => grade_match_from(s, i + 1),
        }
    }
}

/// The grade a review gives: what the pattern
/// `^([0-5])\/5|([0-5])|(⭐|\*){1,5}$` matches first; else, when the
/// text holds a `-`, no grade (the review is refused); else the whole text.
pub open spec fn parse_note_of(s: Seq<char>) -> Option<Seq<char>> {
    match grade_match_from(s, 0) {
        Some(m) => Some(m),
        None => if s.contains('-') {
            None
        } else {
            Some(s)
        },
    }
}

fn stars_from(s: &Vec<char>, i: usize) -> (r: bool)
    requires
        i <= s.len(),
    ensures
        r == stars_to_end(s@, i as int),
{
    let n = s.len();
    if n - i < 1 || n - i > 5 {
        return false;
    }
    let mut j = i;
    while j < n
        invariant
            i <= j <= n,
            n == s.len(),
            forall|k: int| i <= k < j ==> is_star(#[trigger] s@[k]),
        decreases n - j,
    {
        if !(s[j] == '⭐' || s[j] == '*') {
            return false;
        }
        j += 1;
    }
    true
}

fn grade_at(s: &Vec<char>, i: usize) -> (r: Option<Vec<char>>)
    requires
        i <= s.len(),
    ensures
        match r {
            Some(m) => grade_match_at(s@, i as int) == Some(m@),
            None => grade_match_at(s@, i as int) is None,
        },
{
    let n = s.len();
    if i == 0 && n >= 3 && '0' <= s[0] && s[0] <= '5' && s[1] == '/' && s[2] == '5' {
        let m = vec![s[0], s[1], s[2]];
        assert(m@ =~= s@.subrange(0, 3));
        return Some(m);
    }
    if i < n && '0' <= s[i] && s[i] <= '5' {
        let m = vec![s[i]];
        assert(m@ =~= seq![s@[i as int]]);
        return Some(m);
    }
    if stars_from(s, i) {
        let mut m: Vec<char> = Vec::new();
        let mut j = i;
        while j < n
            invariant
                i <= j <= n,
                n == s.len(),
                m@ == s@.subrange(i as int, j as int),
            decreases n - j,
        {
            m.push(s[j]);
            j += 1;
            assert(m@ =~= s@.subrange(i as int, j as int));
        }
        return Some(m);
    }
    None
}

/// The grade a review gives, as `parse_note_of` says.
pub fn parse_note(source: &str) -> (r: Option<String>)
    ensures
        match r {
            Some(g) => parse_note_of(source@) == Some(g@),
            None => parse_note_of(source@) is None,
        },
{
    let s = str_to_chars(source);
    let n = s.len();
    let mut i: usize = 0;
    while i < n
        invariant
            n == s@.len(),
            s@ == source@,
            i <= n,
            grade_match_from(s@, 0) == grade_match_from(s@, i as int),
        decreases n - i,
    {
        match grade_at(&s, i) {
            Some(m) => {
                return Some(chars_to_string(m.as_slice()));
            },
            None => {},
        }
        i += 1;
    }
    proof {
        assert(grade_match_at(s@, n as int) is None);
        assert(grade_match_from(s@, n + 1) is None);
        assert(grade_match_from(s@, 0) is None);
    }
    let mut k: usize = 0;
    while k < n
        invariant
            k <= n,
            n == s@.len(),
            s@ == source@,
            grade_match_from(s@, 0) is None,
            forall|j: int| 0 <= j < k ==> #[trigger] s@[j] != '-',
        decreases n - k,
    {
        if s[k] == '-' {
            assert(s@.contains('-')) by {
                assert(s@[k as int] == '-');
            }
            return None;
        }
        k += 1;
    }
    Some(String::from_str(source))
}

// The embeds posted to the team

/// The author line of a form: the avatar and name of who filled it, or the
/// default avatar and a placeholder name when they could not be looked up.
pub open spec fn poster_author_of(user: Option<crate::models::user::UserView>) -> AuthorView {
    match user {
        Some(u) => AuthorView {
            name: display_name_of(u),
            url: None,
            icon_url: image_url("avatars"@, u.id, u.avatar, true, "png"@, 512),
            proxy_icon_url: None,
        },
        None => AuthorView {
            name: "CANNOT_RESOLVE_USERNAME"@,
            url: None,
            icon_url: Some(DEFAULT_AVATAR@),
            proxy_icon_url: None,
        },
    }
}

/// The author line of a form.
pub fn poster_author(user: &Option<User>) -> (r: Author)
    ensures
        r@ == poster_author_of(opt_user_view(*user)),
{
    match user {
        Some(u) => {
            let icon = u.avatar_url(512, true, "png");
            let icon_ref: Option<&str> = match &icon {
                Some(s) => Some(s.as_str()),
                None => None,
            };
            let name = display_name(u);
            Author::new().set_icon_url(icon_ref).set_name(name.as_str())
        },
        None => Author::new().set_icon_url(Some(DEFAULT_AVATAR)).set_name("CANNOT_RESOLVE_USERNAME"),
    }
}

/// A field with a name and a text.
pub open spec fn named_field(name: Seq<char>, value: Seq<char>) -> FieldView {
    FieldView { name, value, inline: None }
}

fn field(name: &str, value: &str) -> (r: Field)
    ensures
        r@ == named_field(name@, value@),
{
    Field::new().set_name(name).set_value(value)
}

/// The embed of a suggestion.
pub open spec fn suggestion_embed_of(texts: Seq<(Seq<char>, Seq<char>)>, user: Option<crate::models::user::UserView>) -> EmbedView {
    EmbedView {
        color: Some(Color(0xF9F871)),
        title: Some("Nouvelle suggestion"@),
        fields: Some(seq![
            named_field("💡 Suggestion"@, text_or(texts, "SUGGESTION"@, "CANNOT_GET_CUSTOM_ID--SUGGESTION"@)),
            named_field("✌️ Être re-contacté:"@, text_or(texts, "SUGGESTION_CONTACT_AFTER"@, "N'a pas répondu"@)),
        ]),
        author: Some(poster_author_of(user)),
        ..empty_embed()
    }
}

/// Builds the embed posted for a suggestion.
pub fn suggestion_embed(texts: &Vec<(String, String)>, user: &Option<User>) -> (r: Embed)
    ensures
        r@ == suggestion_embed_of(pairs_view(texts@), opt_user_view(*user)),
{
    let suggestion = get_text_or(texts, "SUGGESTION", "CANNOT_GET_CUSTOM_ID--SUGGESTION");
    let contact = get_text_or(texts, "SUGGESTION_CONTACT_AFTER", "N'a pas répondu");
    let r = Embed::new()
        .set_color(Color(0xF9F871))
        .set_title("Nouvelle suggestion")
        .add_field(field("💡 Suggestion", suggestion.as_str()))
        .add_field(field("✌️ Être re-contacté:", contact.as_str()))
        .set_author(poster_author(user));
    assert(r@.fields->0 =~= seq![
        named_field("💡 Suggestion"@, suggestion@),
        named_field("✌️ Être re-contacté:"@, contact@),
    ]);
    r
}

/// The embed of an issue report.
pub open spec fn issue_embed_of(texts: Seq<(Seq<char>, Seq<char>)>, user: Option<crate::models::user::UserView>) -> EmbedView {
    EmbedView {
        color: Some(Color(0xFF6F91)),
        title: Some("Nouveau signalement de problème"@),
        fields: Some(seq![
            named_field("🗒️ Type du bug"@, text_or(texts, "BUG_TYPE"@, "CANNOT_GET_CUSTOM_ID--BUG_TYPE"@)),
            named_field("🐛 Description du bug"@, text_or(texts, "BUG_DESCRIPTION"@, "CANNOT_GET_CUSTOM_ID--BUG_DESCRIPTION"@)),
            named_field("✌️ Être re-contacté:"@, text_or(texts, "SUGGESTION_CONTACT_AFTER"@, "N'a pas répondu"@)),
        ]),
        author: Some(poster_author_of(user)),
        ..empty_embed()
    }
}

/// Builds the embed posted for an issue report.
pub fn issue_embed(texts: &Vec<(String, String)>, user: &Option<User>) -> (r: Embed)
    ensures
        r@ == issue_embed_of(pairs_view(texts@), opt_user_view(*user)),
{
    let kind = get_text_or(texts, "BUG_TYPE", "CANNOT_GET_CUSTOM_ID--BUG_TYPE");
    let description = get_text_or(texts, "BUG_DESCRIPTION", "CANNOT_GET_CUSTOM_ID--BUG_DESCRIPTION");
    let contact = get_text_or(texts, "SUGGESTION_CONTACT_AFTER", "N'a pas répondu");
    let r = Embed::new()
        .set_color(Color(0xFF6F91))
        .set_title("Nouveau signalement de problème")
        .add_field(field("🗒️ Type du bug", kind.as_str()))
        .add_field(field("🐛 Description du bug", description.as_str()))
        .add_field(field("✌️ Être re-contacté:", contact.as_str()))
        .set_author(poster_author(user));
    assert(r@.fields->0 =~= seq![
        named_field("🗒️ Type du bug"@, kind@),
        named_field("🐛 Description du bug"@, description@),
        named_field("✌️ Être re-contacté:"@, contact@),
    ]);
    r
}

/// A text cut to its first `n` characters, as the precision of `{:.n}` cuts
/// it.
pub open spec fn cut(s: Seq<char>, n: nat) -> Seq<char> {
    if s.len() <= n {
        s
    } else {
        s.take(n as int)
    }
}

/// The embed of a review, posted at `now` (milliseconds since the UNIX
/// epoch): the review cut to 1990 characters, and the grade.
pub open spec fn review_embed_of(
    review: Seq<char>,
    grade: Seq<char>,
    user: Option<crate::models::user::UserView>,
    now: i64,
) -> EmbedView {
    EmbedView {
        color: Some(Color(0xFFAC33)),
        description: Some("> ✨ "@ + cut(review, 1990)),
        timestamp: Some(now),
        fields: Some(seq![named_field("⭐ Note"@, "> "@ + grade)]),
        author: Some(poster_author_of(user)),
        ..empty_embed()
    }
}

/// Builds the embed posted for a review.
pub fn review_embed(review: &str, grade: &str, user: &Option<User>, now: i64) -> (r: Embed)
    ensures
        r@ == review_embed_of(review@, grade@, opt_user_view(*user), now),
{
    let chars = str_to_chars(review);
    let mut d: Vec<char> = str_to_chars("> ✨ ");
    let ghost head = d@;
    let n: usize = if chars.len() < 1990 { chars.len() } else { 1990 };
    let mut i: usize = 0;
    while i < n
        invariant
            i <= n <= chars.len(),
            d@ == head + chars@.take(i as int),
        decreases n - i,
    {
        d.push(chars[i]);
        i += 1;
        assert(d@ =~= head + chars@.take(i as int));
    }
    proof {
        if chars.len() <= 1990 {
            assert(chars@.take(n as int) =~= chars@);
        }
    }
    let description = chars_to_string(d.as_slice());
    let g = str_to_chars("> ");
    let mut gv = g.clone();
    let gc = str_to_chars(grade);
    let mut j: usize = 0;
    while j < gc.len()
        invariant
            j <= gc.len(),
            gv@ == g@ + gc@.take(j as int),
        decreases gc.len() - j,
    {
        gv.push(gc[j]);
        j += 1;
        assert(gv@ =~= g@ + gc@.take(j as int));
    }
    assert(gc@.take(gc.len() as int) =~= gc@);
    let grade_text = chars_to_string(gv.as_slice());
    Embed::new()
        .set_color(Color(0xFFAC33))
        .set_description(description.as_str())
        .set_timestamp(now)
        .add_field(field("⭐ Note", grade_text.as_str()))
        .set_author(poster_author(user))
}

/// The answer to a review whose text refuses a grade: an invitation to the
/// support server.
pub fn review_refusal(support_url: &str) -> (r: Localized)
    ensures
        r@ == (LocalizedView { key: "slashs::kady::review::negative"@, args: seq![("support"@, support_url@)] }),
{
    let mut args: Vec<(String, String)> = Vec::new();
    args.push((String::from_str("support"), String::from_str(support_url)));
    let r = Localized { key: String::from_str("slashs::kady::review::negative"), args };
    assert(r@.args =~= seq![("support"@, support_url@)]);
    r
}

} // verus!
