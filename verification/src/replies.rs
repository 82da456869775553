//! The lines the bot answers when a message quotes one of the games it
//! loves, and the shaping of a message's text before it is compared with
//! them.

use vstd::prelude::*;
use crate::models::common::opt_view;
use crate::text::{chars_to_string, str_eq, str_to_chars};

verus! {

/// Whether a character is white space, as Unicode's `White_Space` property
/// (the one `char::is_whitespace` and the `\s` class of a pattern use) says.
pub open spec fn is_white_space(c: char) -> bool {
    ||| '\t' <= c <= '\r'
    ||| c == ' '
    ||| c == '\u{85}'
    ||| c == '\u{a0}'
    ||| c == '\u{1680}'
    ||| '\u{2000}' <= c <= '\u{200a}'
    ||| c == '\u{2028}'
    ||| c == '\u{2029}'
    ||| c == '\u{202f}'
    ||| c == '\u{205f}'
    ||| c == '\u{3000}'
}

fn white_space(c: char) -> (r: bool)
    ensures
        r == is_white_space(c),
{
    ('\t' <= c && c <= '\r') || c == ' ' || c == '\u{85}' || c == '\u{a0}' || c == '\u{1680}'
        || ('\u{2000}' <= c && c <= '\u{200a}') || c == '\u{2028}' || c == '\u{2029}' || c == '\u{202f}'
        || c == '\u{205f}' || c == '\u{3000}'
}

/// Where the run of white space that starts at `i` ends.
pub open spec fn run_end(s: Seq<char>, i: int) -> int
    decreases s.len() - i,
{
    if 0 <= i < s.len() && is_white_space(s[i]) {
        run_end(s, i + 1)
    } else {
        i
    }
}

/// Where the text ends once the white space at its end, before `j`, is left
/// out.
pub open spec fn trailing_start(s: Seq<char>, j: int) -> int
    decreases j,
{
    if 0 < j <= s.len() && is_white_space(s[j - 1]) {
        trailing_start(s, j - 1)
    } else {
        j
    }
}

/// A text without the white space at its start and at its end, as
/// `str::trim` gives it.
pub open spec fn trim_of(s: Seq<char>) -> Seq<char> {
    let a = run_end(s, 0);
    if a >= s.len() {
        Seq::empty()
    } else {
        s.subrange(a, trailing_start(s, s.len() as int))
    }
}

/// The position of the first white space, from `i` on.
pub open spec fn first_white_from(s: Seq<char>, i: int) -> Option<int>
    decreases s.len() - i,
{
    if i < 0 || i >= s.len() {
        None
    } else if is_white_space(s[i]) {
        Some(i)
    } else {
        first_white_from(s, i + 1)
    }
}

/// A text whose first run of white space is made one space, as replacing
/// the first match of `\s+` by a space does; the other runs stay.
pub open spec fn squeeze_first_run(s: Seq<char>) -> Seq<char> {
    match first_white_from(s, 0) {
        None => s,
        Some(i) => s.subrange(0, i) + seq![' '] + s.subrange(run_end(s, i), s.len() as int),
    }
}

proof fn lemma_run_end(s: Seq<char>, i: int)
    requires
        0 <= i <= s.len(),
    ensures
        i <= run_end(s, i) <= s.len(),
        run_end(s, i) < s.len() ==> !is_white_space(s[run_end(s, i)]),
    decreases s.len() - i,
{
    if i < s.len() && is_white_space(s[i]) {
        lemma_run_end(s, i + 1);
    }
}

proof fn lemma_trailing_start(s: Seq<char>, j: int, a: int)
    requires
        0 <= a < j <= s.len(),
        !is_white_space(s[a]),
    ensures
        a < trailing_start(s, j) <= j,
    decreases j,
{
    if is_white_space(s[j - 1]) {
        lemma_trailing_start(s, j - 1, a);
    }
}

fn run_end_at(s: &Vec<char>, i: usize) -> (r: usize)
    requires
        i <= s.len(),
    ensures
        r == run_end(s@, i as int),
{
    proof {
        lemma_run_end(s@, i as int);
    }
    let mut k = i;
    while k < s.len() && white_space(s[k])
        invariant
            i <= k <= s.len(),
            run_end(s@, k as int) == run_end(s@, i as int),
        decreases s.len() - k,
    {
        k += 1;
    }
    k
}

fn copy_range(s: &Vec<char>, a: usize, b: usize, out: &mut Vec<char>)
    requires
        a <= b <= s.len(),
    ensures
        final(out)@ == old(out)@ + s@.subrange(a as int, b as int),
{
    let mut k = a;
    let ghost start = out@;
    while k < b
        invariant
            a <= k <= b <= s.len(),
            out@ == start + s@.subrange(a as int, k as int),
            start == old(out)@,
        decreases b - k,
    {
        out.push(s[k]);
        k += 1;
        assert(out@ =~= start + s@.subrange(a as int, k as int));
    }
}

/// Whether every character of a text is white space.
pub open spec fn all_white(s: Seq<char>) -> bool {
    forall|i: int| 0 <= i < s.len() ==> is_white_space(#[trigger] s[i])
}

proof fn lemma_run_end_shift(w: Seq<char>, s: Seq<char>, v: Seq<char>, k: int)
    requires
        all_white(w),
        all_white(v),
        0 <= k <= s.len(),
    ensures
        run_end(w + s + v, w.len() + k) == if run_end(s, k) < s.len() {
            w.len() + run_end(s, k)
        } else {
            (w + s + v).len() as int
        },
    decreases s.len() + v.len() - k,
{
    let t = w + s + v;
    if k < s.len() {
        assert(t[w.len() + k] == s[k]);
        if is_white_space(s[k]) {
            lemma_run_end_shift(w, s, v, k + 1);
        }
    } else {
        lemma_run_end_tail(t, (w.len() + s.len()) as int, w.len() + k);
    }
}

proof fn lemma_run_end_tail(t: Seq<char>, a: int, i: int)
    requires
        0 <= a <= i <= t.len(),
        forall|j: int| a <= j < t.len() ==> is_white_space(#[trigger] t[j]),
    ensures
        run_end(t, i) == t.len(),
    decreases t.len() - i,
{
    if i < t.len() {
        lemma_run_end_tail(t, a, i + 1);
    }
}

proof fn lemma_run_end_lead(t: Seq<char>, n: int, i: int)
    requires
        0 <= i <= n <= t.len(),
        forall|j: int| 0 <= j < n ==> is_white_space(#[trigger] t[j]),
    ensures
        run_end(t, i) == run_end(t, n),
    decreases n - i,
{
    if i < n {
        lemma_run_end_lead(t, n, i + 1);
    }
}

proof fn lemma_trailing_shift(w: Seq<char>, s: Seq<char>, v: Seq<char>, j: int, a: int)
    requires
        all_white(w),
        all_white(v),
        0 <= a < s.len(),
        !is_white_space(s[a]),
        a < j <= s.len(),
    ensures
        trailing_start(w + s + v, w.len() + j) == w.len() + trailing_start(s, j),
    decreases j,
{
    let t = w + s + v;
    assert(t[w.len() + j - 1] == s[j - 1]);
    if is_white_space(s[j - 1]) {
        lemma_trailing_shift(w, s, v, j - 1, a);
    }
}

proof fn lemma_trailing_end(t: Seq<char>, m: int, j: int)
    requires
        0 <= m <= j <= t.len(),
        forall|i: int| m <= i < t.len() ==> is_white_space(#[trigger] t[i]),
    ensures
        trailing_start(t, j) == trailing_start(t, m),
    decreases j,
{
    if j > m {
        lemma_trailing_end(t, m, j - 1);
    }
}

/// White space around a message changes nothing of what it is taken for:
/// trimmed, it is the message itself trimmed.
pub proof fn law_padding_is_trimmed(w: Seq<char>, s: Seq<char>, v: Seq<char>)
    requires
        all_white(w),
        all_white(v),
    ensures
        trim_of(w + s + v) == trim_of(s),
{
    let t = w + s + v;
    assert forall|j: int| 0 <= j < w.len() implies is_white_space(#[trigger] t[j]) by {
        assert(t[j] == w[j]);
    }
    lemma_run_end_lead(t, w.len() as int, 0);
    lemma_run_end_shift(w, s, v, 0);
    lemma_run_end(s, 0);
    let a = run_end(s, 0);
    if a < s.len() {
        assert forall|j: int| w.len() + s.len() <= j < t.len() implies is_white_space(#[trigger] t[j]) by {
            assert(t[j] == v[j - w.len() - s.len()]);
        }
        lemma_trailing_end(t, (w.len() + s.len()) as int, t.len() as int);
        lemma_trailing_shift(w, s, v, s.len() as int, a);
        lemma_trailing_start(s, s.len() as int, a);
        assert(t.subrange(w.len() + a, w.len() + trailing_start(s, s.len() as int))
            =~= s.subrange(a, trailing_start(s, s.len() as int)));
    }
}

/// Leaves out the white space at the start and at the end of a text.
pub fn trim(s: &str) -> (r: String)
    ensures
        r@ == trim_of(s@),
{
    let cs = str_to_chars(s);
    let a = run_end_at(&cs, 0);
    let mut out: Vec<char> = Vec::new();
    if a < cs.len() {
        proof {
            lemma_run_end(cs@, 0);
            lemma_trailing_start(cs@, cs.len() as int, a as int);
        }
        let mut b = cs.len();
        while b > 0 && white_space(cs[b - 1])
            invariant
                a < b <= cs.len(),
                !is_white_space(cs@[a as int]),
                trailing_start(cs@, b as int) == trailing_start(cs@, cs.len() as int),
            decreases b,
        {
            b -= 1;
        }
        copy_range(&cs, a, b, &mut out);
        assert(out@ =~= trim_of(s@));
    } else {
        assert(out@ =~= trim_of(s@));
    }
    chars_to_string(out.as_slice())
}

/// Makes the first run of white space of a text one space.
pub fn squeeze_first_white_run(s: &str) -> (r: String)
    ensures
        r@ == squeeze_first_run(s@),
{
    let cs = str_to_chars(s);
    let n = cs.len();
    let mut i: usize = 0;
    while i < n
        invariant
            i <= n,
            n == cs@.len(),
            cs@ == s@,
            first_white_from(cs@, 0) == first_white_from(cs@, i as int),
        decreases n - i,
    {
        if white_space(cs[i]) {
            let e = run_end_at(&cs, i);
            proof {
                lemma_run_end(cs@, i as int);
            }
            let mut out: Vec<char> = Vec::new();
            copy_range(&cs, 0, i, &mut out);
            out.push(' ');
            copy_range(&cs, e, n, &mut out);
            assert(out@ =~= squeeze_first_run(s@));
            return chars_to_string(out.as_slice());
        }
        i += 1;
    }
    String::from_str(s)
}

/// The lowercase of a text, as `str::to_lowercase` maps it.
pub uninterp spec fn lowercase_of(s: Seq<char>) -> Seq<char>;

/// Maps a text to lowercase with `str::to_lowercase`, which follows
/// Unicode's lowercase mapping (a capital sigma at the end of a word takes
/// its final form, so the mapping also looks at the neighbours); its result
/// is named `lowercase_of`, a function of the text alone.
#[verifier::external_body]
fn to_lowercase(s: &str) -> (r: String)
    ensures
        r@ == lowercase_of(s@),
{
    s.to_lowercase()
}

/// The line that answers a shaped message text, if it quotes a game.
pub open spec fn reply_line_of(s: Seq<char>) -> Option<Seq<char>> {
    if s == "riki like fighting easy monsters"@ {
        Some("Dundun"@)
    } else if s == "i'm really feeling it"@ || s == "i'm really feeling it!"@ {
        Some("Said shulk!"@)
    } else if s == "hear that, noah? lanz wants something a bit meatier"@ || s == "hear that, noah? lanz wants something a bit meatier!"@ {
        Some("Eunie is as Eunie does"@)
    } else if s == "sometimes, you just gotta get wild"@ {
        Some("*pulls out the monado*"@)
    } else if s == "i am Dunban, attack me if you dare"@ || s == "i am Dunban, attack me if you dare!"@ {
        Some("Sh*ts is about to go wild!"@)
    } else if s == "maybe we'll survive after all"@ {
        Some("I like your attitude!"@)
    } else if s == "salvager code"@ {
        Some("\n## The Salvager's Code\n*by rex*\n\n1) Swim life a fish, drint like one too!\n2) Always help others that help you!\n3) Make a girl cry ? That's not gonna fly; Make a girl smile ? You pass the trial!\n4) Open a chest, it might turn out great. UNtil then it's just a crate\n5) Always be closing.\n6) First have a punch-out, then drink to forget. Once you've forgotten, the freidnship's all set\n7) Never leave a debt unpaid\n"@)
    } else if s == "double spinning edge"@ || s == "double spinning edge!"@ {
        Some("Double spinning edge!!\n*Steal the agro and die*"@)
    } else {
        None
    }
}

/// The line that answers a message text already trimmed and lowercased:
/// its first run of white space is made one space, and the result is looked
/// up in the quotes.
pub fn reply_for_lowered(lowered: &str) -> (r: Option<String>)
    ensures
        opt_view(r) == reply_line_of(squeeze_first_run(lowered@)),
{
    let squeezed = squeeze_first_white_run(lowered);
    reply_line(squeezed.as_str())
}

fn reply_line(s: &str) -> (r: Option<String>)
    ensures
        opt_view(r) == reply_line_of(s@),
{
    if str_eq(s, "riki like fighting easy monsters") {
        Some(String::from_str("Dundun"))
    } else if str_eq(s, "i'm really feeling it") || str_eq(s, "i'm really feeling it!") {
        Some(String::from_str("Said shulk!"))
    } else if str_eq(s, "hear that, noah? lanz wants something a bit meatier") || str_eq(s, "hear that, noah? lanz wants something a bit meatier!") {
        Some(String::from_str("Eunie is as Eunie does"))
    } else if str_eq(s, "sometimes, you just gotta get wild") {
        Some(String::from_str("*pulls out the monado*"))
    } else if str_eq(s, "i am Dunban, attack me if you dare") || str_eq(s, "i am Dunban, attack me if you dare!") {
        Some(String::from_str("Sh*ts is about to go wild!"))
    } else if str_eq(s, "maybe we'll survive after all") {
        Some(String::from_str("I like your attitude!"))
    } else if str_eq(s, "salvager code") {
        Some(String::from_str("\n## The Salvager's Code\n*by rex*\n\n1) Swim life a fish, drint like one too!\n2) Always help others that help you!\n3) Make a girl cry ? That's not gonna fly; Make a girl smile ? You pass the trial!\n4) Open a chest, it might turn out great. UNtil then it's just a crate\n5) Always be closing.\n6) First have a punch-out, then drink to forget. Once you've forgotten, the freidnship's all set\n7) Never leave a debt unpaid\n"))
    } else if str_eq(s, "double spinning edge") || str_eq(s, "double spinning edge!") {
        Some(String::from_str("Double spinning edge!!\n*Steal the agro and die*"))
    } else {
        None
    }
}

/// The line that answers a message, if its text, trimmed, lowercased and
/// its first run of white space made one space, quotes a game.
pub fn message_reply(content: &str) -> (r: Option<String>)
    ensures
        opt_view(r) == reply_line_of(squeeze_first_run(lowercase_of(trim_of(content@)))),
{
    let trimmed = trim(content);
    let lowered = to_lowercase(trimmed.as_str());
    reply_for_lowered(lowered.as_str())
}

} // verus!
