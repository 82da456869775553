//! The commands that play: `rateit`, `8ball`, `unacceptable` and `ping`.
//! The draws come from `rand`; the texts they answer are chosen here and
//! translated around them.

use vstd::prelude::*;
use crate::models::components::Emoji;
use crate::models::components::message_components::{
    ActionRow, ActionRowView, Button, ButtonStyle, ButtonView, Component, ComponentType, ComponentView,
};
use crate::models::interaction::{
    data_options_view, find_named, first_named_from, option_value_text, InteractionDataOption,
};
use crate::models::message::{empty_builder, MessageBuilder, MessageBuilderView};
use crate::profile::{display_name, display_name_of, plain, Localized, LocalizedView};
use crate::models::user::{User, UserView};
use crate::text::{decimal, u64_to_string};

verus! {

/// Draws a number below `bound` with `rand::Rng::gen_range` on
/// `rand::thread_rng`, which the crate documents as a value in the range;
/// which one is left to chance.
#[verifier::external_body]
fn random_below(bound: u64) -> (r: u64)
    requires
        bound > 0,
    ensures
        r < bound,
{
    rand::Rng::gen_range(&mut rand::thread_rng(), 0..bound)
}

fn text_pair(k: &str, v: &str) -> (r: (String, String))
    ensures
        r.0@ == k@,
        r.1@ == v@,
{
    (String::from_str(k), String::from_str(v))
}

// rateit

/// The answer of `rateit` for the grade `n`.
pub open spec fn rate_text_of(n: u64) -> LocalizedView {
    LocalizedView { key: "slashs::rateit::msg"@, args: seq![("n"@, decimal(n as nat))] }
}

/// The answer of `rateit` for the grade `n`.
pub fn rate_text(n: u64) -> (r: Localized)
    ensures
        r@ == rate_text_of(n),
{
    let v = u64_to_string(n);
    let mut args: Vec<(String, String)> = Vec::new();
    args.push(text_pair("n", v.as_str()));
    let r = Localized { key: String::from_str("slashs::rateit::msg"), args };
    assert(r@.args =~= seq![("n"@, decimal(n as nat))]);
    r
}

/// Rates something with a grade drawn below 20.
pub fn rateit() -> (r: Localized)
    ensures
        exists|n: u64| n < 20 && r@ == rate_text_of(n),
{
    let n = random_below(20);
    rate_text(n)
}

// 8ball

/// The key of the `n`-th answer of the magic ball.
pub open spec fn choice_key_of(n: u64) -> Seq<char> {
    "slashs::8ball::choices::"@ + decimal(n as nat)
}

/// The key of the `n`-th answer of the magic ball.
pub fn choice_key(n: u64) -> (r: String)
    ensures
        r@ == choice_key_of(n),
{
    let mut r = String::from_str("slashs::8ball::choices::");
    let d = u64_to_string(n);
    r.append(d.as_str());
    r
}

/// The key of an answer of the magic ball, drawn among the eight.
pub fn draw_choice_key() -> (r: String)
    ensures
        exists|n: u64| n <= 7 && r@ == choice_key_of(n),
{
    let n = random_below(8);
    choice_key(n)
}

/// The question asked: the text of the first option named `question`; none
/// when there is no such option or it holds no value.
pub open spec fn question_of(options: Option<Seq<InteractionDataOption>>) -> Option<Seq<char>> {
    match options {
        None => None,
        Some(os) => match first_named_from(data_options_view(os), "question"@, 0) {
            None => None,
            Some(k) => match data_options_view(os)[k].value {
                Some(v) => Some(option_value_text(v)),
                None => None,
            },
        },
    }
}

/// Reads the question asked from the options.
pub fn question(options: &Option<Vec<InteractionDataOption>>) -> (r: Option<String>)
    ensures
        match r {
            Some(q) => question_of(match options { Some(v) => Some(v@), None => None }) == Some(q@),
            None => question_of(match options { Some(v) => Some(v@), None => None }) is None,
        },
{
    match options {
        None => None,
        Some(os) => match find_named(os, "question") {
            None => None,
            Some(k) => {
                proof {
                    assert(data_options_view(os@)[k as int] == os@[k as int]@);
                }
                match &os[k].value {
                    Some(v) => Some(v.text()),
                    None => None,
                }
            },
        },
    }
}

/// The answer of the magic ball to who asked, with the question when there
/// is one and the translated answer drawn.
pub open spec fn ball_text_of(author: UserView, question: Option<Seq<char>>, answer: Seq<char>) -> LocalizedView {
    match question {
        Some(q) => LocalizedView {
            key: "slashs::8ball::msg"@,
            args: seq![("author"@, display_name_of(author)), ("question"@, q), ("answer"@, answer)],
        },
        None => LocalizedView {
            key: "slashs::8ball::without_question"@,
            args: seq![("author"@, display_name_of(author)), ("answer"@, answer)],
        },
    }
}

/// The answer of the magic ball.
pub fn ball_text(author: &User, question: &Option<String>, answer: &str) -> (r: Localized)
    ensures
        r@ == ball_text_of(author@, match question { Some(q) => Some(q@), None => None }, answer@),
{
    let name = display_name(author);
    let mut args: Vec<(String, String)> = Vec::new();
    args.push(text_pair("author", name.as_str()));
    match question {
        Some(q) => {
            args.push(text_pair("question", q.as_str()));
            args.push(text_pair("answer", answer));
            let r = Localized { key: String::from_str("slashs::8ball::msg"), args };
            assert(r@.args =~= seq![("author"@, display_name_of(author@)), ("question"@, q@), ("answer"@, answer@)]);
            r
        },
        None => {
            args.push(text_pair("answer", answer));
            let r = Localized { key: String::from_str("slashs::8ball::without_question"), args };
            assert(r@.args =~= seq![("author"@, display_name_of(author@)), ("answer"@, answer@)]);
            r
        },
    }
}

// unacceptable

/// The address the `unacceptable` command posts.
pub open spec fn unacceptable_link() -> Seq<char> {
    "https://cdn.discordapp.com/attachments/426802397667655680/825126979418324992/UNACCEPTABLE_1.mp4"@
}

/// The message of `unacceptable`: a video, and a link button under it.
pub open spec fn unacceptable_view() -> MessageBuilderView {
    MessageBuilderView {
        content: Some(unacceptable_link()),
        components: seq![ComponentView::ActionRow(ActionRowView {
            kind: ComponentType::ActionRow,
            components: seq![ComponentView::Button(ButtonView {
                kind: ComponentType::Button,
                style: ButtonStyle::Link,
                label: Some("Hello ?"@),
                emoji: None,
                custom_id: Seq::empty(),
                url: Some("https://www.youtube.com/watch?v=dQw4w9WgXcQ"@),
                disabled: Some(false),
            })],
        })],
        ..empty_builder()
    }
}

/// Builds the message of `unacceptable`.
pub fn unacceptable_message() -> (r: MessageBuilder)
    ensures
        r@ == unacceptable_view(),
{
    let button = Button::new("")
        .set_style(ButtonStyle::Link)
        .set_label("Hello ?")
        .set_url("https://www.youtube.com/watch?v=dQw4w9WgXcQ")
        .set_disabled(false);
    let row = ActionRow::new().add_component(Component::Button(button));
    let r = MessageBuilder::new()
        .set_content(
            "https://cdn.discordapp.com/attachments/426802397667655680/825126979418324992/UNACCEPTABLE_1.mp4",
        )
        .add_component(Component::ActionRow(row));
    proof {
        assert(""@ =~= Seq::<char>::empty()) by {
            reveal_strlit("");
        }
        assert(r@.components =~= unacceptable_view().components);
    }
    r
}

// ping

/// The sum of latencies.
pub open spec fn latency_sum(s: Seq<u128>) -> nat
    decreases s.len(),
{
    if s.len() == 0 {
        0
    } else {
        latency_sum(s.drop_last()) + s.last() as nat
    }
}

/// The mean latency of the shards, rounded down.
pub open spec fn mean_latency_of(s: Seq<u128>) -> nat {
    latency_sum(s) / s.len()
}

/// The mean latency of the shards, rounded down.
pub fn mean_latency(latencies: &Vec<u128>) -> (r: u128)
    requires
        latencies.len() > 0,
        latency_sum(latencies@) <= u128::MAX,
    ensures
        r == mean_latency_of(latencies@),
{
    let mut sum: u128 = 0;
    let mut i: usize = 0;
    while i < latencies.len()
        invariant
            i <= latencies.len(),
            sum == latency_sum(latencies@.take(i as int)),
            latency_sum(latencies@) <= u128::MAX,
        decreases latencies.len() - i,
    {
        proof {
            assert(latencies@.take(i + 1).drop_last() =~= latencies@.take(i as int));
            lemma_latency_sum_prefix(latencies@, i + 1);
        }
        sum = sum + latencies[i];
        i += 1;
    }
    proof {
        assert(latencies@.take(latencies.len() as int) =~= latencies@);
    }
    sum / (latencies.len() as u128)
}

proof fn lemma_latency_sum_prefix(s: Seq<u128>, i: int)
    requires
        0 <= i <= s.len(),
    ensures
        latency_sum(s.take(i)) <= latency_sum(s),
    decreases s.len(),
{
    if i < s.len() {
        assert(s.drop_last().take(i) =~= s.take(i));
        lemma_latency_sum_prefix(s.drop_last(), i);
    } else {
        assert(s.take(i) =~= s);
    }
}

/// What `ping` answers: that the shard is still starting, while it has no
/// latency; else its latency and number (at least 1), and a disabled button
/// that shows the mean latency of all shards.
#[derive(Debug)]
pub enum PingAnswer {
    Booting(Localized),
    Latency { content: Localized, label: Localized, emoji: Localized },
}

/// What `ping` answers, its texts taken as characters.
pub ghost enum PingAnswerView {
    Booting(LocalizedView),
    Latency { content: LocalizedView, label: LocalizedView, emoji: LocalizedView },
}

impl View for PingAnswer {
    type V = PingAnswerView;

    open spec fn view(&self) -> PingAnswerView {
        match self {
            PingAnswer::Booting(t) => PingAnswerView::Booting(t@),
            PingAnswer::Latency { content, label, emoji } => PingAnswerView::Latency {
                content: content@,
                label: label@,
                emoji: emoji@,
            },
        }
    }
}

/// What `ping` answers, from the latency of the shard that got the command,
/// the number of the client's shard and the latencies of all shards.
pub open spec fn ping_answer_of(current: u128, shard_id: u64, all: Seq<u128>) -> PingAnswerView {
    if current == 0 {
        PingAnswerView::Booting(plain("slashs::ping::booting"@))
    } else {
        PingAnswerView::Latency {
            content: LocalizedView {
                key: "slashs::ping::content"@,
                args: seq![
                    ("ping"@, decimal(current as nat)),
                    ("shard_id"@, decimal(if shard_id > 1 { shard_id as nat } else { 1 })),
                ],
            },
            label: LocalizedView {
                key: "slashs::ping::button::label"@,
                args: seq![("median"@, decimal(mean_latency_of(all)))],
            },
            emoji: plain("slashs::ping::button::emoji"@),
        }
    }
}

fn u128_text(n: u128) -> (s: String)
    ensures
        s@ == decimal(n as nat),
{
    let mut v: Vec<char> = Vec::new();
    push_decimal_u128(n, &mut v);
    assert(v@ =~= decimal(n as nat));
    crate::text::chars_to_string(v.as_slice())
}

fn push_decimal_u128(n: u128, out: &mut Vec<char>)
    ensures
        final(out)@ == old(out)@ + decimal(n as nat),
    decreases n,
{
    if n >= 10 {
        push_decimal_u128(n / 10, out);
    }
    let c = crate::text::digit_to_char((n % 10) as u64);
    out.push(c);
    proof {
        if n >= 10 {
            assert(decimal(n as nat) == decimal((n / 10) as nat).push(crate::text::digit_char((n % 10) as nat)));
        }
    }
}

/// What `ping` answers.
pub fn ping_answer(current: u128, shard_id: u64, all: &Vec<u128>) -> (r: PingAnswer)
    requires
        all.len() > 0,
        latency_sum(all@) <= u128::MAX,
    ensures
        r@ == ping_answer_of(current, shard_id, all@),
{
    let mean = mean_latency(all);
    if current == 0 {
        let t = Localized { key: String::from_str("slashs::ping::booting"), args: Vec::new() };
        assert(t@.args =~= Seq::<(Seq<char>, Seq<char>)>::empty());
        return PingAnswer::Booting(t);
    }
    let shown: u64 = if shard_id > 1 { shard_id } else { 1 };
    let p = u128_text(current);
    let sid = u64_to_string(shown);
    let mut cargs: Vec<(String, String)> = Vec::new();
    cargs.push(text_pair("ping", p.as_str()));
    cargs.push(text_pair("shard_id", sid.as_str()));
    let content = Localized { key: String::from_str("slashs::ping::content"), args: cargs };
    let m = u128_text(mean);
    let mut largs: Vec<(String, String)> = Vec::new();
    largs.push(text_pair("median", m.as_str()));
    let label = Localized { key: String::from_str("slashs::ping::button::label"), args: largs };
    let emoji = Localized { key: String::from_str("slashs::ping::button::emoji"), args: Vec::new() };
    proof {
        assert(content@.args =~= seq![("ping"@, decimal(current as nat)), ("shard_id"@, decimal(shown as nat))]);
        assert(label@.args =~= seq![("median"@, decimal(mean_latency_of(all@)))]);
        assert(emoji@.args =~= Seq::<(Seq<char>, Seq<char>)>::empty());
    }
    PingAnswer::Latency { content, label, emoji }
}

/// The message of `ping`, from the translations of its texts.
pub open spec fn ping_message_of(content: Seq<char>, label: Seq<char>, emoji: Seq<char>) -> MessageBuilderView {
    MessageBuilderView {
        content: Some(content),
        components: seq![ComponentView::ActionRow(ActionRowView {
            kind: ComponentType::ActionRow,
            components: seq![ComponentView::Button(ButtonView {
                kind: ComponentType::Button,
                style: ButtonStyle::Secondary,
                label: Some(label),
                emoji: Some(crate::models::components::EmojiView {
                    id: None,
                    name: emoji,
                    roles: Seq::empty(),
                    user: None,
                    require_colons: None,
                    managed: None,
                    animated: None,
                    available: None,
                }),
                custom_id: "A"@,
                url: None,
                disabled: Some(true),
            })],
        })],
        ..empty_builder()
    }
}

/// Builds the message of `ping` from the translations of its texts.
pub fn ping_message(content: &str, label: &str, emoji: &str) -> (r: MessageBuilder)
    ensures
        r@ == ping_message_of(content@, label@, emoji@),
{
    let button = Button::new("A")
        .set_label(label)
        .set_emoji(Emoji::new(None, emoji))
        .set_style(ButtonStyle::Secondary)
        .set_disabled(true);
    let row = ActionRow::new().add_component(Component::Button(button));
    let r = MessageBuilder::new().set_content(content).add_component(Component::ActionRow(row));
    assert(r@.components =~= ping_message_of(content@, label@, emoji@).components);
    r
}

} // verus!
