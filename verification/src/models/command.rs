//! Application commands: the slash commands and context menu entries of
//! the bot, built here and sent to the API as JSON.

use vstd::prelude::*;
use crate::cache::UpdateCache;
use crate::json::{
    bool_or_null, object_entries, opt_bool_json, opt_string_json, opt_u64_json, str_or_null, u64_or_null, JsonNumber,
    JsonValue, JsonView, NumberView,
};
use crate::models::channel::{channel_kind_name, ChannelKind};
use crate::models::common::opt_view;
use crate::models::ids::{opt_guild_view, GuildId, Snowflake};
use crate::models::interaction::{
    application_command_option_type_code, application_command_type_code, ApplicationCommandOptionType,
    ApplicationCommandType,
};
use crate::text_map::{pairs_view, set_text, with_text};

verus! {

// ----------------------------------------------------------------------
// Values

/// A bound of a numeric option: an integer, or a number kept as the text
/// it is written with.
#[derive(Debug, PartialEq, Eq)]
pub enum OptionValue {
    Integer(i64),
    Double(String),
}

/// The values of a bound, its text taken as characters.
pub ghost enum OptionValueView {
    Integer(i64),
    Double(Seq<char>),
}

impl View for OptionValue {
    type V = OptionValueView;

    open spec fn view(&self) -> OptionValueView {
        match self {
            OptionValue::Integer(i) => OptionValueView::Integer(*i),
            OptionValue::Double(t) => OptionValueView::Double(t@),
        }
    }
}

/// The JSON number of an integer.
pub open spec fn integer_json(i: i64) -> JsonView {
    if i >= 0 {
        JsonView::Number(NumberView::PosInt(i as u64))
    } else {
        JsonView::Number(NumberView::NegInt(i))
    }
}

fn integer_value(i: i64) -> (r: JsonValue)
    ensures
        r@ == integer_json(i),
{
    if i >= 0 {
        JsonValue::Number(JsonNumber::PosInt(i as u64))
    } else {
        JsonValue::Number(JsonNumber::NegInt(i))
    }
}

/// The JSON of a bound.
pub open spec fn option_value_json(v: OptionValueView) -> JsonView {
    match v {
        OptionValueView::Integer(i) => integer_json(i),
        OptionValueView::Double(t) => JsonView::Number(NumberView::Float(t)),
    }
}

impl OptionValue {
    /// The bound as JSON.
    pub fn to_json(&self) -> (r: JsonValue)
        ensures
            r@ == option_value_json(self@),
    {
        match self {
            OptionValue::Integer(i) => integer_value(*i),
            OptionValue::Double(t) => JsonValue::Number(JsonNumber::Float(t.clone())),
        }
    }

    /// A copy of the bound.
    pub fn duplicate(&self) -> (r: OptionValue)
        ensures
            r@ == self@,
    {
        match self {
            OptionValue::Integer(i) => OptionValue::Integer(*i),
            OptionValue::Double(t) => OptionValue::Double(t.clone()),
        }
    }
}

/// The value of a choice: a text, an integer, or a number kept as the text
/// it is written with.
#[derive(Debug, PartialEq, Eq)]
pub enum CommandChoiceValue {
    String(String),
    Integer(i64),
    Double(String),
}

/// The values of a choice value, its texts taken as characters.
pub ghost enum CommandChoiceValueView {
    String(Seq<char>),
    Integer(i64),
    Double(Seq<char>),
}

impl View for CommandChoiceValue {
    type V = CommandChoiceValueView;

    open spec fn view(&self) -> CommandChoiceValueView {
        match self {
            CommandChoiceValue::String(s) => CommandChoiceValueView::String(s@),
            CommandChoiceValue::Integer(i) => CommandChoiceValueView::Integer(*i),
            CommandChoiceValue::Double(t) => CommandChoiceValueView::Double(t@),
        }
    }
}

/// The JSON of a choice value.
pub open spec fn choice_value_json(v: CommandChoiceValueView) -> JsonView {
    match v {
        CommandChoiceValueView::String(s) => JsonView::Str(s),
        CommandChoiceValueView::Integer(i) => integer_json(i),
        CommandChoiceValueView::Double(t) => JsonView::Number(NumberView::Float(t)),
    }
}

impl CommandChoiceValue {
    pub fn new_string(s: &str) -> (r: CommandChoiceValue)
        ensures
            r@ == CommandChoiceValueView::String(s@),
    {
        CommandChoiceValue::String(String::from_str(s))
    }

    pub fn new_integer(i: i64) -> (r: CommandChoiceValue)
        ensures
            r@ == CommandChoiceValueView::Integer(i),
    {
        CommandChoiceValue::Integer(i)
    }

    /// A number, given as the text it is written with.
    pub fn new_double(text: &str) -> (r: CommandChoiceValue)
        ensures
            r@ == CommandChoiceValueView::Double(text@),
    {
        CommandChoiceValue::Double(String::from_str(text))
    }

    /// The value as JSON.
    pub fn to_json(&self) -> (r: JsonValue)
        ensures
            r@ == choice_value_json(self@),
    {
        match self {
            CommandChoiceValue::String(s) => JsonValue::String(s.clone()),
            CommandChoiceValue::Integer(i) => integer_value(*i),
            CommandChoiceValue::Double(t) => JsonValue::Number(JsonNumber::Float(t.clone())),
        }
    }
}

// ----------------------------------------------------------------------
// Localizations

/// The texts of optional localizations.
pub open spec fn opt_pairs_view(o: Option<Vec<(String, String)>>) -> Option<Seq<(Seq<char>, Seq<char>)>> {
    match o {
        Some(v) => Some(pairs_view(v@)),
        None => None,
    }
}

/// Localizations as a JSON object, or `null`.
pub open spec fn localizations_json(o: Option<Seq<(Seq<char>, Seq<char>)>>) -> JsonView {
    match o {
        Some(s) => JsonView::Object(Seq::new(s.len(), |i: int| (s[i].0, JsonView::Str(s[i].1)))),
        None => JsonView::Null,
    }
}

fn localizations_value(o: &Option<Vec<(String, String)>>) -> (r: JsonValue)
    ensures
        r@ == localizations_json(opt_pairs_view(*o)),
{
    match o {
        None => JsonValue::Null,
        Some(v) => {
            let mut es: Vec<(String, JsonValue)> = Vec::new();
            let mut i: usize = 0;
            while i < v.len()
                invariant
                    i <= v.len(),
                    es@.len() == i,
                    forall|j: int| 0 <= j < i ==> (#[trigger] es@[j]).0@ == v@[j].0@ && es@[j].1@ == JsonView::Str(v@[j].1@),
                decreases v.len() - i,
            {
                es.push((v[i].0.clone(), JsonValue::String(v[i].1.clone())));
                i = i + 1;
            }
            let r = JsonValue::Object(es);
            proof {
                let expected = object_entries(localizations_json(opt_pairs_view(*o)));
                let got = object_entries(r@);
                assert forall|j: int| 0 <= j < got.len() implies got[j] == expected[j] by {
                    assert(es@[j].0@ == v@[j].0@);
                }
                assert(got =~= expected);
            }
            r
        },
    }
}

fn clone_pairs(o: &Option<Vec<(String, String)>>) -> (r: Option<Vec<(String, String)>>)
    ensures
        opt_pairs_view(r) == opt_pairs_view(*o),
{
    match o {
        None => None,
        Some(v) => {
            let mut out: Vec<(String, String)> = Vec::new();
            let mut i: usize = 0;
            while i < v.len()
                invariant
                    i <= v.len(),
                    out@.len() == i,
                    forall|j: int| 0 <= j < i ==> (#[trigger] out@[j]).0@ == v@[j].0@ && out@[j].1@ == v@[j].1@,
                decreases v.len() - i,
            {
                out.push((v[i].0.clone(), v[i].1.clone()));
                i = i + 1;
            }
            assert(pairs_view(out@) =~= pairs_view(v@));
            Some(out)
        },
    }
}

/// Gives a text to a name in optional localizations, which are made where
/// there were none.
fn set_localization(o: &mut Option<Vec<(String, String)>>, lang: &str, text: &str)
    ensures
        opt_pairs_view(*final(o)) == Some(with_text(
            match opt_pairs_view(*old(o)) { Some(s) => s, None => Seq::empty() },
            lang@,
            text@,
        )),
{
    let mut v = match o.take() {
        Some(v) => v,
        None => {
            let e: Vec<(String, String)> = Vec::new();
            assert(pairs_view(e@) =~= Seq::<(Seq<char>, Seq<char>)>::empty());
            e
        },
    };
    set_text(&mut v, lang, text);
    *o = Some(v);
}

// ----------------------------------------------------------------------
// Choices

/// A choice of an option.
#[derive(Debug)]
pub struct ApplicationCommandOptionChoice {
    pub name: String,
    pub name_localizations: Option<Vec<(String, String)>>,
    pub value: CommandChoiceValue,
}

/// The values of a choice, its texts taken as characters.
pub ghost struct ChoiceView {
    pub name: Seq<char>,
    pub name_localizations: Option<Seq<(Seq<char>, Seq<char>)>>,
    pub value: CommandChoiceValueView,
}

impl View for ApplicationCommandOptionChoice {
    type V = ChoiceView;

    open spec fn view(&self) -> ChoiceView {
        ChoiceView { name: self.name@, name_localizations: opt_pairs_view(self.name_localizations), value: self.value@ }
    }
}

/// The JSON of a choice.
pub open spec fn choice_json(c: ChoiceView) -> JsonView {
    JsonView::Object(seq![
        ("name"@, JsonView::Str(c.name)),
        ("name_localizations"@, localizations_json(c.name_localizations)),
        ("value"@, choice_value_json(c.value)),
    ])
}

impl ApplicationCommandOptionChoice {
    /// A choice with a text value.
    pub fn new_string(name: &str, value: &str) -> (r: ApplicationCommandOptionChoice)
        ensures
            r@ == (ChoiceView { name: name@, name_localizations: None, value: CommandChoiceValueView::String(value@) }),
    {
        ApplicationCommandOptionChoice { name: String::from_str(name), name_localizations: None, value: CommandChoiceValue::new_string(value) }
    }

    /// A choice with an integer value.
    pub fn new_integer(name: &str, value: i64) -> (r: ApplicationCommandOptionChoice)
        ensures
            r@ == (ChoiceView { name: name@, name_localizations: None, value: CommandChoiceValueView::Integer(value) }),
    {
        ApplicationCommandOptionChoice { name: String::from_str(name), name_localizations: None, value: CommandChoiceValue::Integer(value) }
    }

    /// Gives the name of the choice in a language.
    pub fn add_localization(self, lang: &str, name: &str) -> (r: ApplicationCommandOptionChoice)
        ensures
            r@ == (ChoiceView {
                name_localizations: Some(with_text(
                    match self@.name_localizations { Some(s) => s, None => Seq::empty() },
                    lang@,
                    name@,
                )),
                ..self@
            }),
    {
        let mut s = self;
        set_localization(&mut s.name_localizations, lang, name);
        s
    }

    /// The choice as JSON.
    pub fn to_json(&self) -> (r: JsonValue)
        ensures
            r@ == choice_json(self@),
    {
        let v0 = JsonValue::String(self.name.clone());
        let v1 = localizations_value(&self.name_localizations);
        let v2 = self.value.to_json();
        let ghost g0 = v0@;
        let ghost g1 = v1@;
        let ghost g2 = v2@;
        let mut es: Vec<(String, JsonValue)> = Vec::new();
        es.push((String::from_str("name"), v0));
        es.push((String::from_str("name_localizations"), v1));
        es.push((String::from_str("value"), v2));
        let r = JsonValue::Object(es);
        proof {
            let expected = object_entries(choice_json(self@));
            let got = object_entries(r@);
            assert(got.len() == 3);
            assert(got[0] == expected[0]);
            assert(got[1] == expected[1]);
            assert(got[2] == expected[2]);
            assert(got =~= expected);
        }
        r
    }

    /// A copy of the choice.
    pub fn duplicate(&self) -> (r: ApplicationCommandOptionChoice)
        ensures
            r@ == self@,
    {
        let value = match &self.value {
            CommandChoiceValue::String(s) => CommandChoiceValue::String(s.clone()),
            CommandChoiceValue::Integer(i) => CommandChoiceValue::Integer(*i),
            CommandChoiceValue::Double(t) => CommandChoiceValue::Double(t.clone()),
        };
        ApplicationCommandOptionChoice { name: self.name.clone(), name_localizations: clone_pairs(&self.name_localizations), value }
    }
}

// ----------------------------------------------------------------------
// Options

/// An option of a command; an option may hold options of its own.
#[derive(Debug)]
pub struct ApplicationCommandOption {
    pub option_type: ApplicationCommandOptionType,
    pub name: String,
    pub name_localizations: Option<Vec<(String, String)>>,
    pub description: String,
    pub description_localizations: Option<Vec<(String, String)>>,
    pub required: bool,
    pub choices: Option<Vec<ApplicationCommandOptionChoice>>,
    pub options: Option<Vec<ApplicationCommandOption>>,
    pub channel_types: Option<Vec<ChannelKind>>,
    pub min_value: Option<OptionValue>,
    pub max_value: Option<OptionValue>,
    pub min_length: Option<u64>,
    pub max_length: Option<u64>,
    pub autocomplete: Option<bool>,
}

/// The values of an option, its texts taken as characters.
pub ghost struct CommandOptionView {
    pub option_type: ApplicationCommandOptionType,
    pub name: Seq<char>,
    pub name_localizations: Option<Seq<(Seq<char>, Seq<char>)>>,
    pub description: Seq<char>,
    pub description_localizations: Option<Seq<(Seq<char>, Seq<char>)>>,
    pub required: bool,
    pub choices: Option<Seq<ChoiceView>>,
    pub options: Option<Seq<CommandOptionView>>,
    pub channel_types: Option<Seq<ChannelKind>>,
    pub min_value: Option<OptionValueView>,
    pub max_value: Option<OptionValueView>,
    pub min_length: Option<u64>,
    pub max_length: Option<u64>,
    pub autocomplete: Option<bool>,
}

/// The values of optional choices.
pub open spec fn opt_choices_view(o: Option<Vec<ApplicationCommandOptionChoice>>) -> Option<Seq<ChoiceView>> {
    match o {
        Some(v) => Some(Seq::new(v@.len(), |i: int| v@[i]@)),
        None => None,
    }
}

/// The values of an optional bound.
pub open spec fn opt_option_value_view(o: Option<OptionValue>) -> Option<OptionValueView> {
    match o {
        Some(v) => Some(v@),
        None => None,
    }
}

/// The values of an option.
pub open spec fn command_option_view(o: ApplicationCommandOption) -> CommandOptionView
    decreases o,
{
    CommandOptionView {
        option_type: o.option_type,
        name: o.name@,
        name_localizations: opt_pairs_view(o.name_localizations),
        description: o.description@,
        description_localizations: opt_pairs_view(o.description_localizations),
        required: o.required,
        choices: opt_choices_view(o.choices),
        options: match o.options {
            Some(v) => Some(Seq::new(
                v@.len(),
                |i: int| if 0 <= i < v@.len() { command_option_view(v@[i]) } else { arbitrary() },
            )),
            None => None,
        },
        channel_types: match o.channel_types {
            Some(v) => Some(v@),
            None => None,
        },
        min_value: opt_option_value_view(o.min_value),
        max_value: opt_option_value_view(o.max_value),
        min_length: o.min_length,
        max_length: o.max_length,
        autocomplete: o.autocomplete,
    }
}

impl View for ApplicationCommandOption {
    type V = CommandOptionView;

    open spec fn view(&self) -> CommandOptionView {
        command_option_view(*self)
    }
}

/// The values of optional options.
pub open spec fn opt_options_view(o: Option<Vec<ApplicationCommandOption>>) -> Option<Seq<CommandOptionView>> {
    match o {
        Some(v) => Some(Seq::new(v@.len(), |i: int| v@[i]@)),
        None => None,
    }
}

proof fn lemma_option_view(o: ApplicationCommandOption)
    ensures
        o@.options == opt_options_view(o.options),
{
    if let Some(v) = o.options {
        assert(o@.options->0 =~= opt_options_view(o.options)->0);
    }
}

/// The JSON of an option, its keys in the order in which they are written.
pub open spec fn command_option_json(o: CommandOptionView) -> JsonView
    decreases o,
{
    JsonView::Object(seq![
        ("autocomplete"@, bool_or_null(o.autocomplete)),
        ("channel_types"@, match o.channel_types {
            Some(ks) => JsonView::Array(Seq::new(ks.len(), |i: int| JsonView::Str(channel_kind_name(ks[i])))),
            None => JsonView::Null,
        }),
        ("choices"@, match o.choices {
            Some(cs) => JsonView::Array(Seq::new(cs.len(), |i: int| choice_json(cs[i]))),
            None => JsonView::Null,
        }),
        ("description"@, JsonView::Str(o.description)),
        ("max_length"@, u64_or_null(o.max_length)),
        ("max_value"@, match o.max_value { Some(v) => option_value_json(v), None => JsonView::Null }),
        ("min_length"@, u64_or_null(o.min_length)),
        ("min_value"@, match o.min_value { Some(v) => option_value_json(v), None => JsonView::Null }),
        ("name"@, JsonView::Str(o.name)),
        ("options"@, match o.options {
            Some(os) => JsonView::Array(Seq::new(
                os.len(),
                |i: int| if 0 <= i < os.len() { command_option_json(os[i]) } else { JsonView::Null },
            )),
            None => JsonView::Null,
        }),
        ("required"@, JsonView::Bool(o.required)),
        ("type"@, JsonView::Number(NumberView::PosInt(application_command_option_type_code(o.option_type)))),
    ])
}

/// The options after another was added at the end.
pub open spec fn options_with(o: Option<Seq<CommandOptionView>>, x: CommandOptionView) -> Option<Seq<CommandOptionView>> {
    Some(match o {
        Some(os) => os.push(x),
        None => seq![x],
    })
}

fn push_option(o: &mut Option<Vec<ApplicationCommandOption>>, x: ApplicationCommandOption)
    ensures
        opt_options_view(*final(o)) == options_with(opt_options_view(*old(o)), x@),
{
    let ghost xv = x@;
    let mut v = match o.take() {
        Some(v) => v,
        None => Vec::new(),
    };
    let ghost before = v@;
    v.push(x);
    proof {
        assert(Seq::new(v@.len(), |i: int| v@[i]@) =~= match opt_options_view(*old(o)) {
            Some(os) => os.push(xv),
            None => seq![xv],
        }) by {
            if *old(o) is None {
                assert(before.len() == 0);
            }
        }
    }
    *o = Some(v);
}

impl ApplicationCommandOption {
    /// An option with no choices, options, channel kinds or bounds.
    pub fn new(option_type: ApplicationCommandOptionType, name: &str, description: &str, required: bool) -> (r: ApplicationCommandOption)
        ensures
            r@ == (CommandOptionView {
                option_type,
                name: name@,
                name_localizations: None,
                description: description@,
                description_localizations: None,
                required,
                choices: None,
                options: None,
                channel_types: None,
                min_value: None,
                max_value: None,
                min_length: None,
                max_length: None,
                autocomplete: None,
            }),
    {
        ApplicationCommandOption {
            option_type,
            name: String::from_str(name),
            name_localizations: None,
            description: String::from_str(description),
            description_localizations: None,
            required,
            choices: None,
            options: None,
            channel_types: None,
            min_value: None,
            max_value: None,
            min_length: None,
            max_length: None,
            autocomplete: None,
        }
    }

    /// Gives the name of the option in a language.
    pub fn add_name_localization(self, lang: &str, name: &str) -> (r: ApplicationCommandOption)
        ensures
            r@ == (CommandOptionView {
                name_localizations: Some(with_text(
                    match self@.name_localizations { Some(s) => s, None => Seq::empty() },
                    lang@,
                    name@,
                )),
                ..self@
            }),
    {
        let mut s = self;
        proof {
            lemma_option_view(s);
        }
        set_localization(&mut s.name_localizations, lang, name);
        proof {
            lemma_option_view(s);
        }
        s
    }

    /// Gives the description of the option in a language.
    pub fn add_description_localization(self, lang: &str, description: &str) -> (r: ApplicationCommandOption)
        ensures
            r@ == (CommandOptionView {
                description_localizations: Some(with_text(
                    match self@.description_localizations { Some(s) => s, None => Seq::empty() },
                    lang@,
                    description@,
                )),
                ..self@
            }),
    {
        let mut s = self;
        proof {
            lemma_option_view(s);
        }
        set_localization(&mut s.description_localizations, lang, description);
        proof {
            lemma_option_view(s);
        }
        s
    }

    /// Adds an option at the end of the options of this one.
    pub fn add_option(self, option: ApplicationCommandOption) -> (r: ApplicationCommandOption)
        ensures
            r@ == (CommandOptionView { options: options_with(self@.options, option@), ..self@ }),
    {
        let mut s = self;
        proof {
            lemma_option_view(s);
        }
        push_option(&mut s.options, option);
        proof {
            lemma_option_view(s);
        }
        s
    }

    /// Adds an option at the end of the options of this one, as
    /// `add_option` does.
    pub fn add_choice(self, option: ApplicationCommandOption) -> (r: ApplicationCommandOption)
        ensures
            r@ == (CommandOptionView { options: options_with(self@.options, option@), ..self@ }),
    {
        self.add_option(option)
    }
}

/// The JSON of optional channel kinds: their names.
fn channel_types_value(o: &Option<Vec<ChannelKind>>) -> (r: JsonValue)
    ensures
        r@ == match o {
            Some(ks) => JsonView::Array(Seq::new(ks@.len(), |i: int| JsonView::Str(channel_kind_name(ks@[i])))),
            None => JsonView::Null,
        },
{
    match o {
        None => JsonValue::Null,
        Some(ks) => {
            let mut items: Vec<JsonValue> = Vec::new();
            let mut i: usize = 0;
            while i < ks.len()
                invariant
                    i <= ks.len(),
                    items@.len() == i,
                    forall|j: int| 0 <= j < i ==> (#[trigger] items@[j])@ == JsonView::Str(channel_kind_name(ks@[j])),
                decreases ks.len() - i,
            {
                items.push(JsonValue::String(String::from_str(ks[i].name())));
                i = i + 1;
            }
            let r = JsonValue::Array(items);
            assert(crate::json::json_array(r@).unwrap() =~= Seq::new(ks@.len(), |i: int| JsonView::Str(channel_kind_name(ks@[i]))));
            r
        },
    }
}

/// The JSON of optional choices.
fn choices_value(o: &Option<Vec<ApplicationCommandOptionChoice>>) -> (r: JsonValue)
    ensures
        r@ == match opt_choices_view(*o) {
            Some(cs) => JsonView::Array(Seq::new(cs.len(), |i: int| choice_json(cs[i]))),
            None => JsonView::Null,
        },
{
    match o {
        None => JsonValue::Null,
        Some(cs) => {
            let mut items: Vec<JsonValue> = Vec::new();
            let mut i: usize = 0;
            while i < cs.len()
                invariant
                    i <= cs.len(),
                    items@.len() == i,
                    forall|j: int| 0 <= j < i ==> (#[trigger] items@[j])@ == choice_json(cs@[j]@),
                decreases cs.len() - i,
            {
                items.push(cs[i].to_json());
                i = i + 1;
            }
            let r = JsonValue::Array(items);
            assert(crate::json::json_array(r@).unwrap() =~= Seq::new(cs@.len(), |i: int| choice_json(opt_choices_view(*o)->0[i])));
            r
        },
    }
}

fn opt_value_json(o: &Option<OptionValue>) -> (r: JsonValue)
    ensures
        r@ == match opt_option_value_view(*o) { Some(v) => option_value_json(v), None => JsonView::Null },
{
    match o {
        Some(v) => v.to_json(),
        None => JsonValue::Null,
    }
}

impl ApplicationCommandOption {
    /// The option as JSON.
    pub fn to_json(&self) -> (r: JsonValue)
        ensures
            r@ == command_option_json(self@),
        decreases self,
    {
        proof {
            lemma_option_view(*self);
        }
        let v_options = match &self.options {
            None => JsonValue::Null,
            Some(os) => {
                let mut items: Vec<JsonValue> = Vec::new();
                let mut i: usize = 0;
                while i < os.len()
                    invariant
                        self.options == Some(*os),
                        i <= os.len(),
                        items@.len() == i,
                        forall|j: int| 0 <= j < i ==> (#[trigger] items@[j])@ == command_option_json(os@[j]@),
                    decreases os.len() - i,
                {
                    proof {
                        assert(decreases_to!(*self => self.options));
                        assert(decreases_to!(self.options => self.options->0));
                        assert(decreases_to!(*os => os@));
                        assert(decreases_to!(os@ => os@[i as int]));
                        assert(decreases_to!(*self => os@[i as int]));
                    }
                    items.push(os[i].to_json());
                    i = i + 1;
                }
                let r = JsonValue::Array(items);
                proof {
                    let ov = self@.options->0;
                    assert(ov =~= Seq::new(os@.len(), |k: int| os@[k]@));
                    assert(crate::json::json_array(r@).unwrap().len() == ov.len());
                    assert forall|k: int| 0 <= k < ov.len() implies #[trigger] crate::json::json_array(r@).unwrap()[k] == command_option_json(ov[k]) by {
                        assert(items@[k]@ == command_option_json(os@[k]@));
                    }
                }
                r
            },
        };
        let v0 = opt_bool_json(self.autocomplete);
        let v1 = channel_types_value(&self.channel_types);
        let v2 = choices_value(&self.choices);
        let v3 = JsonValue::String(self.description.clone());
        let v4 = opt_u64_json(self.max_length);
        let v5 = opt_value_json(&self.max_value);
        let v6 = opt_u64_json(self.min_length);
        let v7 = opt_value_json(&self.min_value);
        let v8 = JsonValue::String(self.name.clone());
        let v10 = JsonValue::Bool(self.required);
        let v11 = JsonValue::Number(JsonNumber::PosInt(self.option_type.to_code()));
        let ghost g = seq![v0@, v1@, v2@, v3@, v4@, v5@, v6@, v7@, v8@, v_options@, v10@, v11@];
        let mut es: Vec<(String, JsonValue)> = Vec::new();
        es.push((String::from_str("autocomplete"), v0));
        es.push((String::from_str("channel_types"), v1));
        es.push((String::from_str("choices"), v2));
        es.push((String::from_str("description"), v3));
        es.push((String::from_str("max_length"), v4));
        es.push((String::from_str("max_value"), v5));
        es.push((String::from_str("min_length"), v6));
        es.push((String::from_str("min_value"), v7));
        es.push((String::from_str("name"), v8));
        es.push((String::from_str("options"), v_options));
        es.push((String::from_str("required"), v10));
        es.push((String::from_str("type"), v11));
        let r = JsonValue::Object(es);
        proof {
            let expected = object_entries(command_option_json(self@));
            let got = object_entries(r@);
            assert(got.len() == 12);
            assert(got[0] == expected[0]);
            assert(got[1] == expected[1]);
            assert(got[2] == expected[2]);
            assert(got[3] == expected[3]);
            assert(got[4] == expected[4]);
            assert(got[5] == expected[5]);
            assert(got[6] == expected[6]);
            assert(got[7] == expected[7]);
            assert(got[8] == expected[8]);
            if self.options is Some {
                let ov = self@.options->0;
                assert(crate::json::json_array(g[9]).unwrap() =~= crate::json::json_array(expected[9].1).unwrap());
            }
            assert(got[9] == expected[9]);
            assert(got[10] == expected[10]);
            assert(got[11] == expected[11]);
            assert(got =~= expected);
        }
        r
    }

    /// A copy of the option.
    pub fn duplicate(&self) -> (r: ApplicationCommandOption)
        ensures
            r@ == self@,
        decreases self,
    {
        proof {
            lemma_option_view(*self);
        }
        let options = match &self.options {
            None => None,
            Some(os) => {
                let mut out: Vec<ApplicationCommandOption> = Vec::new();
                let mut i: usize = 0;
                while i < os.len()
                    invariant
                        self.options == Some(*os),
                        i <= os.len(),
                        out@.len() == i,
                        forall|j: int| 0 <= j < i ==> (#[trigger] out@[j])@ == os@[j]@,
                    decreases os.len() - i,
                {
                    proof {
                        assert(decreases_to!(*self => self.options));
                        assert(decreases_to!(self.options => self.options->0));
                        assert(decreases_to!(*os => os@));
                        assert(decreases_to!(os@ => os@[i as int]));
                        assert(decreases_to!(*self => os@[i as int]));
                    }
                    out.push(os[i].duplicate());
                    i = i + 1;
                }
                assert(opt_options_view(Some(out))->0 =~= opt_options_view(self.options)->0);
                Some(out)
            },
        };
        let choices = match &self.choices {
            None => None,
            Some(cs) => {
                let mut out: Vec<ApplicationCommandOptionChoice> = Vec::new();
                let mut i: usize = 0;
                while i < cs.len()
                    invariant
                        i <= cs.len(),
                        out@.len() == i,
                        forall|j: int| 0 <= j < i ==> (#[trigger] out@[j])@ == cs@[j]@,
                    decreases cs.len() - i,
                {
                    out.push(cs[i].duplicate());
                    i = i + 1;
                }
                assert(opt_choices_view(Some(out))->0 =~= opt_choices_view(self.choices)->0);
                Some(out)
            },
        };
        let channel_types = match &self.channel_types {
            None => None,
            Some(ks) => {
                let mut out: Vec<ChannelKind> = Vec::new();
                let mut i: usize = 0;
                while i < ks.len()
                    invariant
                        i <= ks.len(),
                        out@.len() == i,
                        forall|j: int| 0 <= j < i ==> (#[trigger] out@[j]) == ks@[j],
                    decreases ks.len() - i,
                {
                    out.push(ks[i]);
                    i = i + 1;
                }
                assert(out@ =~= ks@);
                Some(out)
            },
        };
        let min_value = match &self.min_value { Some(v) => Some(v.duplicate()), None => None };
        let max_value = match &self.max_value { Some(v) => Some(v.duplicate()), None => None };
        let r = ApplicationCommandOption {
            option_type: self.option_type,
            name: self.name.clone(),
            name_localizations: clone_pairs(&self.name_localizations),
            description: self.description.clone(),
            description_localizations: clone_pairs(&self.description_localizations),
            required: self.required,
            choices,
            options,
            channel_types,
            min_value,
            max_value,
            min_length: self.min_length,
            max_length: self.max_length,
            autocomplete: self.autocomplete,
        };
        proof {
            lemma_option_view(r);
        }
        r
    }
}

// ----------------------------------------------------------------------
// Commands

/// A command of the bot.
#[derive(Debug)]
pub struct ApplicationCommand {
    pub id: Snowflake,
    pub command_type: ApplicationCommandType,
    pub application_id: Snowflake,
    pub guild_id: Option<GuildId>,
    pub name: String,
    pub name_localizations: Option<Vec<(String, String)>>,
    pub description: String,
    pub description_localizations: Option<Vec<(String, String)>>,
    /// The options of a slash command, at most 25.
    pub options: Option<Vec<ApplicationCommandOption>>,
    /// The permissions needed, as a bit set written in decimal.
    pub default_member_permissions: Option<String>,
    pub dm_permission: bool,
    /// Whether the command is age-restricted.
    pub nsfw: bool,
    pub version: Snowflake,
}

/// The values of a command, its texts taken as characters.
pub ghost struct ApplicationCommandView {
    pub id: Seq<char>,
    pub command_type: ApplicationCommandType,
    pub application_id: Seq<char>,
    pub guild_id: Option<Seq<char>>,
    pub name: Seq<char>,
    pub name_localizations: Option<Seq<(Seq<char>, Seq<char>)>>,
    pub description: Seq<char>,
    pub description_localizations: Option<Seq<(Seq<char>, Seq<char>)>>,
    pub options: Option<Seq<CommandOptionView>>,
    pub default_member_permissions: Option<Seq<char>>,
    pub dm_permission: bool,
    pub nsfw: bool,
    pub version: Seq<char>,
}

impl View for ApplicationCommand {
    type V = ApplicationCommandView;

    open spec fn view(&self) -> ApplicationCommandView {
        ApplicationCommandView {
            id: self.id@,
            command_type: self.command_type,
            application_id: self.application_id@,
            guild_id: opt_guild_view(self.guild_id),
            name: self.name@,
            name_localizations: opt_pairs_view(self.name_localizations),
            description: self.description@,
            description_localizations: opt_pairs_view(self.description_localizations),
            options: opt_options_view(self.options),
            default_member_permissions: opt_view(self.default_member_permissions),
            dm_permission: self.dm_permission,
            nsfw: self.nsfw,
            version: self.version@,
        }
    }
}

/// A new command, before the API gave it its ids.
pub open spec fn new_command_view(name: Seq<char>, description: Seq<char>, command_type: ApplicationCommandType, guild_id: Option<Seq<char>>) -> ApplicationCommandView {
    ApplicationCommandView {
        id: Seq::empty(),
        command_type,
        application_id: Seq::empty(),
        guild_id,
        name,
        name_localizations: None,
        description,
        description_localizations: None,
        options: None,
        default_member_permissions: None,
        dm_permission: false,
        nsfw: false,
        version: Seq::empty(),
    }
}

/// The JSON that creates a command.
pub open spec fn command_json(c: ApplicationCommandView) -> JsonView {
    JsonView::Object(seq![
        ("default_permission"@, str_or_null(c.default_member_permissions)),
        ("description"@, JsonView::Str(c.description)),
        ("name"@, JsonView::Str(c.name)),
        ("options"@, match c.options {
            Some(os) => JsonView::Array(Seq::new(os.len(), |i: int| command_option_json(os[i]))),
            None => JsonView::Null,
        }),
        ("type"@, JsonView::Number(NumberView::PosInt(application_command_type_code(c.command_type)))),
        ("version"@, JsonView::Str(c.version)),
    ])
}

impl ApplicationCommand {
    fn new_command(name: &str, description: &str, command_type: ApplicationCommandType, guild_id: Option<GuildId>) -> (r: ApplicationCommand)
        ensures
            r@ == new_command_view(name@, description@, command_type, opt_guild_view(guild_id)),
    {
        let r = ApplicationCommand {
            id: Snowflake(String::new()),
            command_type,
            application_id: Snowflake(String::new()),
            guild_id,
            name: String::from_str(name),
            name_localizations: None,
            description: String::from_str(description),
            description_localizations: None,
            options: None,
            default_member_permissions: None,
            dm_permission: false,
            nsfw: false,
            version: Snowflake(String::new()),
        };
        r
    }

    /// A new command for every guild.
    pub fn new_global(name: &str, description: &str, command_type: ApplicationCommandType) -> (r: ApplicationCommand)
        ensures
            r@ == new_command_view(name@, description@, command_type, None),
    {
        ApplicationCommand::new_command(name, description, command_type, None)
    }

    /// A new command for one guild.
    pub fn new_local(name: &str, description: &str, command_type: ApplicationCommandType, guild_id: GuildId) -> (r: ApplicationCommand)
        ensures
            r@ == new_command_view(name@, description@, command_type, Some(guild_id@)),
    {
        ApplicationCommand::new_command(name, description, command_type, Some(guild_id))
    }

    /// Gives the name and the description of the command in a language.
    pub fn add_localization(self, lang: &str, name: &str, description: &str) -> (r: ApplicationCommand)
        ensures
            r@ == (ApplicationCommandView {
                name_localizations: Some(with_text(
                    match self@.name_localizations { Some(s) => s, None => Seq::empty() },
                    lang@,
                    name@,
                )),
                description_localizations: Some(with_text(
                    match self@.description_localizations { Some(s) => s, None => Seq::empty() },
                    lang@,
                    description@,
                )),
                ..self@
            }),
    {
        let mut s = self;
        set_localization(&mut s.name_localizations, lang, name);
        set_localization(&mut s.description_localizations, lang, description);
        s
    }

    /// Sets whether the command may be used in direct messages.
    pub fn set_dm_permission(self, dm_permission: bool) -> (r: ApplicationCommand)
        ensures
            r@ == (ApplicationCommandView { dm_permission, ..self@ }),
    {
        let mut s = self;
        s.dm_permission = dm_permission;
        s
    }

    /// Sets whether the command is age-restricted.
    pub fn set_nsfw(self, nsfw: bool) -> (r: ApplicationCommand)
        ensures
            r@ == (ApplicationCommandView { nsfw, ..self@ }),
    {
        let mut s = self;
        s.nsfw = nsfw;
        s
    }

    /// Adds an option at the end of the options of the command.
    pub fn add_option(self, option: ApplicationCommandOption) -> (r: ApplicationCommand)
        ensures
            r@ == (ApplicationCommandView { options: options_with(self@.options, option@), ..self@ }),
    {
        let mut s = self;
        push_option(&mut s.options, option);
        s
    }

    /// The JSON that creates the command.
    pub fn to_json(&self) -> (r: JsonValue)
        ensures
            r@ == command_json(self@),
    {
        let v_options = match &self.options {
            None => JsonValue::Null,
            Some(os) => {
                let mut items: Vec<JsonValue> = Vec::new();
                let mut i: usize = 0;
                while i < os.len()
                    invariant
                        i <= os.len(),
                        items@.len() == i,
                        forall|j: int| 0 <= j < i ==> (#[trigger] items@[j])@ == command_option_json(os@[j]@),
                    decreases os.len() - i,
                {
                    items.push(os[i].to_json());
                    i = i + 1;
                }
                let r = JsonValue::Array(items);
                proof {
                    let ov = self@.options->0;
                    assert forall|k: int| 0 <= k < ov.len() implies #[trigger] crate::json::json_array(r@).unwrap()[k] == command_option_json(ov[k]) by {
                        assert(items@[k]@ == command_option_json(os@[k]@));
                    }
                }
                r
            },
        };
        let v0 = opt_string_json(&self.default_member_permissions);
        let v1 = JsonValue::String(self.description.clone());
        assert(v1@ == JsonView::Str(self@.description));
        let v2 = JsonValue::String(self.name.clone());
        assert(v2@ == JsonView::Str(self@.name));
        let code = self.command_type.to_number();
        let v4 = JsonValue::Number(JsonNumber::PosInt(code));
        assert(v4@ == JsonView::Number(NumberView::PosInt(application_command_type_code(self@.command_type))));
        let v5 = JsonValue::String(self.version.0.clone());
        assert(v5@ == JsonView::Str(self@.version));
        let ghost g3 = v_options@;
        let mut es: Vec<(String, JsonValue)> = Vec::new();
        es.push((String::from_str("default_permission"), v0));
        es.push((String::from_str("description"), v1));
        es.push((String::from_str("name"), v2));
        es.push((String::from_str("options"), v_options));
        es.push((String::from_str("type"), v4));
        es.push((String::from_str("version"), v5));
        let r = JsonValue::Object(es);
        proof {
            let expected = object_entries(command_json(self@));
            let got = object_entries(r@);
            assert(got.len() == 6);
            assert(got[0] == expected[0]);
            assert(got[1] == expected[1]);
            assert(got[2] == expected[2]);
            if self.options is Some {
                assert(crate::json::json_array(g3).unwrap() =~= crate::json::json_array(expected[3].1).unwrap());
            }
            assert(got[3] == expected[3]);
            assert(got[4] == expected[4]);
            assert(got[5] == expected[5]);
            assert(got =~= expected);
        }
        r
    }
}

impl UpdateCache for ApplicationCommand {
    fn update(&mut self, from: &Self)
        ensures
            final(self)@ == from@,
    {
        self.id = from.id.clone();
        self.command_type = from.command_type;
        self.application_id = from.application_id.clone();
        self.guild_id = from.guild_id.clone();
        self.name = from.name.clone();
        self.name_localizations = clone_pairs(&from.name_localizations);
        self.description = from.description.clone();
        self.description_localizations = clone_pairs(&from.description_localizations);
        self.options = match &from.options {
            None => None,
            Some(os) => {
                let mut out: Vec<ApplicationCommandOption> = Vec::new();
                let mut i: usize = 0;
                while i < os.len()
                    invariant
                        i <= os.len(),
                        out@.len() == i,
                        forall|j: int| 0 <= j < i ==> (#[trigger] out@[j])@ == os@[j]@,
                    decreases os.len() - i,
                {
                    out.push(os[i].duplicate());
                    i = i + 1;
                }
                assert(opt_options_view(Some(out))->0 =~= opt_options_view(from.options)->0);
                Some(out)
            },
        };
        self.default_member_permissions = from.default_member_permissions.clone();
        self.dm_permission = from.dm_permission;
        self.nsfw = from.nsfw;
        self.version = from.version.clone();
    }
}

} // verus!
