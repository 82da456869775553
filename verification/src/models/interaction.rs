//! Interactions: their types, the types of the answers to them, and the
//! types of application commands and of their options.

use vstd::prelude::*;
use crate::json::{json_i64, json_num, JsonNumber, JsonValue, JsonView, NumberView};
use crate::text::{signed_decimal, push_signed_decimal, chars_to_string, str_eq};
use crate::models::{kind_of, ModelError, ModelErrorKind};

verus! {

/// The type of an interaction.
#[derive(Debug, Clone, Copy, PartialEq, Eq, Structural)]
pub enum InteractionType {
    Ping,
    ApplicationCommand,
    MessageComponent,
    ApplicationCommandAutocomplete,
    ModalSubmit,
}

/// The number that stands for each interaction type.
pub open spec fn interaction_type_code(v: InteractionType) -> u8 {
    match v {
        InteractionType::Ping => 1,
        InteractionType::ApplicationCommand => 2,
        InteractionType::MessageComponent => 3,
        InteractionType::ApplicationCommandAutocomplete => 4,
        InteractionType::ModalSubmit => 5,
    }
}

/// The interaction type that a number stands for, if any.
pub open spec fn interaction_type_code_inverse(c: i64) -> Option<InteractionType> {
    if c == 1 {
        Some(InteractionType::Ping)
    } else if c == 2 {
        Some(InteractionType::ApplicationCommand)
    } else if c == 3 {
        Some(InteractionType::MessageComponent)
    } else if c == 4 {
        Some(InteractionType::ApplicationCommandAutocomplete)
    } else if c == 5 {
        Some(InteractionType::ModalSubmit)
    } else {
        None
    }
}

impl InteractionType {
    /// The number of this interaction type.
    pub fn to_code(&self) -> (r: u8)
        ensures
            r == interaction_type_code(*self),
    {
        match self {
            InteractionType::Ping => 1,
            InteractionType::ApplicationCommand => 2,
            InteractionType::MessageComponent => 3,
            InteractionType::ApplicationCommandAutocomplete => 4,
            InteractionType::ModalSubmit => 5,
        }
    }

    /// The interaction type of a number; other numbers stand for none.
    pub fn from_code(c: i64) -> (r: Option<InteractionType>)
        ensures
            r == interaction_type_code_inverse(c),
    {
        if c == 1 {
            Some(InteractionType::Ping)
        } else if c == 2 {
            Some(InteractionType::ApplicationCommand)
        } else if c == 3 {
            Some(InteractionType::MessageComponent)
        } else if c == 4 {
            Some(InteractionType::ApplicationCommandAutocomplete)
        } else if c == 5 {
            Some(InteractionType::ModalSubmit)
        } else {
            None
        }
    }
}

/// Reading the number of a interaction type gives the interaction type back.
pub proof fn law_interaction_type_code_round_trip(v: InteractionType)
    ensures
        interaction_type_code_inverse(interaction_type_code(v) as i64) == Some(v),
{
}

/// A number reads as a InteractionType only when it is that one's own number, so
/// two of them never share a number and no other number reads as one.
pub proof fn law_interaction_type_code_read_back(c: i64)
    ensures
        interaction_type_code_inverse(c) matches Some(w) ==> interaction_type_code(w) == c,
{
}

/// The type an interaction payload stands for, read from its number.
pub open spec fn interaction_type_from_json(v: JsonView) -> Result<InteractionType, ModelErrorKind> {
    match json_i64(v) {
        Some(c) => match interaction_type_code_inverse(c) {
            Some(t) => Ok(t),
            None => Err(ModelErrorKind::InvalidPayload),
        },
        None => Err(ModelErrorKind::InvalidPayload),
    }
}

impl InteractionType {
    /// Reads the type of an interaction from its number in a payload.
    pub fn from_raw(raw: &JsonValue) -> (r: Result<InteractionType, ModelError>)
        ensures
            match (r, interaction_type_from_json(raw@)) {
                (Ok(t), Ok(s)) => t == s,
                (Err(e), Err(k)) => kind_of(e) == k,
                _ => false,
            },
    {
        match raw.as_i64() {
            Some(c) => match InteractionType::from_code(c) {
                Some(t) => Ok(t),
                None => Err(ModelError::InvalidPayload(String::from_str("Unknown interaction type"))),
            },
            None => Err(ModelError::InvalidPayload(String::from_str("Unknown interaction type"))),
        }
    }
}

/// The type of an answer to an interaction.
#[derive(Debug, Clone, Copy, PartialEq, Eq, Structural)]
pub enum InteractionCallbackType {
    Pong,
    ChannelMessageWithSource,
    DeferredChannelMessageWithSource,
    DeferredUpdateMessage,
    UpdateMessage,
    ApplicationCommandAutocompleteResult,
    Modal,
}

/// The number that stands for each interaction callback type.
pub open spec fn interaction_callback_type_code(v: InteractionCallbackType) -> u64 {
    match v {
        InteractionCallbackType::Pong => 1,
        InteractionCallbackType::ChannelMessageWithSource => 4,
        InteractionCallbackType::DeferredChannelMessageWithSource => 5,
        InteractionCallbackType::DeferredUpdateMessage => 6,
        InteractionCallbackType::UpdateMessage => 7,
        InteractionCallbackType::ApplicationCommandAutocompleteResult => 8,
        InteractionCallbackType::Modal => 9,
    }
}

/// The interaction callback type that a number stands for, if any.
pub open spec fn interaction_callback_type_code_inverse(c: i64) -> Option<InteractionCallbackType> {
    if c == 1 {
        Some(InteractionCallbackType::Pong)
    } else if c == 4 {
        Some(InteractionCallbackType::ChannelMessageWithSource)
    } else if c == 5 {
        Some(InteractionCallbackType::DeferredChannelMessageWithSource)
    } else if c == 6 {
        Some(InteractionCallbackType::DeferredUpdateMessage)
    } else if c == 7 {
        Some(InteractionCallbackType::UpdateMessage)
    } else if c == 8 {
        Some(InteractionCallbackType::ApplicationCommandAutocompleteResult)
    } else if c == 9 {
        Some(InteractionCallbackType::Modal)
    } else {
        None
    }
}

impl InteractionCallbackType {
    /// The number of this interaction callback type.
    pub fn to_code(&self) -> (r: u64)
        ensures
            r == interaction_callback_type_code(*self),
    {
        match self {
            InteractionCallbackType::Pong => 1,
            InteractionCallbackType::ChannelMessageWithSource => 4,
            InteractionCallbackType::DeferredChannelMessageWithSource => 5,
            InteractionCallbackType::DeferredUpdateMessage => 6,
            InteractionCallbackType::UpdateMessage => 7,
            InteractionCallbackType::ApplicationCommandAutocompleteResult => 8,
            InteractionCallbackType::Modal => 9,
        }
    }

    /// The interaction callback type of a number; other numbers stand for none.
    pub fn from_code(c: i64) -> (r: Option<InteractionCallbackType>)
        ensures
            r == interaction_callback_type_code_inverse(c),
    {
        if c == 1 {
            Some(InteractionCallbackType::Pong)
        } else if c == 4 {
            Some(InteractionCallbackType::ChannelMessageWithSource)
        } else if c == 5 {
            Some(InteractionCallbackType::DeferredChannelMessageWithSource)
        } else if c == 6 {
            Some(InteractionCallbackType::DeferredUpdateMessage)
        } else if c == 7 {
            Some(InteractionCallbackType::UpdateMessage)
        } else if c == 8 {
            Some(InteractionCallbackType::ApplicationCommandAutocompleteResult)
        } else if c == 9 {
            Some(InteractionCallbackType::Modal)
        } else {
            None
        }
    }
}

/// Reading the number of a interaction callback type gives the interaction callback type back.
pub proof fn law_interaction_callback_type_code_round_trip(v: InteractionCallbackType)
    ensures
        interaction_callback_type_code_inverse(interaction_callback_type_code(v) as i64) == Some(v),
{
}

/// A number reads as a InteractionCallbackType only when it is that one's own number, so
/// two of them never share a number and no other number reads as one.
pub proof fn law_interaction_callback_type_code_read_back(c: i64)
    ensures
        interaction_callback_type_code_inverse(c) matches Some(w) ==> interaction_callback_type_code(w) == c,
{
}

impl InteractionCallbackType {
    /// The type as the API takes it: its number.
    pub fn to_json(&self) -> (r: JsonValue)
        ensures
            r@ == json_num(interaction_callback_type_code(*self)),
    {
        crate::json::number_value(self.to_code())
    }
}

/// The type of an application command.
#[derive(Debug, Clone, Copy, PartialEq, Eq, Structural)]
pub enum ApplicationCommandType {
    /// A slash command: a text command shown when a user types `/`.
    ChatInput,
    /// A command shown in the menu of a user.
    User,
    /// A command shown in the menu of a message.
    Message,
}

/// The number that stands for each application command type.
pub open spec fn application_command_type_code(v: ApplicationCommandType) -> u64 {
    match v {
        ApplicationCommandType::ChatInput => 1,
        ApplicationCommandType::User => 2,
        ApplicationCommandType::Message => 3,
    }
}

/// The application command type that a number stands for, if any.
pub open spec fn application_command_type_code_inverse(c: u64) -> Option<ApplicationCommandType> {
    if c == 1 {
        Some(ApplicationCommandType::ChatInput)
    } else if c == 2 {
        Some(ApplicationCommandType::User)
    } else if c == 3 {
        Some(ApplicationCommandType::Message)
    } else {
        None
    }
}

impl ApplicationCommandType {
    /// The number of this application command type.
    pub fn to_number(&self) -> (r: u64)
        ensures
            r == application_command_type_code(*self),
    {
        match self {
            ApplicationCommandType::ChatInput => 1,
            ApplicationCommandType::User => 2,
            ApplicationCommandType::Message => 3,
        }
    }

    /// The application command type of a number; other numbers stand for none.
    pub fn from_code(c: u64) -> (r: Option<ApplicationCommandType>)
        ensures
            r == application_command_type_code_inverse(c),
    {
        if c == 1 {
            Some(ApplicationCommandType::ChatInput)
        } else if c == 2 {
            Some(ApplicationCommandType::User)
        } else if c == 3 {
            Some(ApplicationCommandType::Message)
        } else {
            None
        }
    }
}

/// Reading the number of a application command type gives the application command type back.
pub proof fn law_application_command_type_code_round_trip(v: ApplicationCommandType)
    ensures
        application_command_type_code_inverse(application_command_type_code(v) as u64) == Some(v),
{
}

/// A number reads as a ApplicationCommandType only when it is that one's own number, so
/// two of them never share a number and no other number reads as one.
pub proof fn law_application_command_type_code_read_back(c: u64)
    ensures
        application_command_type_code_inverse(c) matches Some(w) ==> application_command_type_code(w) == c,
{
}

/// The type of an option of an application command.
#[derive(Debug, Clone, Copy, PartialEq, Eq, Structural)]
pub enum ApplicationCommandOptionType {
    SubCommand,
    SubCommandGroup,
    String,
    Integer,
    Boolean,
    User,
    Channel,
    Role,
    Mentionable,
    Number,
    Attachment,
}

/// The number that stands for each application command option type.
pub open spec fn application_command_option_type_code(v: ApplicationCommandOptionType) -> u64 {
    match v {
        ApplicationCommandOptionType::SubCommand => 1,
        ApplicationCommandOptionType::SubCommandGroup => 2,
        ApplicationCommandOptionType::String => 3,
        ApplicationCommandOptionType::Integer => 4,
        ApplicationCommandOptionType::Boolean => 5,
        ApplicationCommandOptionType::User => 6,
        ApplicationCommandOptionType::Channel => 7,
        ApplicationCommandOptionType::Role => 8,
        ApplicationCommandOptionType::Mentionable => 9,
        ApplicationCommandOptionType::Number => 10,
        ApplicationCommandOptionType::Attachment => 11,
    }
}

/// The application command option type that a number stands for, if any.
pub open spec fn application_command_option_type_code_inverse(c: u64) -> Option<ApplicationCommandOptionType> {
    if c == 1 {
        Some(ApplicationCommandOptionType::SubCommand)
    } else if c == 2 {
        Some(ApplicationCommandOptionType::SubCommandGroup)
    } else if c == 3 {
        Some(ApplicationCommandOptionType::String)
    } else if c == 4 {
        Some(ApplicationCommandOptionType::Integer)
    } else if c == 5 {
        Some(ApplicationCommandOptionType::Boolean)
    } else if c == 6 {
        Some(ApplicationCommandOptionType::User)
    } else if c == 7 {
        Some(ApplicationCommandOptionType::Channel)
    } else if c == 8 {
        Some(ApplicationCommandOptionType::Role)
    } else if c == 9 {
        Some(ApplicationCommandOptionType::Mentionable)
    } else if c == 10 {
        Some(ApplicationCommandOptionType::Number)
    } else if c == 11 {
        Some(ApplicationCommandOptionType::Attachment)
    } else {
        None
    }
}

impl ApplicationCommandOptionType {
    /// The number of this application command option type.
    pub fn to_code(&self) -> (r: u64)
        ensures
            r == application_command_option_type_code(*self),
    {
        match self {
            ApplicationCommandOptionType::SubCommand => 1,
            ApplicationCommandOptionType::SubCommandGroup => 2,
            ApplicationCommandOptionType::String => 3,
            ApplicationCommandOptionType::Integer => 4,
            ApplicationCommandOptionType::Boolean => 5,
            ApplicationCommandOptionType::User => 6,
            ApplicationCommandOptionType::Channel => 7,
            ApplicationCommandOptionType::Role => 8,
            ApplicationCommandOptionType::Mentionable => 9,
            ApplicationCommandOptionType::Number => 10,
            ApplicationCommandOptionType::Attachment => 11,
        }
    }

    /// The application command option type of a number; other numbers stand for none.
    pub fn from_code(c: u64) -> (r: Option<ApplicationCommandOptionType>)
        ensures
            r == application_command_option_type_code_inverse(c),
    {
        if c == 1 {
            Some(ApplicationCommandOptionType::SubCommand)
        } else if c == 2 {
            Some(ApplicationCommandOptionType::SubCommandGroup)
        } else if c == 3 {
            Some(ApplicationCommandOptionType::String)
        } else if c == 4 {
            Some(ApplicationCommandOptionType::Integer)
        } else if c == 5 {
            Some(ApplicationCommandOptionType::Boolean)
        } else if c == 6 {
            Some(ApplicationCommandOptionType::User)
        } else if c == 7 {
            Some(ApplicationCommandOptionType::Channel)
        } else if c == 8 {
            Some(ApplicationCommandOptionType::Role)
        } else if c == 9 {
            Some(ApplicationCommandOptionType::Mentionable)
        } else if c == 10 {
            Some(ApplicationCommandOptionType::Number)
        } else if c == 11 {
            Some(ApplicationCommandOptionType::Attachment)
        } else {
            None
        }
    }
}

/// Reading the number of a application command option type gives the application command option type back.
pub proof fn law_application_command_option_type_code_round_trip(v: ApplicationCommandOptionType)
    ensures
        application_command_option_type_code_inverse(application_command_option_type_code(v) as u64) == Some(v),
{
}

/// A number reads as a ApplicationCommandOptionType only when it is that one's own number, so
/// two of them never share a number and no other number reads as one.
pub proof fn law_application_command_option_type_code_read_back(c: u64)
    ensures
        application_command_option_type_code_inverse(c) matches Some(w) ==> application_command_option_type_code(w) == c,
{
}

impl ApplicationCommandOptionType {
    /// The type as the API takes it: its number.
    pub fn to_json(&self) -> (r: JsonValue)
        ensures
            r@ == json_num(application_command_option_type_code(*self)),
    {
        crate::json::number_value(self.to_code())
    }
}

/// The value of an option, as the user gave it.
#[derive(Debug, PartialEq, Eq)]
pub enum InteractionDataOptionValue {
    String(String),
    Integer(i64),
    /// A number that is not an integer, kept as the text it is written with.
    Double(String),
    Boolean(bool),
    /// No value.
    Empty,
}

/// The value of an option, its texts taken as characters.
pub ghost enum OptionValueView {
    String(Seq<char>),
    Integer(i64),
    Double(Seq<char>),
    Boolean(bool),
    Empty,
}

impl View for InteractionDataOptionValue {
    type V = OptionValueView;

    open spec fn view(&self) -> OptionValueView {
        match self {
            InteractionDataOptionValue::String(s) => OptionValueView::String(s@),
            InteractionDataOptionValue::Integer(i) => OptionValueView::Integer(*i),
            InteractionDataOptionValue::Double(d) => OptionValueView::Double(d@),
            InteractionDataOptionValue::Boolean(b) => OptionValueView::Boolean(*b),
            InteractionDataOptionValue::Empty => OptionValueView::Empty,
        }
    }
}

impl Clone for InteractionDataOptionValue {
    fn clone(&self) -> (r: InteractionDataOptionValue)
        ensures
            r@ == self@,
    {
        match self {
            InteractionDataOptionValue::String(s) => InteractionDataOptionValue::String(s.clone()),
            InteractionDataOptionValue::Integer(i) => InteractionDataOptionValue::Integer(*i),
            InteractionDataOptionValue::Double(d) => InteractionDataOptionValue::Double(d.clone()),
            InteractionDataOptionValue::Boolean(b) => InteractionDataOptionValue::Boolean(*b),
            InteractionDataOptionValue::Empty => InteractionDataOptionValue::Empty,
        }
    }
}

impl Default for InteractionDataOptionValue {
    fn default() -> (r: InteractionDataOptionValue)
        ensures
            r@ == OptionValueView::Empty,
    {
        InteractionDataOptionValue::Empty
    }
}

impl From<String> for InteractionDataOptionValue {
    fn from(value: String) -> (r: InteractionDataOptionValue) {
        InteractionDataOptionValue::String(value)
    }
}

impl vstd::std_specs::convert::FromSpecImpl<String> for InteractionDataOptionValue {
    open spec fn obeys_from_spec() -> bool {
        true
    }

    open spec fn from_spec(value: String) -> InteractionDataOptionValue {
        InteractionDataOptionValue::String(value)
    }
}

/// The text of a value, as it is displayed.
pub open spec fn option_value_text(v: OptionValueView) -> Seq<char> {
    match v {
        OptionValueView::String(s) => s,
        OptionValueView::Integer(i) => signed_decimal(i as int),
        OptionValueView::Double(d) => d,
        OptionValueView::Boolean(b) => if b { "true"@ } else { "false"@ },
        OptionValueView::Empty => Seq::empty(),
    }
}

/// A value as the API takes it.
pub open spec fn option_value_json(v: OptionValueView) -> JsonView {
    match v {
        OptionValueView::String(s) => JsonView::Str(s),
        OptionValueView::Integer(i) => if i >= 0 {
            JsonView::Number(NumberView::PosInt(i as u64))
        } else {
            JsonView::Number(NumberView::NegInt(i))
        },
        OptionValueView::Double(d) => JsonView::Number(NumberView::Float(d)),
        OptionValueView::Boolean(b) => JsonView::Bool(b),
        OptionValueView::Empty => JsonView::Null,
    }
}

impl InteractionDataOptionValue {
    /// Whether two values are the same.
    pub fn same(&self, other: &InteractionDataOptionValue) -> (r: bool)
        ensures
            r == (self@ == other@),
    {
        match (self, other) {
            (InteractionDataOptionValue::String(a), InteractionDataOptionValue::String(b)) => *a == *b,
            (InteractionDataOptionValue::Integer(a), InteractionDataOptionValue::Integer(b)) => *a == *b,
            (InteractionDataOptionValue::Double(a), InteractionDataOptionValue::Double(b)) => *a == *b,
            (InteractionDataOptionValue::Boolean(a), InteractionDataOptionValue::Boolean(b)) => *a == *b,
            (InteractionDataOptionValue::Empty, InteractionDataOptionValue::Empty) => true,
            _ => false,
        }
    }

    /// The text of the value, as it is displayed.
    pub fn text(&self) -> (r: String)
        ensures
            r@ == option_value_text(self@),
    {
        match self {
            InteractionDataOptionValue::String(s) => s.clone(),
            InteractionDataOptionValue::Integer(i) => {
                let mut v: Vec<char> = Vec::new();
                push_signed_decimal(*i, &mut v);
                proof {
                    assert(v@ =~= signed_decimal(*i as int));
                }
                chars_to_string(v.as_slice())
            },
            InteractionDataOptionValue::Double(d) => d.clone(),
            InteractionDataOptionValue::Boolean(b) => if *b {
                String::from_str("true")
            } else {
                String::from_str("false")
            },
            InteractionDataOptionValue::Empty => String::new(),
        }
    }

    /// The value as the API takes it.
    pub fn to_json(&self) -> (r: JsonValue)
        ensures
            r@ == option_value_json(self@),
    {
        match self {
            InteractionDataOptionValue::String(s) => JsonValue::String(s.clone()),
            InteractionDataOptionValue::Integer(i) => if *i >= 0 {
                JsonValue::Number(JsonNumber::PosInt(*i as u64))
            } else {
                JsonValue::Number(JsonNumber::NegInt(*i))
            },
            InteractionDataOptionValue::Double(d) => JsonValue::Number(JsonNumber::Float(d.clone())),
            InteractionDataOptionValue::Boolean(b) => JsonValue::Bool(*b),
            InteractionDataOptionValue::Empty => JsonValue::Null,
        }
    }
}

pub open spec fn opt_option_value_view(o: Option<InteractionDataOptionValue>) -> Option<OptionValueView> {
    match o {
        Some(v) => Some(v@),
        None => None,
    }
}

/// Whether two optional values are the same.
pub fn opt_option_value_eq(a: &Option<InteractionDataOptionValue>, b: &Option<InteractionDataOptionValue>) -> (r: bool)
    ensures
        r == (opt_option_value_view(*a) == opt_option_value_view(*b)),
{
    match (a, b) {
        (Some(x), Some(y)) => x.same(y),
        (None, None) => true,
        _ => false,
    }
}

/// A copy of an optional value.
pub fn clone_opt_option_value(a: &Option<InteractionDataOptionValue>) -> (r: Option<InteractionDataOptionValue>)
    ensures
        opt_option_value_view(r) == opt_option_value_view(*a),
{
    match a {
        Some(x) => Some(x.clone()),
        None => None,
    }
}


// Options the user filled in

/// An option of a command as the user filled it in; a subcommand holds the
/// options of its own.
#[derive(Debug)]
pub struct InteractionDataOption {
    pub name: String,
    pub option_type: ApplicationCommandOptionType,
    pub value: Option<InteractionDataOptionValue>,
    pub options: Option<Vec<InteractionDataOption>>,
    pub focused: Option<bool>,
}

/// The values of a filled-in option, its texts taken as characters.
pub ghost struct DataOptionView {
    pub name: Seq<char>,
    pub option_type: ApplicationCommandOptionType,
    pub value: Option<OptionValueView>,
    pub options: Option<Seq<DataOptionView>>,
    pub focused: Option<bool>,
}

/// The values of a filled-in option.
pub open spec fn data_option_view(o: InteractionDataOption) -> DataOptionView
    decreases o,
{
    DataOptionView {
        name: o.name@,
        option_type: o.option_type,
        value: opt_option_value_view(o.value),
        options: match o.options {
            Some(v) => Some(Seq::new(
                v@.len(),
                |i: int| if 0 <= i < v@.len() { data_option_view(v@[i]) } else { arbitrary() },
            )),
            None => None,
        },
        focused: o.focused,
    }
}

impl View for InteractionDataOption {
    type V = DataOptionView;

    open spec fn view(&self) -> DataOptionView {
        data_option_view(*self)
    }
}

/// The values of a list of filled-in options.
pub open spec fn data_options_view(v: Seq<InteractionDataOption>) -> Seq<DataOptionView> {
    Seq::new(v.len(), |i: int| v[i]@)
}

/// Whether an option has the given name and type.
pub open spec fn option_is(o: DataOptionView, name: Seq<char>, kind: ApplicationCommandOptionType) -> bool {
    o.name == name && o.option_type == kind
}

/// The position of the first option, from `i` on, with the given name and
/// type.
pub open spec fn first_option_from(
    os: Seq<DataOptionView>,
    name: Seq<char>,
    kind: ApplicationCommandOptionType,
    i: int,
) -> Option<int>
    decreases os.len() - i,
{
    if i < 0 || i >= os.len() {
        None
    } else if option_is(os[i], name, kind) {
        Some(i)
    } else {
        first_option_from(os, name, kind, i + 1)
    }
}

/// The position of the first option with the given name and type.
pub open spec fn first_option(os: Seq<DataOptionView>, name: Seq<char>, kind: ApplicationCommandOptionType) -> Option<int> {
    first_option_from(os, name, kind, 0)
}

/// The first option found from `i` on lies at or after `i`, and has the name
/// and type.
pub proof fn lemma_first_option_from(os: Seq<DataOptionView>, name: Seq<char>, kind: ApplicationCommandOptionType, i: int)
    requires
        0 <= i,
    ensures
        match first_option_from(os, name, kind, i) {
            Some(k) => i <= k < os.len() && option_is(os[k], name, kind)
                && forall|j: int| i <= j < k ==> !option_is(#[trigger] os[j], name, kind),
            None => forall|j: int| i <= j < os.len() ==> !option_is(#[trigger] os[j], name, kind),
        },
    decreases os.len() - i,
{
    if i < os.len() && !option_is(os[i], name, kind) {
        lemma_first_option_from(os, name, kind, i + 1);
    }
}

/// Finds the first option with the given name and type, as `Iterator::find`
/// does.
pub fn find_option(options: &Vec<InteractionDataOption>, name: &str, kind: ApplicationCommandOptionType) -> (r: Option<usize>)
    ensures
        match r {
            Some(k) => k < options.len() && first_option(data_options_view(options@), name@, kind) == Some(k as int),
            None => first_option(data_options_view(options@), name@, kind) is None,
        },
{
    let ghost os = data_options_view(options@);
    let mut i: usize = 0;
    while i < options.len()
        invariant
            i <= options.len(),
            os == data_options_view(options@),
            first_option(os, name@, kind) == first_option_from(os, name@, kind, i as int),
        decreases options.len() - i,
    {
        let o = &options[i];
        proof {
            assert(os[i as int] == o@);
        }
        if str_eq(o.name.as_str(), name) && o.option_type == kind {
            return Some(i);
        }
        i += 1;
    }
    None
}

/// The position of the first option, from `i` on, with the given name,
/// whatever its type.
pub open spec fn first_named_from(os: Seq<DataOptionView>, name: Seq<char>, i: int) -> Option<int>
    decreases os.len() - i,
{
    if i < 0 || i >= os.len() {
        None
    } else if os[i].name == name {
        Some(i)
    } else {
        first_named_from(os, name, i + 1)
    }
}

/// Finds the first option with the given name, whatever its type.
pub fn find_named(options: &Vec<InteractionDataOption>, name: &str) -> (r: Option<usize>)
    ensures
        match r {
            Some(k) => k < options.len() && first_named_from(data_options_view(options@), name@, 0) == Some(k as int),
            None => first_named_from(data_options_view(options@), name@, 0) is None,
        },
{
    let ghost os = data_options_view(options@);
    let mut i: usize = 0;
    while i < options.len()
        invariant
            i <= options.len(),
            os == data_options_view(options@),
            first_named_from(os, name@, 0) == first_named_from(os, name@, i as int),
        decreases options.len() - i,
    {
        proof {
            assert(os[i as int] == options@[i as int]@);
        }
        if str_eq(options[i].name.as_str(), name) {
            return Some(i);
        }
        i += 1;
    }
    None
}

} // verus!
