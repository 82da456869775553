//! The interactive components of a message: buttons and select menus.

use vstd::prelude::*;
use crate::cache::UpdateCache;
use crate::json::{get_str, items_view, json_array, json_get, json_i64, json_index, json_str, lemma_get_smaller, lemma_items_smaller, JsonNumber, NumberView, bool_or_null, json_num, number_value, object_entries, opt_bool_json, opt_string_json, opt_u64_json, str_or_null, string_json, string_value, u64_or_null, JsonValue, JsonView};
use crate::models::channel::{channel_kind_from_json, channel_kind_name, ChannelKind};
use crate::models::parse::{de_opt_bool, de_opt_str, de_opt_u64, read_opt_bool, read_opt_str, read_opt_u64};
use crate::text::{decimal, u64_to_string};
use crate::models::common::{opt_str_eq, opt_view};
use crate::models::components::{emoji_from_json, clone_opt_emoji, opt_emoji_eq, opt_emoji_to_value, opt_emoji_value, opt_emoji_view, Emoji, EmojiView};
use crate::models::interaction::{clone_opt_option_value, opt_option_value_eq, opt_option_value_view, option_value_json, InteractionDataOptionValue, OptionValueView};
use crate::text::str_eq;

verus! {

/// The type of a component.
#[derive(Debug, Clone, Copy, PartialEq, Eq, Structural)]
pub enum ComponentType {
    ActionRow,
    Button,
    StringSelect,
    TextInput,
    UserSelect,
    RoleSelect,
    MentionSelect,
    ChannelSelect,
}

/// The number that stands for each component type.
pub open spec fn component_type_code(v: ComponentType) -> u8 {
    match v {
        ComponentType::ActionRow => 1,
        ComponentType::Button => 2,
        ComponentType::StringSelect => 3,
        ComponentType::TextInput => 4,
        ComponentType::UserSelect => 5,
        ComponentType::RoleSelect => 6,
        ComponentType::MentionSelect => 7,
        ComponentType::ChannelSelect => 8,
    }
}

/// The component type that a number stands for, if any.
pub open spec fn component_type_code_inverse(c: u64) -> Option<ComponentType> {
    if c == 1 {
        Some(ComponentType::ActionRow)
    } else if c == 2 {
        Some(ComponentType::Button)
    } else if c == 3 {
        Some(ComponentType::StringSelect)
    } else if c == 4 {
        Some(ComponentType::TextInput)
    } else if c == 5 {
        Some(ComponentType::UserSelect)
    } else if c == 6 {
        Some(ComponentType::RoleSelect)
    } else if c == 7 {
        Some(ComponentType::MentionSelect)
    } else if c == 8 {
        Some(ComponentType::ChannelSelect)
    } else {
        None
    }
}

impl ComponentType {
    /// The number of this component type.
    pub fn to_code(&self) -> (r: u8)
        ensures
            r == component_type_code(*self),
    {
        match self {
            ComponentType::ActionRow => 1,
            ComponentType::Button => 2,
            ComponentType::StringSelect => 3,
            ComponentType::TextInput => 4,
            ComponentType::UserSelect => 5,
            ComponentType::RoleSelect => 6,
            ComponentType::MentionSelect => 7,
            ComponentType::ChannelSelect => 8,
        }
    }

    /// The component type of a number; other numbers stand for none.
    pub fn from_code(c: u64) -> (r: Option<ComponentType>)
        ensures
            r == component_type_code_inverse(c),
    {
        if c == 1 {
            Some(ComponentType::ActionRow)
        } else if c == 2 {
            Some(ComponentType::Button)
        } else if c == 3 {
            Some(ComponentType::StringSelect)
        } else if c == 4 {
            Some(ComponentType::TextInput)
        } else if c == 5 {
            Some(ComponentType::UserSelect)
        } else if c == 6 {
            Some(ComponentType::RoleSelect)
        } else if c == 7 {
            Some(ComponentType::MentionSelect)
        } else if c == 8 {
            Some(ComponentType::ChannelSelect)
        } else {
            None
        }
    }
}

/// Reading the number of a component type gives the component type back.
pub proof fn law_component_type_code_round_trip(v: ComponentType)
    ensures
        component_type_code_inverse(component_type_code(v) as u64) == Some(v),
{
}

/// A number reads as a ComponentType only when it is that one's own number, so
/// two of them never share a number and no other number reads as one.
pub proof fn law_component_type_code_read_back(c: u64)
    ensures
        component_type_code_inverse(c) matches Some(w) ==> component_type_code(w) == c,
{
}

/// The style of a button.
#[derive(Debug, Clone, Copy, PartialEq, Eq, Structural)]
pub enum ButtonStyle {
    Primary,
    Secondary,
    Success,
    Danger,
    Link,
}

/// The number that stands for each button style.
pub open spec fn button_style_code(v: ButtonStyle) -> u8 {
    match v {
        ButtonStyle::Primary => 1,
        ButtonStyle::Secondary => 2,
        ButtonStyle::Success => 3,
        ButtonStyle::Danger => 4,
        ButtonStyle::Link => 5,
    }
}

/// The button style that a number stands for, if any.
pub open spec fn button_style_code_inverse(c: u64) -> Option<ButtonStyle> {
    if c == 1 {
        Some(ButtonStyle::Primary)
    } else if c == 2 {
        Some(ButtonStyle::Secondary)
    } else if c == 3 {
        Some(ButtonStyle::Success)
    } else if c == 4 {
        Some(ButtonStyle::Danger)
    } else if c == 5 {
        Some(ButtonStyle::Link)
    } else {
        None
    }
}

impl ButtonStyle {
    /// The number of this button style.
    pub fn to_code(&self) -> (r: u8)
        ensures
            r == button_style_code(*self),
    {
        match self {
            ButtonStyle::Primary => 1,
            ButtonStyle::Secondary => 2,
            ButtonStyle::Success => 3,
            ButtonStyle::Danger => 4,
            ButtonStyle::Link => 5,
        }
    }

    /// The button style of a number; other numbers stand for none.
    pub fn from_code(c: u64) -> (r: Option<ButtonStyle>)
        ensures
            r == button_style_code_inverse(c),
    {
        if c == 1 {
            Some(ButtonStyle::Primary)
        } else if c == 2 {
            Some(ButtonStyle::Secondary)
        } else if c == 3 {
            Some(ButtonStyle::Success)
        } else if c == 4 {
            Some(ButtonStyle::Danger)
        } else if c == 5 {
            Some(ButtonStyle::Link)
        } else {
            None
        }
    }
}

/// Reading the number of a button style gives the button style back.
pub proof fn law_button_style_code_round_trip(v: ButtonStyle)
    ensures
        button_style_code_inverse(button_style_code(v) as u64) == Some(v),
{
}

/// A number reads as a ButtonStyle only when it is that one's own number, so
/// two of them never share a number and no other number reads as one.
pub proof fn law_button_style_code_read_back(c: u64)
    ensures
        button_style_code_inverse(c) matches Some(w) ==> button_style_code(w) == c,
{
}

/// The style of a text input.
#[derive(Debug, Clone, Copy, PartialEq, Eq, Structural)]
pub enum TextInputStyle {
    Short,
    Paragraph,
}

/// The name of each text input style.
pub open spec fn text_input_style_name(v: TextInputStyle) -> Seq<char> {
    match v {
        TextInputStyle::Short => "Short"@,
        TextInputStyle::Paragraph => "Paragraph"@,
    }
}

/// The text input style a name stands for, if any.
pub open spec fn text_input_style_of_name(s: Seq<char>) -> Option<TextInputStyle> {
    if s == "Short"@ {
        Some(TextInputStyle::Short)
    } else if s == "Paragraph"@ {
        Some(TextInputStyle::Paragraph)
    } else {
        None
    }
}

/// Each text input style is read back from its name, and a name is read
/// only as the style it names.
pub proof fn law_text_input_style_names(v: TextInputStyle, s: Seq<char>)
    ensures
        text_input_style_of_name(text_input_style_name(v)) == Some(v),
        text_input_style_of_name(s) matches Some(w) ==> text_input_style_name(w) == s,
{
    reveal_strlit("Short");
    reveal_strlit("Paragraph");
    assert("Short"@.len() == 5 && "Paragraph"@.len() == 9);
}


impl TextInputStyle {
    /// The name of this text input style.
    pub fn name(&self) -> (r: &'static str)
        ensures
            r@ == text_input_style_name(*self),
    {
        match self {
            TextInputStyle::Short => "Short",
            TextInputStyle::Paragraph => "Paragraph",
        }
    }

    /// The text input style of a name; other texts stand for none.
    pub fn from_name(s: &str) -> (r: Option<TextInputStyle>)
        ensures
            r == text_input_style_of_name(s@),
    {
        if str_eq(s, "Short") {
            Some(TextInputStyle::Short)
        } else if str_eq(s, "Paragraph") {
            Some(TextInputStyle::Paragraph)
        } else {
            None
        }
    }
}

/// A button of a message.
#[derive(Debug, PartialEq, Eq)]
pub struct Button {
    pub kind: ComponentType,
    pub style: ButtonStyle,
    pub label: Option<String>,
    pub emoji: Option<Emoji>,
    pub custom_id: String,
    pub url: Option<String>,
    pub disabled: Option<bool>,
}

/// The values of a button, its texts taken as characters.
pub ghost struct ButtonView {
    pub kind: ComponentType,
    pub style: ButtonStyle,
    pub label: Option<Seq<char>>,
    pub emoji: Option<EmojiView>,
    pub custom_id: Seq<char>,
    pub url: Option<Seq<char>>,
    pub disabled: Option<bool>,
}

impl View for Button {
    type V = ButtonView;

    open spec fn view(&self) -> ButtonView {
        ButtonView {
            kind: self.kind,
            style: self.style,
            label: opt_view(self.label),
            emoji: opt_emoji_view(self.emoji),
            custom_id: self.custom_id@,
            url: opt_view(self.url),
            disabled: self.disabled,
        }
    }
}

impl Clone for Button {
    fn clone(&self) -> (r: Button)
        ensures
            r@ == self@,
    {
        Button {
            kind: self.kind,
            style: self.style,
            label: self.label.clone(),
            emoji: clone_opt_emoji(&self.emoji),
            custom_id: self.custom_id.clone(),
            url: self.url.clone(),
            disabled: self.disabled,
        }
    }
}

impl UpdateCache for Button {
    fn update(&mut self, from: &Self)
        ensures
            final(self)@ == from@,
    {
        if self.kind != from.kind {
            self.kind = from.kind;
        }
        if self.style != from.style {
            self.style = from.style;
        }
        if !opt_str_eq(&self.label, &from.label) {
            self.label = from.label.clone();
        }
        if !opt_emoji_eq(&self.emoji, &from.emoji) {
            self.emoji = clone_opt_emoji(&from.emoji);
        }
        if self.custom_id != from.custom_id {
            self.custom_id = from.custom_id.clone();
        }
        if !opt_str_eq(&self.url, &from.url) {
            self.url = from.url.clone();
        }
        if self.disabled != from.disabled {
            self.disabled = from.disabled;
        }
    }
}

impl Button {
    /// Whether two values hold the same fields.
    pub fn same(&self, other: &Button) -> (r: bool)
        ensures
            r == (self@ == other@),
    {
        self.kind == other.kind
            && self.style == other.style
            && opt_str_eq(&self.label, &other.label)
            && opt_emoji_eq(&self.emoji, &other.emoji)
            && self.custom_id == other.custom_id
            && opt_str_eq(&self.url, &other.url)
            && self.disabled == other.disabled
    }
}

impl Button {
    /// A primary button with the given custom id and nothing else.
    pub fn new(custom_id: &str) -> (r: Button)
        ensures
            r@ == (ButtonView {
                kind: ComponentType::Button,
                style: ButtonStyle::Primary,
                label: None,
                emoji: None,
                custom_id: custom_id@,
                url: None,
                disabled: None,
            }),
    {
        Button {
            kind: ComponentType::Button,
            style: ButtonStyle::Primary,
            label: None,
            emoji: None,
            custom_id: String::from_str(custom_id),
            url: None,
            disabled: None,
        }
    }
}

impl Button {
    /// Sets the style.
    pub fn set_style(self, style: ButtonStyle) -> (r: Button)
        ensures
            r@ == (ButtonView { style: style, ..self@ }),
    {
        let mut s = self;
        s.style = style;
        s
    }

    /// Sets the label.
    pub fn set_label(self, label: &str) -> (r: Button)
        ensures
            r@ == (ButtonView { label: Some(label@), ..self@ }),
    {
        let mut s = self;
        s.label = Some(String::from_str(label));
        s
    }

    /// Sets the emoji.
    pub fn set_emoji(self, emoji: Emoji) -> (r: Button)
        ensures
            r@ == (ButtonView { emoji: Some(emoji@), ..self@ }),
    {
        let mut s = self;
        s.emoji = Some(emoji);
        s
    }

    /// Sets the address a link button opens.
    pub fn set_url(self, url: &str) -> (r: Button)
        ensures
            r@ == (ButtonView { url: Some(url@), ..self@ }),
    {
        let mut s = self;
        s.url = Some(String::from_str(url));
        s
    }

    /// Sets whether the button is disabled.
    pub fn set_disabled(self, disabled: bool) -> (r: Button)
        ensures
            r@ == (ButtonView { disabled: Some(disabled), ..self@ }),
    {
        let mut s = self;
        s.disabled = Some(disabled);
        s
    }
}

/// A choice of a select menu.
#[derive(Debug, PartialEq, Eq)]
pub struct SelectOption {
    pub label: String,
    pub value: String,
    pub description: Option<String>,
    pub emoji: Option<Emoji>,
    pub default: Option<bool>,
}

/// The values of a select option, its texts taken as characters.
pub ghost struct SelectOptionView {
    pub label: Seq<char>,
    pub value: Seq<char>,
    pub description: Option<Seq<char>>,
    pub emoji: Option<EmojiView>,
    pub default: Option<bool>,
}

impl View for SelectOption {
    type V = SelectOptionView;

    open spec fn view(&self) -> SelectOptionView {
        SelectOptionView {
            label: self.label@,
            value: self.value@,
            description: opt_view(self.description),
            emoji: opt_emoji_view(self.emoji),
            default: self.default,
        }
    }
}

impl Clone for SelectOption {
    fn clone(&self) -> (r: SelectOption)
        ensures
            r@ == self@,
    {
        SelectOption {
            label: self.label.clone(),
            value: self.value.clone(),
            description: self.description.clone(),
            emoji: clone_opt_emoji(&self.emoji),
            default: self.default,
        }
    }
}

impl SelectOption {
    /// Whether two values hold the same fields.
    pub fn same(&self, other: &SelectOption) -> (r: bool)
        ensures
            r == (self@ == other@),
    {
        self.label == other.label
            && self.value == other.value
            && opt_str_eq(&self.description, &other.description)
            && opt_emoji_eq(&self.emoji, &other.emoji)
            && self.default == other.default
    }
}

pub open spec fn select_options_view(s: Seq<SelectOption>) -> Seq<SelectOptionView> {
    s.map_values(|x: SelectOption| x@)
}

/// Whether two lists hold the same values in the same order.
pub fn select_options_eq(x: &Vec<SelectOption>, y: &Vec<SelectOption>) -> (r: bool)
    ensures
        r == (select_options_view(x@) == select_options_view(y@)),
{
    if x.len() != y.len() {
        proof {
            assert(select_options_view(x@).len() != select_options_view(y@).len());
        }
        return false;
    }
    let mut i: usize = 0;
    while i < x.len()
        invariant
            x@.len() == y@.len(),
            i <= x@.len(),
            forall|j: int| 0 <= j < i ==> x@[j]@ == y@[j]@,
        decreases x@.len() - i,
    {
        if !x[i].same(&y[i]) {
            proof {
                assert(select_options_view(x@)[i as int] != select_options_view(y@)[i as int]);
            }
            return false;
        }
        i += 1;
    }
    proof {
        assert(select_options_view(x@) =~= select_options_view(y@));
    }
    true
}

/// A copy of a list.
pub fn clone_select_options(v: &Vec<SelectOption>) -> (r: Vec<SelectOption>)
    ensures
        select_options_view(r@) == select_options_view(v@),
{
    let r = v.clone();
    proof {
        assert(select_options_view(r@) =~= select_options_view(v@));
    }
    r
}

/// The kinds of an optional list of channel kinds.
pub open spec fn opt_kinds_view(o: Option<Vec<ChannelKind>>) -> Option<Seq<ChannelKind>> {
    match o {
        Some(v) => Some(v@),
        None => None,
    }
}

/// Whether two lists of channel kinds are the same.
fn kinds_eq(x: &Vec<ChannelKind>, y: &Vec<ChannelKind>) -> (r: bool)
    ensures
        r == (x@ == y@),
{
    if x.len() != y.len() {
        return false;
    }
    let mut i: usize = 0;
    while i < x.len()
        invariant
            x@.len() == y@.len(),
            i <= x@.len(),
            forall|j: int| 0 <= j < i ==> x@[j] == y@[j],
        decreases x@.len() - i,
    {
        if x[i] != y[i] {
            return false;
        }
        i += 1;
    }
    proof {
        assert(x@ =~= y@);
    }
    true
}

/// Whether two optional lists of channel kinds are the same.
pub fn opt_kinds_eq(a: &Option<Vec<ChannelKind>>, b: &Option<Vec<ChannelKind>>) -> (r: bool)
    ensures
        r == (opt_kinds_view(*a) == opt_kinds_view(*b)),
{
    match (a, b) {
        (Some(x), Some(y)) => kinds_eq(x, y),
        (None, None) => true,
        _ => false,
    }
}

/// A copy of an optional list of channel kinds.
pub fn clone_opt_kinds(a: &Option<Vec<ChannelKind>>) -> (r: Option<Vec<ChannelKind>>)
    ensures
        opt_kinds_view(r) == opt_kinds_view(*a),
{
    match a {
        Some(v) => {
            let c = v.clone();
            proof {
                assert(c@ =~= v@);
            }
            Some(c)
        },
        None => None,
    }
}

/// A select menu of a message.
#[derive(Debug, PartialEq, Eq)]
pub struct SelectMenu {
    pub kind: ComponentType,
    pub custom_id: String,
    /// The choices of a string select; at most 25.
    pub options: Vec<SelectOption>,
    /// The kinds of channel a channel select offers.
    pub channel_types: Option<Vec<ChannelKind>>,
    /// The text shown while nothing is selected; at most 150 characters.
    pub placeholder: Option<String>,
    pub min_values: Option<u64>,
    pub max_values: Option<u64>,
    pub disabled: Option<bool>,
}

/// The values of a select menu, its texts taken as characters.
pub ghost struct SelectMenuView {
    pub kind: ComponentType,
    pub custom_id: Seq<char>,
    pub options: Seq<SelectOptionView>,
    pub channel_types: Option<Seq<ChannelKind>>,
    pub placeholder: Option<Seq<char>>,
    pub min_values: Option<u64>,
    pub max_values: Option<u64>,
    pub disabled: Option<bool>,
}

impl View for SelectMenu {
    type V = SelectMenuView;

    open spec fn view(&self) -> SelectMenuView {
        SelectMenuView {
            kind: self.kind,
            custom_id: self.custom_id@,
            options: select_options_view(self.options@),
            channel_types: opt_kinds_view(self.channel_types),
            placeholder: opt_view(self.placeholder),
            min_values: self.min_values,
            max_values: self.max_values,
            disabled: self.disabled,
        }
    }
}

impl Clone for SelectMenu {
    fn clone(&self) -> (r: SelectMenu)
        ensures
            r@ == self@,
    {
        SelectMenu {
            kind: self.kind,
            custom_id: self.custom_id.clone(),
            options: clone_select_options(&self.options),
            channel_types: clone_opt_kinds(&self.channel_types),
            placeholder: self.placeholder.clone(),
            min_values: self.min_values,
            max_values: self.max_values,
            disabled: self.disabled,
        }
    }
}

impl SelectMenu {
    /// Takes the fields `kind`, `custom_id`, `options`, `channel_types`, `placeholder`, `min_values`, `max_values` of a fresher copy.
    fn update_part_1(&mut self, from: &Self)
        ensures
            final(self).kind == from.kind,
            final(self).custom_id@ == from.custom_id@,
            select_options_view(final(self).options@) == select_options_view(from.options@),
            opt_kinds_view(final(self).channel_types) == opt_kinds_view(from.channel_types),
            opt_view(final(self).placeholder) == opt_view(from.placeholder),
            final(self).min_values == from.min_values,
            final(self).max_values == from.max_values,
            final(self).disabled == old(self).disabled,
    {
        if self.kind != from.kind {
            self.kind = from.kind;
        }
        if self.custom_id != from.custom_id {
            self.custom_id = from.custom_id.clone();
        }
        if !select_options_eq(&self.options, &from.options) {
            self.options = clone_select_options(&from.options);
        }
        if !opt_kinds_eq(&self.channel_types, &from.channel_types) {
            self.channel_types = clone_opt_kinds(&from.channel_types);
        }
        if !opt_str_eq(&self.placeholder, &from.placeholder) {
            self.placeholder = from.placeholder.clone();
        }
        if self.min_values != from.min_values {
            self.min_values = from.min_values;
        }
        if self.max_values != from.max_values {
            self.max_values = from.max_values;
        }
    }

    /// Takes the fields `disabled` of a fresher copy.
    fn update_part_2(&mut self, from: &Self)
        ensures
            final(self).kind == old(self).kind,
            final(self).custom_id@ == old(self).custom_id@,
            select_options_view(final(self).options@) == select_options_view(old(self).options@),
            opt_kinds_view(final(self).channel_types) == opt_kinds_view(old(self).channel_types),
            opt_view(final(self).placeholder) == opt_view(old(self).placeholder),
            final(self).min_values == old(self).min_values,
            final(self).max_values == old(self).max_values,
            final(self).disabled == from.disabled,
    {
        if self.disabled != from.disabled {
            self.disabled = from.disabled;
        }
    }
}

impl UpdateCache for SelectMenu {
    fn update(&mut self, from: &Self)
        ensures
            final(self)@ == from@,
    {
        self.update_part_1(from);
        self.update_part_2(from);
    }
}

impl SelectMenu {
    /// Whether two values hold the same fields.
    pub fn same(&self, other: &SelectMenu) -> (r: bool)
        ensures
            r == (self@ == other@),
    {
        self.kind == other.kind
            && self.custom_id == other.custom_id
            && select_options_eq(&self.options, &other.options)
            && opt_kinds_eq(&self.channel_types, &other.channel_types)
            && opt_str_eq(&self.placeholder, &other.placeholder)
            && self.min_values == other.min_values
            && self.max_values == other.max_values
            && self.disabled == other.disabled
    }
}

/// A button as the derived serializer writes it.
pub open spec fn button_value(b: ButtonView) -> JsonView {
    JsonView::Object(seq![
        ("custom_id"@, JsonView::Str(b.custom_id)),
        ("disabled"@, bool_or_null(b.disabled)),
        ("emoji"@, opt_emoji_value(b.emoji)),
        ("label"@, str_or_null(b.label)),
        ("style"@, json_num(button_style_code(b.style) as u64)),
        ("type"@, json_num(component_type_code(b.kind) as u64)),
        ("url"@, str_or_null(b.url)),
    ])
}

impl Button {
    /// The button as the derived serializer writes it.
    pub fn to_value(&self) -> (r: JsonValue)
        ensures
            r@ == button_value(self@),
    {
        let r_v0 = string_json(&self.custom_id);
        assert(r_v0@ == JsonView::Str(self@.custom_id));
        let r_v1 = opt_bool_json(self.disabled);
        assert(r_v1@ == bool_or_null(self@.disabled));
        let r_v2 = opt_emoji_to_value(&self.emoji);
        assert(r_v2@ == opt_emoji_value(self@.emoji));
        let r_v3 = opt_string_json(&self.label);
        assert(r_v3@ == str_or_null(self@.label));
        let r_v4 = number_value(self.style.to_code() as u64);
        assert(r_v4@ == json_num(button_style_code(self@.style) as u64));
        let r_v5 = number_value(self.kind.to_code() as u64);
        assert(r_v5@ == json_num(component_type_code(self@.kind) as u64));
        let r_v6 = opt_string_json(&self.url);
        assert(r_v6@ == str_or_null(self@.url));
        let mut r_es: Vec<(String, JsonValue)> = Vec::new();
        r_es.push((String::from_str("custom_id"), r_v0));
        r_es.push((String::from_str("disabled"), r_v1));
        r_es.push((String::from_str("emoji"), r_v2));
        r_es.push((String::from_str("label"), r_v3));
        r_es.push((String::from_str("style"), r_v4));
        r_es.push((String::from_str("type"), r_v5));
        r_es.push((String::from_str("url"), r_v6));
        let r = JsonValue::Object(r_es);
        proof {
            let expected: Seq<(Seq<char>, JsonView)> = seq![("custom_id"@, JsonView::Str(self@.custom_id)), ("disabled"@, bool_or_null(self@.disabled)), ("emoji"@, opt_emoji_value(self@.emoji)), ("label"@, str_or_null(self@.label)), ("style"@, json_num(button_style_code(self@.style) as u64)), ("type"@, json_num(component_type_code(self@.kind) as u64)), ("url"@, str_or_null(self@.url))];
            let got = object_entries(r@);
            assert(got.len() == 7);
            assert(got[0] == expected[0]);
            assert(got[1] == expected[1]);
            assert(got[2] == expected[2]);
            assert(got[3] == expected[3]);
            assert(got[4] == expected[4]);
            assert(got[5] == expected[5]);
            assert(got[6] == expected[6]);
            assert(got =~= expected);
        }
        r
    }
}

/// A choice of a select menu as the derived serializer writes it.
pub open spec fn select_option_value(o: SelectOptionView) -> JsonView {
    JsonView::Object(seq![
        ("default"@, bool_or_null(o.default)),
        ("description"@, str_or_null(o.description)),
        ("emoji"@, opt_emoji_value(o.emoji)),
        ("label"@, JsonView::Str(o.label)),
        ("value"@, JsonView::Str(o.value)),
    ])
}

impl SelectOption {
    /// The choice as the derived serializer writes it.
    pub fn to_value(&self) -> (r: JsonValue)
        ensures
            r@ == select_option_value(self@),
    {
        let r_v0 = opt_bool_json(self.default);
        assert(r_v0@ == bool_or_null(self@.default));
        let r_v1 = opt_string_json(&self.description);
        assert(r_v1@ == str_or_null(self@.description));
        let r_v2 = opt_emoji_to_value(&self.emoji);
        assert(r_v2@ == opt_emoji_value(self@.emoji));
        let r_v3 = string_json(&self.label);
        assert(r_v3@ == JsonView::Str(self@.label));
        let r_v4 = string_json(&self.value);
        assert(r_v4@ == JsonView::Str(self@.value));
        let mut r_es: Vec<(String, JsonValue)> = Vec::new();
        r_es.push((String::from_str("default"), r_v0));
        r_es.push((String::from_str("description"), r_v1));
        r_es.push((String::from_str("emoji"), r_v2));
        r_es.push((String::from_str("label"), r_v3));
        r_es.push((String::from_str("value"), r_v4));
        let r = JsonValue::Object(r_es);
        proof {
            let expected: Seq<(Seq<char>, JsonView)> = seq![("default"@, bool_or_null(self@.default)), ("description"@, str_or_null(self@.description)), ("emoji"@, opt_emoji_value(self@.emoji)), ("label"@, JsonView::Str(self@.label)), ("value"@, JsonView::Str(self@.value))];
            let got = object_entries(r@);
            assert(got.len() == 5);
            assert(got[0] == expected[0]);
            assert(got[1] == expected[1]);
            assert(got[2] == expected[2]);
            assert(got[3] == expected[3]);
            assert(got[4] == expected[4]);
            assert(got =~= expected);
        }
        r
    }
}

/// The choices of a select menu as the derived serializer writes them.
pub open spec fn select_options_value(s: Seq<SelectOptionView>) -> Seq<JsonView> {
    s.map_values(|o: SelectOptionView| select_option_value(o))
}

/// The choices of a select menu as an array.
pub fn select_options_to_value(v: &Vec<SelectOption>) -> (r: JsonValue)
    ensures
        r@ == JsonView::Array(select_options_value(select_options_view(v@))),
{
    let mut items: Vec<JsonValue> = Vec::new();
    let mut i: usize = 0;
    while i < v.len()
        invariant
            i <= v@.len(),
            items@.len() == i,
            forall|j: int| 0 <= j < i ==> #[trigger] items@[j]@ == select_option_value(v@[j]@),
        decreases v@.len() - i,
    {
        items.push(v[i].to_value());
        i += 1;
    }
    let r = JsonValue::Array(items);
    proof {
        let got = match r@ { JsonView::Array(x) => x, _ => Seq::empty() };
        assert(got.len() == v@.len());
        assert forall|j: int| 0 <= j < got.len() implies got[j] == select_options_value(select_options_view(v@))[j] by {
            assert(got[j] == items@[j]@);
        }
        assert(got =~= select_options_value(select_options_view(v@)));
    }
    r
}

/// Channel kinds as the derived serializer writes them: their names.
pub open spec fn kinds_value(o: Option<Seq<ChannelKind>>) -> JsonView {
    match o {
        Some(ks) => JsonView::Array(ks.map_values(|k: ChannelKind| JsonView::Str(channel_kind_name(k)))),
        None => JsonView::Null,
    }
}

/// An optional list of channel kinds as the derived serializer writes it.
pub fn kinds_to_value(o: &Option<Vec<ChannelKind>>) -> (r: JsonValue)
    ensures
        r@ == kinds_value(opt_kinds_view(*o)),
{
    match o {
        None => JsonValue::Null,
        Some(v) => {
            let mut items: Vec<JsonValue> = Vec::new();
            let mut i: usize = 0;
            while i < v.len()
                invariant
                    i <= v@.len(),
                    items@.len() == i,
                    forall|j: int| 0 <= j < i ==> #[trigger] items@[j]@ == JsonView::Str(channel_kind_name(v@[j])),
                decreases v@.len() - i,
            {
                items.push(string_value(v[i].name()));
                i += 1;
            }
            let r = JsonValue::Array(items);
            proof {
                let expected = v@.map_values(|k: ChannelKind| JsonView::Str(channel_kind_name(k)));
                let got = match r@ { JsonView::Array(x) => x, _ => Seq::empty() };
                assert(got.len() == v@.len());
                assert forall|j: int| 0 <= j < got.len() implies got[j] == expected[j] by {
                    assert(got[j] == items@[j]@);
                }
                assert(got =~= expected);
            }
            r
        },
    }
}

/// A select menu as the derived serializer writes it.
pub open spec fn select_menu_value(m: SelectMenuView) -> JsonView {
    JsonView::Object(seq![
        ("channel_types"@, kinds_value(m.channel_types)),
        ("custom_id"@, JsonView::Str(m.custom_id)),
        ("disabled"@, bool_or_null(m.disabled)),
        ("max_values"@, u64_or_null(m.max_values)),
        ("min_values"@, u64_or_null(m.min_values)),
        ("options"@, JsonView::Array(select_options_value(m.options))),
        ("placeholder"@, str_or_null(m.placeholder)),
        ("type"@, json_num(component_type_code(m.kind) as u64)),
    ])
}

impl SelectMenu {
    /// The select menu as the derived serializer writes it.
    pub fn to_value(&self) -> (r: JsonValue)
        ensures
            r@ == select_menu_value(self@),
    {
        let r_v0 = kinds_to_value(&self.channel_types);
        assert(r_v0@ == kinds_value(self@.channel_types));
        let r_v1 = string_json(&self.custom_id);
        assert(r_v1@ == JsonView::Str(self@.custom_id));
        let r_v2 = opt_bool_json(self.disabled);
        assert(r_v2@ == bool_or_null(self@.disabled));
        let r_v3 = opt_u64_json(self.max_values);
        assert(r_v3@ == u64_or_null(self@.max_values));
        let r_v4 = opt_u64_json(self.min_values);
        assert(r_v4@ == u64_or_null(self@.min_values));
        let r_v5 = select_options_to_value(&self.options);
        assert(r_v5@ == JsonView::Array(select_options_value(self@.options)));
        let r_v6 = opt_string_json(&self.placeholder);
        assert(r_v6@ == str_or_null(self@.placeholder));
        let r_v7 = number_value(self.kind.to_code() as u64);
        assert(r_v7@ == json_num(component_type_code(self@.kind) as u64));
        let mut r_es: Vec<(String, JsonValue)> = Vec::new();
        r_es.push((String::from_str("channel_types"), r_v0));
        r_es.push((String::from_str("custom_id"), r_v1));
        r_es.push((String::from_str("disabled"), r_v2));
        r_es.push((String::from_str("max_values"), r_v3));
        r_es.push((String::from_str("min_values"), r_v4));
        r_es.push((String::from_str("options"), r_v5));
        r_es.push((String::from_str("placeholder"), r_v6));
        r_es.push((String::from_str("type"), r_v7));
        let r = JsonValue::Object(r_es);
        proof {
            let expected: Seq<(Seq<char>, JsonView)> = seq![("channel_types"@, kinds_value(self@.channel_types)), ("custom_id"@, JsonView::Str(self@.custom_id)), ("disabled"@, bool_or_null(self@.disabled)), ("max_values"@, u64_or_null(self@.max_values)), ("min_values"@, u64_or_null(self@.min_values)), ("options"@, JsonView::Array(select_options_value(self@.options))), ("placeholder"@, str_or_null(self@.placeholder)), ("type"@, json_num(component_type_code(self@.kind) as u64))];
            let got = object_entries(r@);
            assert(got.len() == 8);
            assert(got[0] == expected[0]);
            assert(got[1] == expected[1]);
            assert(got[2] == expected[2]);
            assert(got[3] == expected[3]);
            assert(got[4] == expected[4]);
            assert(got[5] == expected[5]);
            assert(got[6] == expected[6]);
            assert(got[7] == expected[7]);
            assert(got =~= expected);
        }
        r
    }
}
/// A text input of a modal.
#[derive(Debug, PartialEq, Eq)]
pub struct TextInput {
    pub kind: ComponentType,
    pub style: Option<TextInputStyle>,
    pub label: Option<String>,
    pub custom_id: String,
    pub placeholder: Option<String>,
    pub min_length: Option<u64>,
    pub max_length: Option<u64>,
    pub disabled: Option<bool>,
    /// Only in modals.
    pub value: Option<InteractionDataOptionValue>,
}

/// The values of a text input, its texts taken as characters.
pub ghost struct TextInputView {
    pub kind: ComponentType,
    pub style: Option<TextInputStyle>,
    pub label: Option<Seq<char>>,
    pub custom_id: Seq<char>,
    pub placeholder: Option<Seq<char>>,
    pub min_length: Option<u64>,
    pub max_length: Option<u64>,
    pub disabled: Option<bool>,
    pub value: Option<OptionValueView>,
}

impl View for TextInput {
    type V = TextInputView;

    open spec fn view(&self) -> TextInputView {
        TextInputView {
            kind: self.kind,
            style: self.style,
            label: opt_view(self.label),
            custom_id: self.custom_id@,
            placeholder: opt_view(self.placeholder),
            min_length: self.min_length,
            max_length: self.max_length,
            disabled: self.disabled,
            value: opt_option_value_view(self.value),
        }
    }
}

impl Clone for TextInput {
    fn clone(&self) -> (r: TextInput)
        ensures
            r@ == self@,
    {
        TextInput {
            kind: self.kind,
            style: self.style,
            label: self.label.clone(),
            custom_id: self.custom_id.clone(),
            placeholder: self.placeholder.clone(),
            min_length: self.min_length,
            max_length: self.max_length,
            disabled: self.disabled,
            value: clone_opt_option_value(&self.value),
        }
    }
}

/// A text input after it took the fields of a fresher copy: all but the
/// value come from the copy.
pub open spec fn text_input_after_update(old: TextInputView, from: TextInputView) -> TextInputView {
    TextInputView {
        value: old.value,
        ..from
    }
}

impl TextInput {
    /// Takes the fields `kind`, `style`, `label`, `custom_id`, `placeholder`, `min_length`, `max_length` of a fresher copy.
    fn update_part_1(&mut self, from: &Self)
        ensures
            final(self).kind == from.kind,
            final(self).style == from.style,
            opt_view(final(self).label) == opt_view(from.label),
            final(self).custom_id@ == from.custom_id@,
            opt_view(final(self).placeholder) == opt_view(from.placeholder),
            final(self).min_length == from.min_length,
            final(self).max_length == from.max_length,
            final(self).disabled == old(self).disabled,
            opt_option_value_view(final(self).value) == opt_option_value_view(old(self).value),
    {
        if self.kind != from.kind {
            self.kind = from.kind;
        }
        if self.style != from.style {
            self.style = from.style;
        }
        if !opt_str_eq(&self.label, &from.label) {
            self.label = from.label.clone();
        }
        if self.custom_id != from.custom_id {
            self.custom_id = from.custom_id.clone();
        }
        if !opt_str_eq(&self.placeholder, &from.placeholder) {
            self.placeholder = from.placeholder.clone();
        }
        if self.min_length != from.min_length {
            self.min_length = from.min_length;
        }
        if self.max_length != from.max_length {
            self.max_length = from.max_length;
        }
    }

    /// Takes the fields `disabled` of a fresher copy.
    fn update_part_2(&mut self, from: &Self)
        ensures
            final(self).kind == old(self).kind,
            final(self).style == old(self).style,
            opt_view(final(self).label) == opt_view(old(self).label),
            final(self).custom_id@ == old(self).custom_id@,
            opt_view(final(self).placeholder) == opt_view(old(self).placeholder),
            final(self).min_length == old(self).min_length,
            final(self).max_length == old(self).max_length,
            final(self).disabled == from.disabled,
            opt_option_value_view(final(self).value) == opt_option_value_view(old(self).value),
    {
        if self.disabled != from.disabled {
            self.disabled = from.disabled;
        }
    }
}

impl UpdateCache for TextInput {
    fn update(&mut self, from: &Self)
        ensures
            final(self)@ == text_input_after_update(old(self)@, from@),
    {
        self.update_part_1(from);
        self.update_part_2(from);
    }
}

impl TextInput {
    /// Whether two values hold the same fields.
    pub fn same(&self, other: &TextInput) -> (r: bool)
        ensures
            r == (self@ == other@),
    {
        self.kind == other.kind
            && self.style == other.style
            && opt_str_eq(&self.label, &other.label)
            && self.custom_id == other.custom_id
            && opt_str_eq(&self.placeholder, &other.placeholder)
            && self.min_length == other.min_length
            && self.max_length == other.max_length
            && self.disabled == other.disabled
            && opt_option_value_eq(&self.value, &other.value)
    }
}

/// A text input as the derived serializer writes it.
pub open spec fn text_input_value(t: TextInputView) -> JsonView {
    JsonView::Object(seq![
        ("custom_id"@, JsonView::Str(t.custom_id)),
        ("disabled"@, bool_or_null(t.disabled)),
        ("label"@, str_or_null(t.label)),
        ("max_length"@, u64_or_null(t.max_length)),
        ("min_length"@, u64_or_null(t.min_length)),
        ("placeholder"@, str_or_null(t.placeholder)),
        ("style"@, match t.style { Some(st) => JsonView::Str(text_input_style_name(st)), None => JsonView::Null }),
        ("type"@, json_num(component_type_code(t.kind) as u64)),
        ("value"@, match t.value { Some(v) => option_value_json(v), None => JsonView::Null }),
    ])
}

impl TextInput {
    /// The text input as the derived serializer writes it.
    pub fn to_value(&self) -> (r: JsonValue)
        ensures
            r@ == text_input_value(self@),
    {
        let r_v0 = string_json(&self.custom_id);
        assert(r_v0@ == JsonView::Str(self@.custom_id));
        let r_v1 = opt_bool_json(self.disabled);
        assert(r_v1@ == bool_or_null(self@.disabled));
        let r_v2 = opt_string_json(&self.label);
        assert(r_v2@ == str_or_null(self@.label));
        let r_v3 = opt_u64_json(self.max_length);
        assert(r_v3@ == u64_or_null(self@.max_length));
        let r_v4 = opt_u64_json(self.min_length);
        assert(r_v4@ == u64_or_null(self@.min_length));
        let r_v5 = opt_string_json(&self.placeholder);
        assert(r_v5@ == str_or_null(self@.placeholder));
        let r_v6 = match self.style { Some(st) => string_value(st.name()), None => JsonValue::Null };
        assert(r_v6@ == match self@.style { Some(st) => JsonView::Str(text_input_style_name(st)), None => JsonView::Null });
        let r_v7 = number_value(self.kind.to_code() as u64);
        assert(r_v7@ == json_num(component_type_code(self@.kind) as u64));
        let r_v8 = match &self.value { Some(v) => v.to_json(), None => JsonValue::Null };
        assert(r_v8@ == match self@.value { Some(v) => option_value_json(v), None => JsonView::Null });
        let mut r_es: Vec<(String, JsonValue)> = Vec::new();
        r_es.push((String::from_str("custom_id"), r_v0));
        r_es.push((String::from_str("disabled"), r_v1));
        r_es.push((String::from_str("label"), r_v2));
        r_es.push((String::from_str("max_length"), r_v3));
        r_es.push((String::from_str("min_length"), r_v4));
        r_es.push((String::from_str("placeholder"), r_v5));
        r_es.push((String::from_str("style"), r_v6));
        r_es.push((String::from_str("type"), r_v7));
        r_es.push((String::from_str("value"), r_v8));
        let r = JsonValue::Object(r_es);
        proof {
            let expected = object_entries(text_input_value(self@));
            let got = object_entries(r@);
            assert(got.len() == 9);
            assert(got[0] == expected[0]);
            assert(got[1] == expected[1]);
            assert(got[2] == expected[2]);
            assert(got[3] == expected[3]);
            assert(got[4] == expected[4]);
            assert(got[5] == expected[5]);
            assert(got[6] == expected[6]);
            assert(got[7] == expected[7]);
            assert(got[8] == expected[8]);
            assert(got =~= expected);
        }
        r
    }
}


// ----------------------------------------------------------------------
// Action rows and components

/// A row of components.
#[derive(Debug, PartialEq, Eq)]
pub struct ActionRow {
    pub kind: ComponentType,
    pub components: Vec<Component>,
}

/// A component of a message.
#[derive(Debug, PartialEq, Eq)]
pub enum Component {
    ActionRow(ActionRow),
    Button(Button),
    SelectMenu(SelectMenu),
    TextInput(TextInput),
}

/// The values of an action row.
pub ghost struct ActionRowView {
    pub kind: ComponentType,
    pub components: Seq<ComponentView>,
}

/// The values of a component.
pub ghost enum ComponentView {
    ActionRow(ActionRowView),
    Button(ButtonView),
    SelectMenu(SelectMenuView),
    TextInput(TextInputView),
}

pub open spec fn action_row_view(a: ActionRow) -> ActionRowView
    decreases a,
{
    ActionRowView {
        kind: a.kind,
        components: Seq::new(
            a.components@.len(),
            |i: int| if 0 <= i < a.components@.len() { component_view(a.components@[i]) } else { ComponentView::Button(arbitrary()) },
        ),
    }
}

pub open spec fn component_view(c: Component) -> ComponentView
    decreases c,
{
    match c {
        Component::ActionRow(a) => ComponentView::ActionRow(action_row_view(a)),
        Component::Button(b) => ComponentView::Button(b@),
        Component::SelectMenu(m) => ComponentView::SelectMenu(m@),
        Component::TextInput(t) => ComponentView::TextInput(t@),
    }
}

impl View for ActionRow {
    type V = ActionRowView;

    open spec fn view(&self) -> ActionRowView {
        action_row_view(*self)
    }
}

impl View for Component {
    type V = ComponentView;

    open spec fn view(&self) -> ComponentView {
        component_view(*self)
    }
}

pub open spec fn components_view(s: Seq<Component>) -> Seq<ComponentView> {
    s.map_values(|c: Component| c@)
}

pub proof fn lemma_action_row_view(a: ActionRow)
    ensures
        a@.kind == a.kind,
        a@.components == components_view(a.components@),
{
    assert(a@.components =~= components_view(a.components@));
}

/// A component as the derived serializer writes it: the fields of the
/// component itself.
pub open spec fn component_value(c: ComponentView) -> JsonView
    decreases c,
{
    match c {
        ComponentView::ActionRow(a) => JsonView::Object(seq![
            ("components"@, JsonView::Array(components_value(a.components))),
            ("type"@, json_num(component_type_code(a.kind) as u64)),
        ]),
        ComponentView::Button(b) => button_value(b),
        ComponentView::SelectMenu(m) => select_menu_value(m),
        ComponentView::TextInput(t) => text_input_value(t),
    }
}

/// The components of a row as the derived serializer writes them.
pub open spec fn components_value(cs: Seq<ComponentView>) -> Seq<JsonView>
    decreases cs,
{
    Seq::new(cs.len(), |i: int| if 0 <= i < cs.len() { component_value(cs[i]) } else { JsonView::Null })
}

/// A component after it took the fields of a fresher copy: a copy of the
/// same kind gives its fields (but a text input keeps its value); a copy of
/// another kind changes nothing.
pub open spec fn component_after_update(old: ComponentView, from: ComponentView) -> ComponentView {
    match (old, from) {
        (ComponentView::ActionRow(_), ComponentView::ActionRow(f)) => ComponentView::ActionRow(f),
        (ComponentView::Button(_), ComponentView::Button(f)) => ComponentView::Button(f),
        (ComponentView::SelectMenu(_), ComponentView::SelectMenu(f)) => ComponentView::SelectMenu(f),
        (ComponentView::TextInput(o), ComponentView::TextInput(f)) => ComponentView::TextInput(text_input_after_update(o, f)),
        _ => old,
    }
}

impl Component {
    /// Whether two components hold the same values.
    pub fn same(&self, other: &Component) -> (r: bool)
        ensures
            r == (self@ == other@),
        decreases self,
    {
        match (self, other) {
            (Component::ActionRow(a), Component::ActionRow(b)) => {
                let r = a.same(b);
                r
            },
            (Component::Button(a), Component::Button(b)) => a.same(b),
            (Component::SelectMenu(a), Component::SelectMenu(b)) => a.same(b),
            (Component::TextInput(a), Component::TextInput(b)) => a.same(b),
            _ => false,
        }
    }

    /// A copy of the component.
    pub fn duplicate(&self) -> (r: Component)
        ensures
            r@ == self@,
        decreases self,
    {
        match self {
            Component::ActionRow(a) => Component::ActionRow(a.duplicate()),
            Component::Button(b) => Component::Button(b.clone()),
            Component::SelectMenu(m) => Component::SelectMenu(m.clone()),
            Component::TextInput(t) => Component::TextInput(t.clone()),
        }
    }

    /// The component as the API takes it.
    pub fn to_json(&self) -> (r: JsonValue)
        ensures
            r@ == component_value(self@),
        decreases self,
    {
        match self {
            Component::ActionRow(a) => a.to_value(),
            Component::Button(b) => b.to_value(),
            Component::SelectMenu(m) => m.to_value(),
            Component::TextInput(t) => t.to_value(),
        }
    }
}

impl ActionRow {
    /// Whether two rows hold the same values.
    pub fn same(&self, other: &ActionRow) -> (r: bool)
        ensures
            r == (self@ == other@),
        decreases self,
    {
        proof {
            lemma_action_row_view(*self);
            lemma_action_row_view(*other);
        }
        if self.kind != other.kind {
            assert(self@.kind != other@.kind);
            return false;
        }
        if self.components.len() != other.components.len() {
            assert(self@.components.len() != other@.components.len());
            return false;
        }
        let mut i: usize = 0;
        while i < self.components.len()
            invariant
                self.components@.len() == other.components@.len(),
                self@.components == components_view(self.components@),
                other@.components == components_view(other.components@),
                i <= self.components@.len(),
                forall|j: int| 0 <= j < i ==> self.components@[j]@ == other.components@[j]@,
            decreases self.components@.len() - i,
        {
            if !self.components[i].same(&other.components[i]) {
                proof {
                    assert(components_view(self.components@)[i as int] != components_view(other.components@)[i as int]);
                }
                return false;
            }
            i += 1;
        }
        proof {
            assert(components_view(self.components@) =~= components_view(other.components@));
        }
        true
    }

    /// A copy of the row.
    pub fn duplicate(&self) -> (r: ActionRow)
        ensures
            r@ == self@,
        decreases self,
    {
        let mut items: Vec<Component> = Vec::new();
        let mut i: usize = 0;
        while i < self.components.len()
            invariant
                i <= self.components@.len(),
                items@.len() == i,
                forall|j: int| 0 <= j < i ==> #[trigger] items@[j]@ == self.components@[j]@,
            decreases self.components@.len() - i,
        {
            items.push(self.components[i].duplicate());
            i += 1;
        }
        let r = ActionRow { kind: self.kind, components: items };
        proof {
            lemma_action_row_view(r);
            lemma_action_row_view(*self);
            assert(components_view(r.components@) =~= components_view(self.components@));
        }
        r
    }

    /// The row as the derived serializer writes it.
    pub fn to_value(&self) -> (r: JsonValue)
        ensures
            r@ == component_value(ComponentView::ActionRow(self@)),
        decreases self,
    {
        proof {
            lemma_action_row_view(*self);
        }
        let mut items: Vec<JsonValue> = Vec::new();
        let mut i: usize = 0;
        while i < self.components.len()
            invariant
                i <= self.components@.len(),
                items@.len() == i,
                forall|j: int| 0 <= j < i ==> #[trigger] items@[j]@ == component_value(self.components@[j]@),
            decreases self.components@.len() - i,
        {
            items.push(self.components[i].to_json());
            i += 1;
        }
        let arr = JsonValue::Array(items);
        let ghost expected_items = components_value(self@.components);
        proof {
            let got = match arr@ { JsonView::Array(x) => x, _ => Seq::empty() };
            assert(got.len() == expected_items.len());
            assert forall|j: int| 0 <= j < got.len() implies got[j] == expected_items[j] by {
                assert(got[j] == items@[j]@);
                assert(self@.components[j] == self.components@[j]@);
            }
            assert(got =~= expected_items);
        }
        let t = number_value(self.kind.to_code() as u64);
        let mut es: Vec<(String, JsonValue)> = Vec::new();
        es.push((String::from_str("components"), arr));
        es.push((String::from_str("type"), t));
        let r = JsonValue::Object(es);
        proof {
            let expected = object_entries(component_value(ComponentView::ActionRow(self@)));
            let got = object_entries(r@);
            assert(got.len() == 2);
            assert(got[0] == expected[0]);
            assert(got[1] == expected[1]);
            assert(got =~= expected);
        }
        r
    }

    /// An empty row.
    pub fn new() -> (r: ActionRow)
        ensures
            r@ == (ActionRowView { kind: ComponentType::ActionRow, components: Seq::empty() }),
    {
        ActionRow::default()
    }

    /// Adds a component at the end of the row.
    pub fn add_component(self, component: Component) -> (r: ActionRow)
        ensures
            r@ == (ActionRowView { components: self@.components.push(component@), ..self@ }),
    {
        let mut s = self;
        let ghost cv = component@;
        let ghost before = s.components@;
        proof {
            lemma_action_row_view(s);
        }
        s.components.push(component);
        proof {
            lemma_action_row_view(s);
            assert(components_view(s.components@) =~= components_view(before).push(cv));
        }
        s
    }
}

impl Default for ActionRow {
    fn default() -> (r: ActionRow)
        ensures
            r@ == (ActionRowView { kind: ComponentType::ActionRow, components: Seq::empty() }),
    {
        let r = ActionRow { kind: ComponentType::ActionRow, components: Vec::new() };
        proof {
            lemma_action_row_view(r);
            assert(components_view(r.components@) =~= Seq::empty());
        }
        r
    }
}

impl UpdateCache for ActionRow {
    fn update(&mut self, from: &Self)
        ensures
            final(self)@ == from@,
    {
        proof {
            lemma_action_row_view(*self);
            lemma_action_row_view(*from);
        }
        if self.kind != from.kind {
            self.kind = from.kind;
        }
        if !components_same(&self.components, &from.components) {
            self.components = from.duplicate().components;
        }
        proof {
            lemma_action_row_view(*self);
        }
    }
}

/// Whether two lists of components hold the same values.
pub fn components_same(a: &Vec<Component>, b: &Vec<Component>) -> (r: bool)
    ensures
        r == (components_view(a@) == components_view(b@)),
{
    if a.len() != b.len() {
        proof {
            assert(components_view(a@).len() != components_view(b@).len());
        }
        return false;
    }
    let mut i: usize = 0;
    while i < a.len()
        invariant
            a@.len() == b@.len(),
            i <= a@.len(),
            forall|j: int| 0 <= j < i ==> a@[j]@ == b@[j]@,
        decreases a@.len() - i,
    {
        if !a[i].same(&b[i]) {
            proof {
                assert(components_view(a@)[i as int] != components_view(b@)[i as int]);
            }
            return false;
        }
        i += 1;
    }
    proof {
        assert(components_view(a@) =~= components_view(b@));
    }
    true
}

impl UpdateCache for Component {
    fn update(&mut self, from: &Self)
        ensures
            final(self)@ == component_after_update(old(self)@, from@),
    {
        match (self, from) {
            (Component::ActionRow(c), Component::ActionRow(f)) => c.update(f),
            (Component::Button(c), Component::Button(f)) => c.update(f),
            (Component::SelectMenu(c), Component::SelectMenu(f)) => c.update(f),
            (Component::TextInput(c), Component::TextInput(f)) => c.update(f),
            _ => {},
        }
    }
}


// ----------------------------------------------------------------------
// Reading components

/// A component type, read as a small integer.
pub open spec fn component_type_from_json(v: JsonView) -> Option<ComponentType> {
    match json_i64(v) {
        Some(c) => if 1 <= c <= 8 { component_type_code_inverse(c as u64) } else { None },
        None => None,
    }
}

/// A button style, read as a small integer.
pub open spec fn button_style_from_json(v: JsonView) -> Option<ButtonStyle> {
    match json_i64(v) {
        Some(c) => if 1 <= c <= 5 { button_style_code_inverse(c as u64) } else { None },
        None => None,
    }
}

fn read_component_type(raw: &JsonValue, key: &str) -> (r: Option<ComponentType>)
    ensures
        r == component_type_from_json(json_index(raw@, key@)),
{
    let c = match raw.get(key) {
        Some(x) => x.as_i64(),
        None => None,
    };
    match c {
        Some(c) => if 1 <= c && c <= 8 {
            ComponentType::from_code(c as u64)
        } else {
            None
        },
        None => None,
    }
}

fn read_button_style(raw: &JsonValue, key: &str) -> (r: Option<ButtonStyle>)
    ensures
        r == button_style_from_json(json_index(raw@, key@)),
{
    let c = match raw.get(key) {
        Some(x) => x.as_i64(),
        None => None,
    };
    match c {
        Some(c) => if 1 <= c && c <= 5 {
            ButtonStyle::from_code(c as u64)
        } else {
            None
        },
        None => None,
    }
}

/// An optional emoji field.
pub open spec fn de_opt_emoji(f: Option<JsonView>) -> Option<Option<EmojiView>> {
    match f {
        None => Some(None),
        Some(JsonView::Null) => Some(None),
        Some(x) => match emoji_from_json(x) {
            Ok(e) => Some(Some(e)),
            Err(_) => None,
        },
    }
}

fn read_opt_emoji(raw: &JsonValue, key: &str) -> (r: Option<Option<Emoji>>)
    ensures
        match r {
            None => de_opt_emoji(json_get(raw@, key@)) is None,
            Some(e) => de_opt_emoji(json_get(raw@, key@)) == Some(opt_emoji_view(e)),
        },
{
    match raw.get(key) {
        None => Some(None),
        Some(x) => {
            if x.is_null() {
                Some(None)
            } else {
                match Emoji::from_raw(x) {
                    Ok(e) => Some(Some(e)),
                    Err(_) => None,
                }
            }
        },
    }
}

/// The button a payload stands for, as the derived deserializer reads it.
pub open spec fn button_from_json(v: JsonView) -> Option<ButtonView> {
    let kind = component_type_from_json(json_index(v, "type"@));
    let style = button_style_from_json(json_index(v, "style"@));
    let label = de_opt_str(json_get(v, "label"@));
    let emoji = de_opt_emoji(json_get(v, "emoji"@));
    let custom_id = json_str(json_index(v, "custom_id"@));
    let url = de_opt_str(json_get(v, "url"@));
    let disabled = de_opt_bool(json_get(v, "disabled"@));
    if v is Object && kind is Some && style is Some && label is Some && emoji is Some && custom_id is Some && url is Some
        && disabled is Some {
        Some(ButtonView {
            kind: kind.unwrap(),
            style: style.unwrap(),
            label: label.unwrap(),
            emoji: emoji.unwrap(),
            custom_id: custom_id.unwrap(),
            url: url.unwrap(),
            disabled: disabled.unwrap(),
        })
    } else {
        None
    }
}

impl Button {
    /// Reads a button from a payload.
    pub fn from_raw(raw: &JsonValue) -> (r: Option<Button>)
        ensures
            match r {
                Some(b) => button_from_json(raw@) == Some(b@),
                None => button_from_json(raw@) is None,
            },
    {
        match raw {
            JsonValue::Object(_) => {},
            _ => return None,
        }
        let kind = read_component_type(raw, "type")?;
        let style = read_button_style(raw, "style")?;
        let label = read_opt_str(raw, "label")?;
        let emoji = read_opt_emoji(raw, "emoji")?;
        let custom_id = String::from_str(get_str(raw, "custom_id")?);
        let url = read_opt_str(raw, "url")?;
        let disabled = read_opt_bool(raw, "disabled")?;
        Some(Button { kind, style, label, emoji, custom_id, url, disabled })
    }
}

/// The choice a payload stands for, as the derived deserializer reads it.
pub open spec fn select_option_from_json(v: JsonView) -> Option<SelectOptionView> {
    let label = json_str(json_index(v, "label"@));
    let value = json_str(json_index(v, "value"@));
    let description = de_opt_str(json_get(v, "description"@));
    let emoji = de_opt_emoji(json_get(v, "emoji"@));
    let default = de_opt_bool(json_get(v, "default"@));
    if v is Object && label is Some && value is Some && description is Some && emoji is Some && default is Some {
        Some(SelectOptionView {
            label: label.unwrap(),
            value: value.unwrap(),
            description: description.unwrap(),
            emoji: emoji.unwrap(),
            default: default.unwrap(),
        })
    } else {
        None
    }
}

impl SelectOption {
    /// Reads a choice from a payload.
    pub fn from_raw(raw: &JsonValue) -> (r: Option<SelectOption>)
        ensures
            match r {
                Some(o) => select_option_from_json(raw@) == Some(o@),
                None => select_option_from_json(raw@) is None,
            },
    {
        match raw {
            JsonValue::Object(_) => {},
            _ => return None,
        }
        let label = String::from_str(get_str(raw, "label")?);
        let value = String::from_str(get_str(raw, "value")?);
        let description = read_opt_str(raw, "description")?;
        let emoji = read_opt_emoji(raw, "emoji")?;
        let default = read_opt_bool(raw, "default")?;
        Some(SelectOption { label, value, description, emoji, default })
    }
}

/// The choices that items stand for.
pub open spec fn select_options_from_items(items: Seq<JsonView>) -> Seq<SelectOptionView> {
    items.map_values(|it: JsonView| select_option_from_json(it).unwrap())
}

/// The choices of a select menu: missing is none; otherwise an array of
/// choices.
pub open spec fn de_select_options(f: Option<JsonView>) -> Option<Seq<SelectOptionView>> {
    match f {
        None => Some(Seq::empty()),
        Some(x) => match json_array(x) {
            Some(items) => if forall|i: int| 0 <= i < items.len() ==> (#[trigger] select_option_from_json(items[i])) is Some {
                Some(select_options_from_items(items))
            } else {
                None
            },
            None => None,
        },
    }
}

fn read_select_options(raw: &JsonValue, key: &str) -> (r: Option<Vec<SelectOption>>)
    ensures
        match r {
            None => de_select_options(json_get(raw@, key@)) is None,
            Some(v) => de_select_options(json_get(raw@, key@)) == Some(select_options_view(v@)),
        },
{
    let x = match raw.get(key) {
        None => return Some(Vec::new()),
        Some(x) => x,
    };
    let items = x.as_array()?;
    let ghost iv = items_view(items@);
    let mut out: Vec<SelectOption> = Vec::new();
    let mut i: usize = 0;
    while i < items.len()
        invariant
            i <= items@.len(),
            iv == items_view(items@),
            json_array(x@) == Some(iv),
            json_get(raw@, key@) == Some(x@),
            out@.len() == i,
            forall|j: int| 0 <= j < i ==> (#[trigger] select_option_from_json(iv[j])) is Some && out@[j]@ == select_option_from_json(iv[j]).unwrap(),
        decreases items@.len() - i,
    {
        match SelectOption::from_raw(&items[i]) {
            Some(o) => {
                out.push(o);
            },
            None => {
                proof {
                    assert(iv[i as int] == items@[i as int]@);
                }
                return None;
            },
        }
        i += 1;
    }
    proof {
        assert(select_options_view(out@) =~= select_options_from_items(iv));
    }
    Some(out)
}

/// The kinds that items stand for.
pub open spec fn kinds_from_items(items: Seq<JsonView>) -> Seq<ChannelKind> {
    items.map_values(|it: JsonView| channel_kind_from_json(it).unwrap())
}

/// An optional list of channel kinds.
pub open spec fn de_opt_kinds(f: Option<JsonView>) -> Option<Option<Seq<ChannelKind>>> {
    match f {
        None => Some(None),
        Some(JsonView::Null) => Some(None),
        Some(x) => match json_array(x) {
            Some(items) => if forall|i: int| 0 <= i < items.len() ==> (#[trigger] channel_kind_from_json(items[i])) is Ok {
                Some(Some(kinds_from_items(items)))
            } else {
                None
            },
            None => None,
        },
    }
}

fn read_opt_kinds(raw: &JsonValue, key: &str) -> (r: Option<Option<Vec<ChannelKind>>>)
    ensures
        match r {
            None => de_opt_kinds(json_get(raw@, key@)) is None,
            Some(v) => de_opt_kinds(json_get(raw@, key@)) == Some(opt_kinds_view(v)),
        },
{
    let x = match raw.get(key) {
        None => return Some(None),
        Some(x) => x,
    };
    if x.is_null() {
        return Some(None);
    }
    let items = x.as_array()?;
    let ghost iv = items_view(items@);
    let mut out: Vec<ChannelKind> = Vec::new();
    let mut i: usize = 0;
    while i < items.len()
        invariant
            i <= items@.len(),
            iv == items_view(items@),
            json_array(x@) == Some(iv),
            json_get(raw@, key@) == Some(x@),
            x@ != JsonView::Null,
            out@.len() == i,
            forall|j: int| 0 <= j < i ==> (#[trigger] channel_kind_from_json(iv[j])) is Ok && out@[j] == channel_kind_from_json(iv[j]).unwrap(),
        decreases items@.len() - i,
    {
        match ChannelKind::from_raw(&items[i]) {
            Ok(k) => {
                out.push(k);
            },
            Err(_) => {
                proof {
                    assert(iv[i as int] == items@[i as int]@);
                }
                return None;
            },
        }
        i += 1;
    }
    proof {
        assert(out@ =~= kinds_from_items(iv));
    }
    Some(Some(out))
}

/// The select menu a payload stands for, as the derived deserializer reads
/// it.
pub open spec fn select_menu_from_json(v: JsonView) -> Option<SelectMenuView> {
    let kind = component_type_from_json(json_index(v, "type"@));
    let custom_id = json_str(json_index(v, "custom_id"@));
    let options = de_select_options(json_get(v, "options"@));
    let channel_types = de_opt_kinds(json_get(v, "channel_types"@));
    let placeholder = de_opt_str(json_get(v, "placeholder"@));
    let min_values = de_opt_u64(json_get(v, "min_values"@));
    let max_values = de_opt_u64(json_get(v, "max_values"@));
    let disabled = de_opt_bool(json_get(v, "disabled"@));
    if v is Object && kind is Some && custom_id is Some && options is Some && channel_types is Some && placeholder is Some
        && min_values is Some && max_values is Some && disabled is Some {
        Some(SelectMenuView {
            kind: kind.unwrap(),
            custom_id: custom_id.unwrap(),
            options: options.unwrap(),
            channel_types: channel_types.unwrap(),
            placeholder: placeholder.unwrap(),
            min_values: min_values.unwrap(),
            max_values: max_values.unwrap(),
            disabled: disabled.unwrap(),
        })
    } else {
        None
    }
}

impl SelectMenu {
    /// Reads a select menu from a payload.
    pub fn from_raw(raw: &JsonValue) -> (r: Option<SelectMenu>)
        ensures
            match r {
                Some(m) => select_menu_from_json(raw@) == Some(m@),
                None => select_menu_from_json(raw@) is None,
            },
    {
        match raw {
            JsonValue::Object(_) => {},
            _ => return None,
        }
        let kind = read_component_type(raw, "type")?;
        let custom_id = String::from_str(get_str(raw, "custom_id")?);
        let options = read_select_options(raw, "options")?;
        let channel_types = read_opt_kinds(raw, "channel_types")?;
        let placeholder = read_opt_str(raw, "placeholder")?;
        let min_values = read_opt_u64(raw, "min_values")?;
        let max_values = read_opt_u64(raw, "max_values")?;
        let disabled = read_opt_bool(raw, "disabled")?;
        Some(SelectMenu { kind, custom_id, options, channel_types, placeholder, min_values, max_values, disabled })
    }
}

/// An optional text input style, read from its name.
pub open spec fn de_opt_text_style(f: Option<JsonView>) -> Option<Option<TextInputStyle>> {
    match de_opt_str(f) {
        None => None,
        Some(None) => Some(None),
        Some(Some(s)) => match text_input_style_of_name(s) {
            Some(st) => Some(Some(st)),
            None => None,
        },
    }
}

/// An optional value of a text input: missing or `null` is none; a string,
/// an integer, another number or a boolean is read as such.
pub open spec fn de_opt_option_value(f: Option<JsonView>) -> Option<Option<OptionValueView>> {
    match f {
        None => Some(None),
        Some(JsonView::Null) => Some(None),
        Some(JsonView::Str(s)) => Some(Some(OptionValueView::String(s))),
        Some(JsonView::Number(NumberView::NegInt(i))) => Some(Some(OptionValueView::Integer(i))),
        Some(JsonView::Number(NumberView::PosInt(n))) => if n <= i64::MAX as u64 {
            Some(Some(OptionValueView::Integer(n as i64)))
        } else {
            Some(Some(OptionValueView::Double(decimal(n as nat))))
        },
        Some(JsonView::Number(NumberView::Float(t))) => Some(Some(OptionValueView::Double(t))),
        Some(JsonView::Bool(b)) => Some(Some(OptionValueView::Boolean(b))),
        Some(_) => None,
    }
}

fn read_opt_text_style(raw: &JsonValue, key: &str) -> (r: Option<Option<TextInputStyle>>)
    ensures
        r == de_opt_text_style(json_get(raw@, key@)),
{
    match read_opt_str(raw, key)? {
        None => Some(None),
        Some(s) => match TextInputStyle::from_name(s.as_str()) {
            Some(st) => Some(Some(st)),
            None => None,
        },
    }
}

fn read_opt_option_value(raw: &JsonValue, key: &str) -> (r: Option<Option<InteractionDataOptionValue>>)
    ensures
        match r {
            None => de_opt_option_value(json_get(raw@, key@)) is None,
            Some(v) => de_opt_option_value(json_get(raw@, key@)) == Some(opt_option_value_view(v)),
        },
{
    match raw.get(key) {
        None => Some(None),
        Some(JsonValue::Null) => Some(None),
        Some(JsonValue::String(s)) => Some(Some(InteractionDataOptionValue::String(s.clone()))),
        Some(JsonValue::Number(JsonNumber::NegInt(i))) => Some(Some(InteractionDataOptionValue::Integer(*i))),
        Some(JsonValue::Number(JsonNumber::PosInt(n))) => if *n <= i64::MAX as u64 {
            Some(Some(InteractionDataOptionValue::Integer(*n as i64)))
        } else {
            Some(Some(InteractionDataOptionValue::Double(u64_to_string(*n))))
        },
        Some(JsonValue::Number(JsonNumber::Float(t))) => Some(Some(InteractionDataOptionValue::Double(t.clone()))),
        Some(JsonValue::Bool(b)) => Some(Some(InteractionDataOptionValue::Boolean(*b))),
        Some(_) => None,
    }
}

/// The text input a payload stands for, as the derived deserializer reads
/// it.
pub open spec fn text_input_from_json(v: JsonView) -> Option<TextInputView> {
    let kind = component_type_from_json(json_index(v, "type"@));
    let style = de_opt_text_style(json_get(v, "style"@));
    let label = de_opt_str(json_get(v, "label"@));
    let custom_id = json_str(json_index(v, "custom_id"@));
    let placeholder = de_opt_str(json_get(v, "placeholder"@));
    let min_length = de_opt_u64(json_get(v, "min_length"@));
    let max_length = de_opt_u64(json_get(v, "max_length"@));
    let disabled = de_opt_bool(json_get(v, "disabled"@));
    let value = de_opt_option_value(json_get(v, "value"@));
    if v is Object && kind is Some && style is Some && label is Some && custom_id is Some && placeholder is Some
        && min_length is Some && max_length is Some && disabled is Some && value is Some {
        Some(TextInputView {
            kind: kind.unwrap(),
            style: style.unwrap(),
            label: label.unwrap(),
            custom_id: custom_id.unwrap(),
            placeholder: placeholder.unwrap(),
            min_length: min_length.unwrap(),
            max_length: max_length.unwrap(),
            disabled: disabled.unwrap(),
            value: value.unwrap(),
        })
    } else {
        None
    }
}

impl TextInput {
    /// Reads a text input from a payload.
    pub fn from_raw(raw: &JsonValue) -> (r: Option<TextInput>)
        ensures
            match r {
                Some(t) => text_input_from_json(raw@) == Some(t@),
                None => text_input_from_json(raw@) is None,
            },
    {
        match raw {
            JsonValue::Object(_) => {},
            _ => return None,
        }
        let kind = read_component_type(raw, "type")?;
        let style = read_opt_text_style(raw, "style")?;
        let label = read_opt_str(raw, "label")?;
        let custom_id = String::from_str(get_str(raw, "custom_id")?);
        let placeholder = read_opt_str(raw, "placeholder")?;
        let min_length = read_opt_u64(raw, "min_length")?;
        let max_length = read_opt_u64(raw, "max_length")?;
        let disabled = read_opt_bool(raw, "disabled")?;
        let value = read_opt_option_value(raw, "value")?;
        Some(TextInput { kind, style, label, custom_id, placeholder, min_length, max_length, disabled, value })
    }
}

/// The components that items stand for, read in order; none when one of
/// them cannot be read.
pub open spec fn components_from_items(items: Seq<JsonView>) -> Option<Seq<ComponentView>>
    decreases items, 0nat,
{
    if items.len() == 0 {
        Some(Seq::empty())
    } else {
        match components_from_items(items.drop_last()) {
            None => None,
            Some(prev) => match component_from_json(items.last()) {
                Some(c) => Some(prev.push(c)),
                None => None,
            },
        }
    }
}

/// The action row a payload stands for: a component type, and the list of
/// components, which may be missing.
pub open spec fn action_row_from_json(v: JsonView) -> Option<ActionRowView>
    decreases v, 1nat
    via action_row_from_json_decreases
{
    let kind = component_type_from_json(json_index(v, "type"@));
    let comps = match json_get(v, "components"@) {
        None => Some(Seq::empty()),
        Some(x) => match json_array(x) {
            None => None,
            Some(items) => components_from_items(items),
        },
    };
    if v is Object && kind is Some && comps is Some {
        Some(ActionRowView { kind: kind.unwrap(), components: comps.unwrap() })
    } else {
        None
    }
}

#[via_fn]
proof fn action_row_from_json_decreases(v: JsonView) {
    lemma_get_smaller(v, "components"@);
    if let Some(x) = json_get(v, "components"@) {
        if let JsonView::Array(items) = x {
            assert(decreases_to!(x => items));
        }
    }
}

/// Items after one that cannot be read change nothing: the list still
/// cannot be read.
proof fn lemma_components_prefix_none(items: Seq<JsonView>, n: int)
    requires
        0 <= n <= items.len(),
        components_from_items(items.take(n)) is None,
    ensures
        components_from_items(items) is None,
    decreases items.len() - n,
{
    if n < items.len() {
        assert(items.take(n + 1).drop_last() =~= items.take(n));
        lemma_components_prefix_none(items, n + 1);
    } else {
        assert(items.take(n) =~= items);
    }
}

/// The component a payload stands for: read as each kind of component in
/// turn, the first that fits is taken.
pub open spec fn component_from_json(v: JsonView) -> Option<ComponentView>
    decreases v, 2nat,
{
    match action_row_from_json(v) {
        Some(a) => Some(ComponentView::ActionRow(a)),
        None => match button_from_json(v) {
            Some(b) => Some(ComponentView::Button(b)),
            None => match select_menu_from_json(v) {
                Some(m) => Some(ComponentView::SelectMenu(m)),
                None => match text_input_from_json(v) {
                    Some(t) => Some(ComponentView::TextInput(t)),
                    None => None,
                },
            },
        },
    }
}


impl ActionRow {
    /// Reads an action row from a payload.
    pub fn from_raw(raw: &JsonValue) -> (r: Option<ActionRow>)
        ensures
            match r {
                Some(a) => action_row_from_json(raw@) == Some(a@),
                None => action_row_from_json(raw@) is None,
            },
        decreases raw, 1nat,
    {
        match raw {
            JsonValue::Object(_) => {},
            _ => return None,
        }
        let kind = read_component_type(raw, "type")?;
        let components = match raw.get("components") {
            None => Vec::new(),
            Some(x) => {
                let items = x.as_array()?;
                let ghost iv = items_view(items@);
                let mut out: Vec<Component> = Vec::new();
                let mut i: usize = 0;
                proof {
                    assert(iv.take(0) =~= Seq::<JsonView>::empty());
                    assert(components_view(out@) =~= Seq::empty());
                }
                while i < items.len()
                    invariant
                        i <= items@.len(),
                        iv == items_view(items@),
                        json_array(x@) == Some(iv),
                        json_get(raw@, "components"@) == Some(x@),
                        raw@ is Object,
                        component_type_from_json(json_index(raw@, "type"@)) == Some(kind),
                        decreases_to!(*raw => *x),
                        forall|k: int| 0 <= k < items@.len() ==> decreases_to!(*x => #[trigger] items@[k]),
                        components_from_items(iv.take(i as int)) == Some(components_view(out@)),
                    decreases items@.len() - i,
                {
                    proof {
                        assert(decreases_to!(*x => items@[i as int]));
                        assert(iv.take(i + 1).drop_last() =~= iv.take(i as int));
                        assert(iv.take(i + 1).last() == items@[i as int]@);
                    }
                    match Component::from_raw(&items[i]) {
                        Some(c) => {
                            let ghost before = out@;
                            out.push(c);
                            proof {
                                assert(components_view(out@) =~= components_view(before).push(c@));
                            }
                        },
                        None => {
                            proof {
                                lemma_components_prefix_none(iv, i + 1);
                            }
                            return None;
                        },
                    }
                    i += 1;
                }
                proof {
                    assert(iv.take(i as int) =~= iv);
                }
                out
            },
        };
        let r = ActionRow { kind, components };
        proof {
            lemma_action_row_view(r);
            let s = action_row_from_json(raw@).unwrap();
            assert(s.kind == r@.kind);
            assert(s.components == r@.components);
            assert(s == r@);
        }
        Some(r)
    }
}

impl Component {
    /// Reads a component from a payload: as an action row, a button, a
    /// select menu or a text input, the first that fits.
    pub fn from_raw(raw: &JsonValue) -> (r: Option<Component>)
        ensures
            match r {
                Some(c) => component_from_json(raw@) == Some(c@),
                None => component_from_json(raw@) is None,
            },
        decreases raw, 2nat,
    {
        if let Some(a) = ActionRow::from_raw(raw) {
            return Some(Component::ActionRow(a));
        }
        if let Some(b) = Button::from_raw(raw) {
            return Some(Component::Button(b));
        }
        if let Some(m) = SelectMenu::from_raw(raw) {
            return Some(Component::SelectMenu(m));
        }
        if let Some(t) = TextInput::from_raw(raw) {
            return Some(Component::TextInput(t));
        }
        None
    }
}

/// A copy of a list of components.
pub fn clone_components(v: &Vec<Component>) -> (r: Vec<Component>)
    ensures
        components_view(r@) == components_view(v@),
{
    let mut out: Vec<Component> = Vec::new();
    let mut i: usize = 0;
    while i < v.len()
        invariant
            i <= v@.len(),
            out@.len() == i,
            forall|j: int| 0 <= j < i ==> #[trigger] out@[j]@ == v@[j]@,
        decreases v@.len() - i,
    {
        out.push(v[i].duplicate());
        i += 1;
    }
    proof {
        assert(components_view(out@) =~= components_view(v@));
    }
    out
}

/// A text input that takes the fields of a fresher copy keeps its value
/// and takes every other field; a copy with the same value replaces it
/// whole, and the old input matters only through its value.
pub proof fn law_text_input_takes_fresher_fields(old: TextInputView, other: TextInputView, from: TextInputView)
    ensures
        text_input_after_update(old, from).value == old.value,
        old.value == from.value ==> text_input_after_update(old, from) == from,
        old.value == other.value ==> text_input_after_update(old, from) == text_input_after_update(other, from),
{
}

/// A component updated from a fresher copy of the same kind takes it (a
/// text input keeping its value); from a copy of another kind it stays as
/// it was.
pub proof fn law_component_takes_fresher_copy(old: ComponentView, from: ComponentView)
    ensures
        (old is ActionRow && from is ActionRow) || (old is Button && from is Button)
            || (old is SelectMenu && from is SelectMenu) ==> component_after_update(old, from) == from,
        old matches ComponentView::TextInput(o) && from matches ComponentView::TextInput(f) && o.value == f.value
            ==> component_after_update(old, from) == from,
        !((old is ActionRow && from is ActionRow) || (old is Button && from is Button)
            || (old is SelectMenu && from is SelectMenu) || (old is TextInput && from is TextInput))
            ==> component_after_update(old, from) == old,
{
}

} // verus!
