//! Reports of errors, sent to a channel that the developers read.
//!
//! A report tells where the error happened, what interaction caused it and
//! any detail worth keeping. It goes out as a message of embeds with the
//! report itself attached as a JSON file.

use vstd::prelude::*;
use vstd::arithmetic::power::pow;
use crate::json::{object_entries, opt_string_json, str_or_null, JsonValue, JsonView};
use crate::models::common::opt_view;
use crate::models::components::embed::{empty_embed, Embed, EmbedView, Field, FieldView};
use crate::models::components::message_components::{
    ActionRow, ActionRowView, Button, ButtonStyle, ButtonView, Component, ComponentType, ComponentView,
};
use crate::models::components::Color;
use crate::models::ids::{opt_channel_view, opt_guild_view, opt_user_id_view, ChannelId, GuildId, UserId};
use crate::models::message::{
    empty_builder, AttachmentBuilder, MessageAttachmentBuilder, MessageAttachmentBuilderView, MessageBuilder,
    MessageBuilderView,
};
use crate::text_map::{first_occurrence, pairs_view, set_text, with_text};
use crate::time::{iso8601_of_millis, iso8601_text, millis_in_range, now_millis, rfc3339_of_millis, rfc3339_text, utc_millis_in_range};

verus! {

// ----------------------------------------------------------------------
// The interaction that failed

/// The kind of interaction during which an error happened.
#[derive(Debug, Clone, Copy, PartialEq, Eq, Structural)]
pub enum BroadcastInteractionType {
    SlashCommand,
    Button,
    Modal,
    SelectMenu,
}

/// How a report shows the kind of an interaction.
pub open spec fn interaction_type_label(t: BroadcastInteractionType) -> Seq<char> {
    match t {
        BroadcastInteractionType::SlashCommand => "Slash Command"@,
        BroadcastInteractionType::Button => "Button"@,
        BroadcastInteractionType::Modal => "Modal"@,
        BroadcastInteractionType::SelectMenu => "Select Menu"@,
    }
}

/// The name of the variant, as the JSON of a report holds it.
pub open spec fn interaction_type_name(t: BroadcastInteractionType) -> Seq<char> {
    match t {
        BroadcastInteractionType::SlashCommand => "SlashCommand"@,
        BroadcastInteractionType::Button => "Button"@,
        BroadcastInteractionType::Modal => "Modal"@,
        BroadcastInteractionType::SelectMenu => "SelectMenu"@,
    }
}

impl BroadcastInteractionType {
    /// The text that a report shows for the kind, as `Display` writes it.
    pub fn label(&self) -> (r: &'static str)
        ensures
            r@ == interaction_type_label(*self),
    {
        match self {
            BroadcastInteractionType::SlashCommand => "Slash Command",
            BroadcastInteractionType::Button => "Button",
            BroadcastInteractionType::Modal => "Modal",
            BroadcastInteractionType::SelectMenu => "Select Menu",
        }
    }

    /// The name of the variant.
    pub fn name(&self) -> (r: &'static str)
        ensures
            r@ == interaction_type_name(*self),
    {
        match self {
            BroadcastInteractionType::SlashCommand => "SlashCommand",
            BroadcastInteractionType::Button => "Button",
            BroadcastInteractionType::Modal => "Modal",
            BroadcastInteractionType::SelectMenu => "SelectMenu",
        }
    }
}

/// The interaction during which an error happened.
#[derive(Debug)]
pub struct BroadcastInteraction {
    pub interaction_type: Option<BroadcastInteractionType>,
    pub name: Option<String>,
}

/// The values of a failed interaction, its name taken as characters.
pub ghost struct BroadcastInteractionView {
    pub interaction_type: Option<BroadcastInteractionType>,
    pub name: Option<Seq<char>>,
}

impl View for BroadcastInteraction {
    type V = BroadcastInteractionView;

    open spec fn view(&self) -> BroadcastInteractionView {
        BroadcastInteractionView { interaction_type: self.interaction_type, name: opt_view(self.name) }
    }
}

impl Default for BroadcastInteraction {
    fn default() -> (r: BroadcastInteraction)
        ensures
            r@ == (BroadcastInteractionView { interaction_type: None, name: None }),
    {
        BroadcastInteraction { interaction_type: None, name: None }
    }
}

impl BroadcastInteraction {
    /// Sets the name of the command or of the component.
    pub fn set_name(self, name: &str) -> (r: BroadcastInteraction)
        ensures
            r@ == (BroadcastInteractionView { name: Some(name@), ..self@ }),
    {
        let mut s = self;
        s.name = Some(String::from_str(name));
        s
    }

    /// Sets the kind of the interaction.
    pub fn set_type(self, interaction_type: BroadcastInteractionType) -> (r: BroadcastInteraction)
        ensures
            r@ == (BroadcastInteractionView { interaction_type: Some(interaction_type), ..self@ }),
    {
        let mut s = self;
        s.interaction_type = Some(interaction_type);
        s
    }
}

// ----------------------------------------------------------------------
// Where the error happened

/// Where an error happened: a guild, a channel, a user and a place in the
/// code, each of them if known.
#[derive(Debug)]
pub struct BroadcastLocalisation {
    pub guild: Option<GuildId>,
    pub channel: Option<ChannelId>,
    pub user: Option<UserId>,
    pub code_path: Option<String>,
}

/// The values of a localisation, its texts taken as characters.
pub ghost struct BroadcastLocalisationView {
    pub guild: Option<Seq<char>>,
    pub channel: Option<Seq<char>>,
    pub user: Option<Seq<char>>,
    pub code_path: Option<Seq<char>>,
}

impl View for BroadcastLocalisation {
    type V = BroadcastLocalisationView;

    open spec fn view(&self) -> BroadcastLocalisationView {
        BroadcastLocalisationView {
            guild: opt_guild_view(self.guild),
            channel: opt_channel_view(self.channel),
            user: opt_user_id_view(self.user),
            code_path: opt_view(self.code_path),
        }
    }
}

impl Default for BroadcastLocalisation {
    fn default() -> (r: BroadcastLocalisation)
        ensures
            r@ == (BroadcastLocalisationView { guild: None, channel: None, user: None, code_path: None }),
    {
        BroadcastLocalisation { guild: None, channel: None, user: None, code_path: None }
    }
}

impl BroadcastLocalisation {
    /// Sets the guild, or clears it.
    pub fn set_guild(self, guild: Option<GuildId>) -> (r: BroadcastLocalisation)
        ensures
            r@ == (BroadcastLocalisationView { guild: opt_guild_view(guild), ..self@ }),
    {
        let mut s = self;
        s.guild = guild;
        s
    }

    /// Sets the channel, or clears it.
    pub fn set_channel(self, channel: Option<ChannelId>) -> (r: BroadcastLocalisation)
        ensures
            r@ == (BroadcastLocalisationView { channel: opt_channel_view(channel), ..self@ }),
    {
        let mut s = self;
        s.channel = channel;
        s
    }

    /// Sets the user, or clears it.
    pub fn set_user(self, user: Option<UserId>) -> (r: BroadcastLocalisation)
        ensures
            r@ == (BroadcastLocalisationView { user: opt_user_id_view(user), ..self@ }),
    {
        let mut s = self;
        s.user = user;
        s
    }

    /// Sets the place in the code.
    pub fn set_code_path(self, code_path: &str) -> (r: BroadcastLocalisation)
        ensures
            r@ == (BroadcastLocalisationView { code_path: Some(code_path@), ..self@ }),
    {
        let mut s = self;
        s.code_path = Some(String::from_str(code_path));
        s
    }
}

// ----------------------------------------------------------------------
// Details

/// Further details of an error: a text under each of some names.
///
/// A name occurs once; giving a value to a name that is there already
/// replaces its value in place, and a new name comes last.
#[derive(Debug)]
pub struct BroadcastDetails {
    pub informations: Vec<(String, String)>,
}

impl View for BroadcastDetails {
    type V = Seq<(Seq<char>, Seq<char>)>;

    open spec fn view(&self) -> Seq<(Seq<char>, Seq<char>)> {
        pairs_view(self.informations@)
    }
}

impl Default for BroadcastDetails {
    fn default() -> (r: BroadcastDetails)
        ensures
            r@ == Seq::<(Seq<char>, Seq<char>)>::empty(),
    {
        let r = BroadcastDetails { informations: Vec::new() };
        assert(r@ =~= Seq::<(Seq<char>, Seq<char>)>::empty());
        r
    }
}

impl BroadcastDetails {
    /// Gives the text `v` to the name `k`.
    pub fn add(self, k: &str, v: &str) -> (r: BroadcastDetails)
        ensures
            r@ == with_text(self@, k@, v@),
    {
        let mut s = self;
        set_text(&mut s.informations, k, v);
        s
    }
}

// ----------------------------------------------------------------------
// Identifiers of reports

/// The hexadecimal digit of `d`, in lower case.
pub open spec fn hex_digit_of(d: int) -> char {
    seq!['0', '1', '2', '3', '4', '5', '6', '7', '8', '9', 'a', 'b', 'c', 'd', 'e', 'f'][d]
}

/// The 32 hexadecimal digits of a 128-bit number, most significant first.
pub open spec fn uuid_hex(id: u128) -> Seq<char> {
    Seq::new(32, |i: int| hex_digit_of(((id as int) / pow(16, (31 - i) as nat)) % 16))
}

/// The hyphenated text of an identifier: its digits in groups of 8, 4, 4,
/// 4 and 12, joined by hyphens.
pub open spec fn hyphenated_uuid(id: u128) -> Seq<char> {
    let h = uuid_hex(id);
    h.subrange(0, 8) + seq!['-'] + h.subrange(8, 12) + seq!['-'] + h.subrange(12, 16) + seq!['-']
        + h.subrange(16, 20) + seq!['-'] + h.subrange(20, 32)
}

/// Whether a 128-bit number carries the version and variant bits of a
/// random identifier.
pub open spec fn is_random_uuid(id: u128) -> bool {
    &&& (id >> 76u128) & 0xfu128 == 4
    &&& (id >> 62u128) & 3u128 == 2
}

/// Makes a random identifier with `uuid::Uuid::new_v4` and gives it as a
/// number (`Uuid::as_u128`). Its source draws 128 random bits and sets the
/// version nibble to 4 and the two variant bits to `10`; the contract says
/// that and nothing of the other bits.
#[verifier::external_body]
fn new_report_id() -> (r: u128)
    ensures
        is_random_uuid(r),
{
    uuid::Uuid::new_v4().as_u128()
}

/// Writes an identifier with `uuid::Uuid::from_u128` and the `Display` of
/// `Uuid::hyphenated`: its 32 digits in lower case, most significant first,
/// with hyphens after the 8th, 12th, 16th and 20th.
#[verifier::external_body]
fn uuid_text(id: u128) -> (r: String)
    ensures
        r@ == hyphenated_uuid(id),
{
    uuid::Uuid::from_u128(id).hyphenated().to_string()
}

// ----------------------------------------------------------------------
// Reports

/// An error to report: its identifier, the time it happened, in
/// milliseconds since the UNIX epoch, and what is known of it.
#[derive(Debug)]
pub struct BroadcastError {
    pub id: u128,
    pub date: i64,
    pub localisation: BroadcastLocalisation,
    pub details: BroadcastDetails,
    pub interaction: BroadcastInteraction,
}

/// The values of a report.
pub ghost struct BroadcastErrorView {
    pub id: u128,
    pub date: i64,
    pub localisation: BroadcastLocalisationView,
    pub details: Seq<(Seq<char>, Seq<char>)>,
    pub interaction: BroadcastInteractionView,
}

impl View for BroadcastError {
    type V = BroadcastErrorView;

    open spec fn view(&self) -> BroadcastErrorView {
        BroadcastErrorView {
            id: self.id,
            date: self.date,
            localisation: self.localisation@,
            details: self.details@,
            interaction: self.interaction@,
        }
    }
}

/// The channel that reports are sent to.
pub open spec fn report_channel() -> Seq<char> {
    "1154827849048543232"@
}

/// A text shown as a block of code.
pub open spec fn code_block(s: Seq<char>) -> Seq<char> {
    "```\n"@ + s + "```"@
}

/// A mention of an id followed by the id as a block of code.
pub open spec fn mention_block(prefix: Seq<char>, id: Seq<char>) -> Seq<char> {
    prefix + id + ">\n"@ + code_block(id)
}

/// A field of a report: a name over a value, not inline.
pub open spec fn report_field(name: Seq<char>, value: Seq<char>) -> FieldView {
    FieldView { name: name, value: value, inline: Some(false) }
}

/// The one field that an optional value gives, or none.
pub open spec fn opt_fields(o: Option<FieldView>) -> Seq<FieldView> {
    match o {
        Some(f) => seq![f],
        None => Seq::empty(),
    }
}

/// The fields of the localisation embed.
pub open spec fn localisation_fields(l: BroadcastLocalisationView) -> Seq<FieldView> {
    opt_fields(match l.guild { Some(g) => Some(report_field("Guild"@, code_block(g))), None => None })
        + opt_fields(match l.user { Some(u) => Some(report_field("User"@, mention_block("<@"@, u))), None => None })
        + opt_fields(match l.channel { Some(c) => Some(report_field("Channel"@, mention_block("<#"@, c))), None => None })
        + opt_fields(match l.code_path { Some(p) => Some(report_field("Code path"@, code_block(p))), None => None })
}

/// Whether anything is known of where the error happened.
pub open spec fn has_localisation(l: BroadcastLocalisationView) -> bool {
    l.guild is Some || l.user is Some || l.channel is Some || l.code_path is Some
}

/// The fields of the details embed, one for each name, in order.
pub open spec fn details_fields(d: Seq<(Seq<char>, Seq<char>)>) -> Seq<FieldView> {
    Seq::new(d.len(), |i: int| report_field(d[i].0, code_block(d[i].1)))
}

/// The fields of the interaction embed.
pub open spec fn interaction_fields(name: Option<Seq<char>>, t: BroadcastInteractionType) -> Seq<FieldView> {
    opt_fields(match name { Some(n) => Some(report_field("Name"@, code_block(n))), None => None })
        + seq![report_field("Type"@, code_block(interaction_type_label(t)))]
}

/// The fields of an embed: none when the list is empty.
pub open spec fn fields_opt(fs: Seq<FieldView>) -> Option<Seq<FieldView>> {
    if fs.len() == 0 {
        None
    } else {
        Some(fs)
    }
}

/// An embed of a report: a title, a color and fields.
pub open spec fn section_embed(title: Seq<char>, color: u64, fs: Seq<FieldView>) -> EmbedView {
    EmbedView { title: Some(title), color: Some(Color(color)), fields: fields_opt(fs), ..empty_embed() }
}

/// The first embed of a report.
pub open spec fn headline_embed() -> EmbedView {
    EmbedView { description: Some("> **New report**"@), color: Some(Color(16724787)), ..empty_embed() }
}

/// The embeds of a report: the headline, then the localisation, the
/// details and the interaction, each where there is something to show.
pub open spec fn report_embeds(e: BroadcastErrorView) -> Seq<EmbedView> {
    seq![headline_embed()]
        + (if has_localisation(e.localisation) {
            seq![section_embed("Localisation"@, 3407769, localisation_fields(e.localisation))]
        } else {
            Seq::empty()
        })
        + (if e.details.len() > 0 {
            seq![section_embed("Details"@, 3373823, details_fields(e.details))]
        } else {
            Seq::empty()
        })
        + (match e.interaction.interaction_type {
            Some(t) => seq![section_embed("Interaction"@, 16724877, interaction_fields(e.interaction.name, t))],
            None => Seq::empty(),
        })
}

/// One for a present value, none for a missing one.
pub open spec fn count_some<A>(o: Option<A>) -> nat {
    if o is Some { 1 } else { 0 }
}

/// A report carries one embed more than its headline for each section that
/// has something to show: the localisation, with one field per known
/// place, in the order guild, user, channel, code path; the details, with
/// one field per name; and the interaction.
pub proof fn law_report_embed_count(e: BroadcastErrorView)
    ensures
        report_embeds(e).len() == 1 + (if has_localisation(e.localisation) { 1nat } else { 0nat })
            + (if e.details.len() > 0 { 1nat } else { 0nat }) + count_some(e.interaction.interaction_type),
        localisation_fields(e.localisation).len() == count_some(e.localisation.guild) + count_some(e.localisation.user)
            + count_some(e.localisation.channel) + count_some(e.localisation.code_path),
        details_fields(e.details).len() == e.details.len(),
{
}

/// Giving a text to a name of the details adds an entry when the name is
/// new, and leaves their number as it was when it is already there.
pub proof fn law_details_length(d: Seq<(Seq<char>, Seq<char>)>, k: Seq<char>, v: Seq<char>)
    ensures
        with_text(d, k, v).len() == if exists|i: int| first_occurrence(d, k, i) { d.len() } else { d.len() + 1 },
{
}

/// The disabled button that shows the date of a report.
pub open spec fn date_button(date: i64) -> ButtonView {
    ButtonView {
        kind: ComponentType::Button,
        style: ButtonStyle::Secondary,
        label: Some(rfc3339_text(date)),
        emoji: None,
        custom_id: "DATE"@,
        url: None,
        disabled: Some(true),
    }
}

/// The description of the file that carries a report.
pub open spec fn report_attachment_view() -> MessageAttachmentBuilderView {
    MessageAttachmentBuilderView {
        description: None,
        name: "report.json"@,
        content_type: "application/json"@,
        id: 0,
    }
}

/// The message that carries a report.
pub open spec fn report_builder(e: BroadcastErrorView) -> MessageBuilderView {
    MessageBuilderView {
        components: seq![ComponentView::ActionRow(ActionRowView {
            kind: ComponentType::ActionRow,
            components: seq![ComponentView::Button(date_button(e.date))],
        })],
        embeds: report_embeds(e),
        attachments: seq![report_attachment_view()],
        ..empty_builder()
    }
}

/// The entries of the details in the JSON of a report.
pub open spec fn details_entries(d: Seq<(Seq<char>, Seq<char>)>) -> Seq<(Seq<char>, JsonView)> {
    Seq::new(d.len(), |i: int| (d[i].0, JsonView::Str(d[i].1)))
}

/// The kind of interaction in the JSON of a report.
pub open spec fn opt_type_name(t: Option<BroadcastInteractionType>) -> Option<Seq<char>> {
    match t {
        Some(t) => Some(interaction_type_name(t)),
        None => None,
    }
}

/// The JSON of a report, its fields in the order of the structures.
pub open spec fn report_value(e: BroadcastErrorView) -> JsonView {
    JsonView::Object(seq![
        ("id"@, JsonView::Str(hyphenated_uuid(e.id))),
        ("date"@, JsonView::Str(iso8601_text(e.date))),
        ("localisation"@, JsonView::Object(seq![
            ("guild"@, str_or_null(e.localisation.guild)),
            ("channel"@, str_or_null(e.localisation.channel)),
            ("user"@, str_or_null(e.localisation.user)),
            ("code_path"@, str_or_null(e.localisation.code_path)),
        ])),
        ("details"@, JsonView::Object(seq![("informations"@, JsonView::Object(details_entries(e.details)))])),
        ("interaction"@, JsonView::Object(seq![
            ("interaction_type"@, str_or_null(opt_type_name(e.interaction.interaction_type))),
            ("name"@, str_or_null(e.interaction.name)),
        ])),
    ])
}

/// Writes a text as a block of code.
fn code_block_of(s: &str) -> (r: String)
    ensures
        r@ == code_block(s@),
{
    let mut r = String::from_str("```\n");
    r.append(s);
    r.append("```");
    r
}

/// Writes a mention of an id followed by the id as a block of code.
fn mention_block_of(prefix: &str, id: &str) -> (r: String)
    ensures
        r@ == mention_block(prefix@, id@),
{
    let mut r = String::from_str(prefix);
    r.append(id);
    r.append(">\n");
    let b = code_block_of(id);
    r.append(b.as_str());
    r
}

/// Makes a field of a report.
fn report_field_of(name: &str, value: &str) -> (r: Field)
    ensures
        r@ == report_field(name@, value@),
{
    Field::new().set_name(name).set_value(value).set_inline(false)
}

/// Adds a field to an embed of a report.
fn push_field(e: Embed, f: Field, Ghost(title): Ghost<Seq<char>>, Ghost(color): Ghost<u64>, Ghost(fs): Ghost<Seq<FieldView>>) -> (r: Embed)
    requires
        e@ == section_embed(title, color, fs),
    ensures
        r@ == section_embed(title, color, fs.push(f@)),
{
    let ghost fv = f@;
    let r = e.add_field(f);
    proof {
        if fs.len() == 0 {
            assert(fs.push(fv) =~= seq![fv]);
        }
    }
    r
}

/// The channel that reports are sent to.
pub fn broadcast_channel() -> (r: ChannelId)
    ensures
        r@ == report_channel(),
{
    ChannelId(crate::models::ids::Snowflake(String::from_str("1154827849048543232")))
}

impl BroadcastError {
    /// Starts the report of an error that happens now, under a new random
    /// identifier.
    pub fn new(
        localisation: BroadcastLocalisation,
        details: BroadcastDetails,
        interaction: BroadcastInteraction,
    ) -> (r: BroadcastError)
        ensures
            is_random_uuid(r.id),
            utc_millis_in_range(r.date),
            r@.localisation == localisation@,
            r@.details == details@,
            r@.interaction == interaction@,
    {
        BroadcastError { id: new_report_id(), date: now_millis(), localisation, details, interaction }
    }

    /// Sets the time of the error, in milliseconds since the UNIX epoch.
    pub fn set_date(self, date: i64) -> (r: BroadcastError)
        ensures
            r@ == (BroadcastErrorView { date: date, ..self@ }),
    {
        let mut s = self;
        s.date = date;
        s
    }

    /// The file under which a report is saved.
    pub fn report_path(&self) -> (r: String)
        ensures
            r@ == "errors/broadcaster/"@ + hyphenated_uuid(self.id),
    {
        let mut r = String::from_str("errors/broadcaster/");
        let t = uuid_text(self.id);
        r.append(t.as_str());
        r
    }

    /// The file that carries a report, given the text of the report.
    pub fn report_attachment(json: Vec<u8>) -> (r: AttachmentBuilder)
        ensures
            r.bytes@ == json@,
            r.content_type@ == "application/json"@,
            r.description is None,
            r.filename@ == "report.json"@,
            r.id == 0,
    {
        AttachmentBuilder {
            bytes: json,
            content_type: String::from_str("application/json"),
            description: None,
            filename: String::from_str("report.json"),
            id: 0,
        }
    }

    fn localisation_embed(&self) -> (r: Embed)
        ensures
            r@ == section_embed("Localisation"@, 3407769, localisation_fields(self@.localisation)),
    {
        let l = &self.localisation;
        let ghost lv = l@;
        let mut e = Embed::new().set_title("Localisation").set_color(Color::from_rgb(51, 255, 153));
        let ghost mut fs: Seq<FieldView> = Seq::empty();
        assert(e@ == section_embed("Localisation"@, 3407769, fs));
        if let Some(g) = &l.guild {
            let v = code_block_of(g.0.0.as_str());
            let f = report_field_of("Guild", v.as_str());
            e = push_field(e, f, Ghost("Localisation"@), Ghost(3407769u64), Ghost(fs));
            proof { fs = fs.push(report_field("Guild"@, code_block(g@))); }
        }
        assert(fs =~= opt_fields(match lv.guild { Some(g) => Some(report_field("Guild"@, code_block(g))), None => None }));
        let ghost fs1 = fs;
        if let Some(u) = &l.user {
            let v = mention_block_of("<@", u.0.0.as_str());
            let f = report_field_of("User", v.as_str());
            e = push_field(e, f, Ghost("Localisation"@), Ghost(3407769u64), Ghost(fs));
            proof { fs = fs.push(report_field("User"@, mention_block("<@"@, u@))); }
        }
        assert(fs =~= fs1 + opt_fields(match lv.user { Some(u) => Some(report_field("User"@, mention_block("<@"@, u))), None => None }));
        let ghost fs2 = fs;
        if let Some(c) = &l.channel {
            let v = mention_block_of("<#", c.0.0.as_str());
            let f = report_field_of("Channel", v.as_str());
            e = push_field(e, f, Ghost("Localisation"@), Ghost(3407769u64), Ghost(fs));
            proof { fs = fs.push(report_field("Channel"@, mention_block("<#"@, c@))); }
        }
        assert(fs =~= fs2 + opt_fields(match lv.channel { Some(c) => Some(report_field("Channel"@, mention_block("<#"@, c))), None => None }));
        let ghost fs3 = fs;
        if let Some(p) = &l.code_path {
            let v = code_block_of(p.as_str());
            let f = report_field_of("Code path", v.as_str());
            e = push_field(e, f, Ghost("Localisation"@), Ghost(3407769u64), Ghost(fs));
            proof { fs = fs.push(report_field("Code path"@, code_block(p@))); }
        }
        assert(fs =~= fs3 + opt_fields(match lv.code_path { Some(p) => Some(report_field("Code path"@, code_block(p))), None => None }));
        assert(fs =~= localisation_fields(lv));
        e
    }

    fn details_embed(&self) -> (r: Embed)
        ensures
            r@ == section_embed("Details"@, 3373823, details_fields(self@.details)),
    {
        let inf = &self.details.informations;
        let ghost d = self@.details;
        let mut e = Embed::new().set_title("Details").set_color(Color::from_rgb(51, 122, 255));
        assert(details_fields(d.take(0)) =~= Seq::<FieldView>::empty());
        let mut i: usize = 0;
        while i < inf.len()
            invariant
                i <= inf.len(),
                d == pairs_view(inf@),
                e@ == section_embed("Details"@, 3373823, details_fields(d.take(i as int))),
            decreases inf.len() - i,
        {
            let v = code_block_of(inf[i].1.as_str());
            let f = report_field_of(inf[i].0.as_str(), v.as_str());
            e = push_field(e, f, Ghost("Details"@), Ghost(3373823u64), Ghost(details_fields(d.take(i as int))));
            assert(details_fields(d.take(i as int)).push(f@) =~= details_fields(d.take(i + 1)));
            i = i + 1;
        }
        assert(d.take(i as int) =~= d);
        e
    }

    fn interaction_embed(&self, t: BroadcastInteractionType) -> (r: Embed)
        ensures
            r@ == section_embed("Interaction"@, 16724877, interaction_fields(self@.interaction.name, t)),
    {
        let mut e = Embed::new().set_title("Interaction").set_color(Color::from_rgb(255, 51, 141));
        let ghost mut fs: Seq<FieldView> = Seq::empty();
        assert(e@ == section_embed("Interaction"@, 16724877, fs));
        if let Some(n) = &self.interaction.name {
            let v = code_block_of(n.as_str());
            let f = report_field_of("Name", v.as_str());
            e = push_field(e, f, Ghost("Interaction"@), Ghost(16724877u64), Ghost(fs));
            proof { fs = fs.push(report_field("Name"@, code_block(n@))); }
        }
        let v = code_block_of(t.label());
        let f = report_field_of("Type", v.as_str());
        e = push_field(e, f, Ghost("Interaction"@), Ghost(16724877u64), Ghost(fs));
        assert(fs.push(report_field("Type"@, code_block(interaction_type_label(t)))) =~= interaction_fields(self@.interaction.name, t));
        e
    }

    /// The message that reports the error: a disabled button with the date,
    /// the embeds of `report_embeds` and the description of the attached
    /// report.
    pub fn report_message(&self) -> (r: MessageBuilder)
        requires
            utc_millis_in_range(self.date),
        ensures
            r@ == report_builder(self@),
    {
        let date = rfc3339_of_millis(self.date);
        let button = Button::new("DATE").set_label(date.as_str()).set_style(ButtonStyle::Secondary).set_disabled(true);
        let row = ActionRow::new().add_component(Component::Button(button));
        let headline = Embed::new().set_description("> **New report**").set_color(Color::from_rgb(255, 51, 51));
        let mut builder = MessageBuilder::new().add_component(Component::ActionRow(row)).add_embed(headline).add_attachment(
            MessageAttachmentBuilder {
                description: None,
                name: String::from_str("report.json"),
                content_type: String::from_str("application/json"),
                id: 0,
            },
        );
        let ghost mut es: Seq<EmbedView> = seq![headline_embed()];
        assert(builder@.embeds =~= es);
        let l = &self.localisation;
        if !(l.guild.is_none() && l.user.is_none() && l.channel.is_none() && l.code_path.is_none()) {
            let e = self.localisation_embed();
            proof { es = es.push(e@); }
            builder = builder.add_embed(e);
        }
        assert(es =~= seq![headline_embed()] + (if has_localisation(self@.localisation) {
            seq![section_embed("Localisation"@, 3407769, localisation_fields(self@.localisation))]
        } else {
            Seq::empty()
        }));
        let ghost es1 = es;
        if self.details.informations.len() > 0 {
            let e = self.details_embed();
            proof { es = es.push(e@); }
            builder = builder.add_embed(e);
        }
        assert(es =~= es1 + (if self@.details.len() > 0 {
            seq![section_embed("Details"@, 3373823, details_fields(self@.details))]
        } else {
            Seq::empty()
        }));
        let ghost es2 = es;
        if let Some(t) = &self.interaction.interaction_type {
            let e = self.interaction_embed(*t);
            proof { es = es.push(e@); }
            builder = builder.add_embed(e);
        }
        assert(es =~= es2 + (match self@.interaction.interaction_type {
            Some(t) => seq![section_embed("Interaction"@, 16724877, interaction_fields(self@.interaction.name, t))],
            None => Seq::empty(),
        }));
        assert(es =~= report_embeds(self@));
        assert(builder@.embeds == report_embeds(self@));
        assert(builder@.components =~= report_builder(self@).components);
        assert(builder@.attachments =~= report_builder(self@).attachments);
        builder
    }

    /// The message that reports the error, where its date is one that the
    /// calendar can write; `None` otherwise.
    pub fn try_report_message(&self) -> (r: Option<MessageBuilder>)
        ensures
            utc_millis_in_range(self.date) ==> (r matches Some(b) && b@ == report_builder(self@)),
            !utc_millis_in_range(self.date) ==> r is None,
    {
        if millis_in_range(self.date) {
            Some(self.report_message())
        } else {
            None
        }
    }
}

impl BroadcastError {
    fn localisation_value(&self) -> (r: JsonValue)
        ensures
            r@ == JsonView::Object(seq![
                ("guild"@, str_or_null(self@.localisation.guild)),
                ("channel"@, str_or_null(self@.localisation.channel)),
                ("user"@, str_or_null(self@.localisation.user)),
                ("code_path"@, str_or_null(self@.localisation.code_path)),
            ]),
    {
        let l = &self.localisation;
        let v0 = opt_string_json(&match &l.guild { Some(g) => Some(g.0.0.clone()), None => None });
        let v1 = opt_string_json(&match &l.channel { Some(c) => Some(c.0.0.clone()), None => None });
        let v2 = opt_string_json(&match &l.user { Some(u) => Some(u.0.0.clone()), None => None });
        let v3 = opt_string_json(&l.code_path);
        assert(v0@ == str_or_null(self@.localisation.guild));
        assert(v1@ == str_or_null(self@.localisation.channel));
        assert(v2@ == str_or_null(self@.localisation.user));
        let mut es: Vec<(String, JsonValue)> = Vec::new();
        es.push((String::from_str("guild"), v0));
        es.push((String::from_str("channel"), v1));
        es.push((String::from_str("user"), v2));
        es.push((String::from_str("code_path"), v3));
        let r = JsonValue::Object(es);
        proof {
            let expected: Seq<(Seq<char>, JsonView)> = seq![
                ("guild"@, str_or_null(self@.localisation.guild)),
                ("channel"@, str_or_null(self@.localisation.channel)),
                ("user"@, str_or_null(self@.localisation.user)),
                ("code_path"@, str_or_null(self@.localisation.code_path)),
            ];
            let got = object_entries(r@);
            assert(got.len() == 4);
            assert(got[0] == expected[0]);
            assert(got[1] == expected[1]);
            assert(got[2] == expected[2]);
            assert(got[3] == expected[3]);
            assert(got =~= expected);
        }
        r
    }

    fn details_value(&self) -> (r: JsonValue)
        ensures
            r@ == JsonView::Object(seq![("informations"@, JsonView::Object(details_entries(self@.details)))]),
    {
        let inf = &self.details.informations;
        let ghost d = self@.details;
        let mut es: Vec<(String, JsonValue)> = Vec::new();
        let mut i: usize = 0;
        while i < inf.len()
            invariant
                i <= inf.len(),
                d == pairs_view(inf@),
                es@.len() == i,
                forall|j: int| 0 <= j < i ==> (#[trigger] es@[j]).0@ == d[j].0 && es@[j].1@ == JsonView::Str(d[j].1),
            decreases inf.len() - i,
        {
            es.push((inf[i].0.clone(), JsonValue::String(inf[i].1.clone())));
            i = i + 1;
        }
        let inner = JsonValue::Object(es);
        proof {
            let got = object_entries(inner@);
            assert forall|j: int| 0 <= j < got.len() implies got[j] == details_entries(d)[j] by {
                assert(es@[j].0@ == d[j].0);
            }
            assert(got =~= details_entries(d));
        }
        let mut outer: Vec<(String, JsonValue)> = Vec::new();
        outer.push((String::from_str("informations"), inner));
        let r = JsonValue::Object(outer);
        proof {
            let expected: Seq<(Seq<char>, JsonView)> = seq![("informations"@, JsonView::Object(details_entries(d)))];
            let got = object_entries(r@);
            assert(got.len() == 1);
            assert(got[0] == expected[0]);
            assert(got =~= expected);
        }
        r
    }

    fn interaction_value(&self) -> (r: JsonValue)
        ensures
            r@ == JsonView::Object(seq![
                ("interaction_type"@, str_or_null(opt_type_name(self@.interaction.interaction_type))),
                ("name"@, str_or_null(self@.interaction.name)),
            ]),
    {
        let v0 = match &self.interaction.interaction_type {
            Some(t) => JsonValue::String(String::from_str(t.name())),
            None => JsonValue::Null,
        };
        assert(v0@ == str_or_null(opt_type_name(self@.interaction.interaction_type)));
        let v1 = opt_string_json(&self.interaction.name);
        let mut es: Vec<(String, JsonValue)> = Vec::new();
        es.push((String::from_str("interaction_type"), v0));
        es.push((String::from_str("name"), v1));
        let r = JsonValue::Object(es);
        proof {
            let expected: Seq<(Seq<char>, JsonView)> = seq![
                ("interaction_type"@, str_or_null(opt_type_name(self@.interaction.interaction_type))),
                ("name"@, str_or_null(self@.interaction.name)),
            ];
            let got = object_entries(r@);
            assert(got.len() == 2);
            assert(got[0] == expected[0]);
            assert(got[1] == expected[1]);
            assert(got =~= expected);
        }
        r
    }

    /// The report as JSON, as it is saved and attached.
    pub fn to_value(&self) -> (r: JsonValue)
        requires
            utc_millis_in_range(self.date),
        ensures
            r@ == report_value(self@),
    {
        let v0 = JsonValue::String(uuid_text(self.id));
        let v1 = JsonValue::String(iso8601_of_millis(self.date));
        let v2 = self.localisation_value();
        let v3 = self.details_value();
        let v4 = self.interaction_value();
        let ghost g0 = v0@;
        let ghost g1 = v1@;
        let ghost g2 = v2@;
        let ghost g3 = v3@;
        let ghost g4 = v4@;
        let mut es: Vec<(String, JsonValue)> = Vec::new();
        es.push((String::from_str("id"), v0));
        es.push((String::from_str("date"), v1));
        es.push((String::from_str("localisation"), v2));
        es.push((String::from_str("details"), v3));
        es.push((String::from_str("interaction"), v4));
        let r = JsonValue::Object(es);
        proof {
            let expected = object_entries(report_value(self@));
            let got = object_entries(r@);
            assert(got.len() == 5);
            assert(got[0] == expected[0]);
            assert(got[1] == expected[1]);
            assert(got[2] == expected[2]);
            assert(got[3] == expected[3]);
            assert(got[4] == expected[4]);
            assert(got =~= expected);
        }
        r
    }

    /// The report as JSON, where its date is one that the calendar can
    /// write; `None` otherwise.
    pub fn try_to_value(&self) -> (r: Option<JsonValue>)
        ensures
            utc_millis_in_range(self.date) ==> (r matches Some(v) && v@ == report_value(self@)),
            !utc_millis_in_range(self.date) ==> r is None,
    {
        if millis_in_range(self.date) {
            Some(self.to_value())
        } else {
            None
        }
    }
}

} // verus!
