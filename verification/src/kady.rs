//! The `kady` command, which tells about the bot: its subcommands, the
//! messages that point to the support server and to the invitation, and the
//! card of information.

use vstd::prelude::*;
use crate::models::components::{hex_color_value, Color, Emoji, EmojiView};
use crate::models::components::embed::{Author, AuthorView, Embed, EmbedView, Footer, FooterView, empty_embed};
use crate::models::components::message_components::{
    ActionRow, ActionRowView, Button, ButtonStyle, ButtonView, Component, ComponentType, ComponentView,
};
use crate::models::interaction::{data_options_view, DataOptionView, InteractionDataOption};
use crate::models::message::{empty_builder, MessageBuilder, MessageBuilderView};
use crate::models::user::{image_url, ClientUser, ClientUserView};
use crate::profile::{Localized, LocalizedView, DEFAULT_AVATAR};
use crate::text::{chars_to_string, decimal, signed_decimal, push_signed_decimal, str_eq, u64_to_string};

verus! {

/// The subcommands of `kady`.
#[derive(Debug, Clone, Copy, PartialEq, Eq, Structural)]
pub enum KadySubcommand {
    Invite,
    Support,
    Informations,
    Suggest,
    Issue,
    Review,
}

/// The subcommand an option names, if it names one.
pub open spec fn subcommand_named(name: Seq<char>) -> Option<KadySubcommand> {
    if name == "invite"@ {
        Some(KadySubcommand::Invite)
    } else if name == "support"@ {
        Some(KadySubcommand::Support)
    } else if name == "informations"@ {
        Some(KadySubcommand::Informations)
    } else if name == "suggest"@ {
        Some(KadySubcommand::Suggest)
    } else if name == "issue"@ {
        Some(KadySubcommand::Issue)
    } else if name == "review"@ {
        Some(KadySubcommand::Review)
    } else {
        None
    }
}

/// The option name of each subcommand of `kady`.
pub open spec fn subcommand_name(k: KadySubcommand) -> Seq<char> {
    match k {
        KadySubcommand::Invite => "invite"@,
        KadySubcommand::Support => "support"@,
        KadySubcommand::Informations => "informations"@,
        KadySubcommand::Suggest => "suggest"@,
        KadySubcommand::Issue => "issue"@,
        KadySubcommand::Review => "review"@,
    }
}

/// Each of the six subcommands is recognised under its own name, and a
/// name is recognised only as the subcommand it names.
pub proof fn law_subcommand_names(k: KadySubcommand, name: Seq<char>)
    ensures
        subcommand_named(subcommand_name(k)) == Some(k),
        subcommand_named(name) matches Some(c) ==> name == subcommand_name(c),
{
    reveal_strlit("invite");
    reveal_strlit("support");
    reveal_strlit("informations");
    reveal_strlit("suggest");
    reveal_strlit("issue");
    reveal_strlit("review");
    assert("invite"@.len() == 6 && "review"@.len() == 6);
    assert("invite"@[0] != "review"@[0]);
    assert("support"@.len() == 7 && "suggest"@.len() == 7);
    assert("support"@[2] != "suggest"@[2]);
    assert("informations"@.len() == 12);
    assert("issue"@.len() == 5);
}

/// The subcommand invoked is that of the first option that names one: when
/// the first option is named after a subcommand, that subcommand is
/// invoked, whatever follows.
pub proof fn law_first_option_names_the_subcommand(os: Seq<DataOptionView>, k: KadySubcommand)
    requires
        os.len() > 0,
        os[0].name == subcommand_name(k),
    ensures
        subcommand_from(os, 0) == Some(k),
{
    law_subcommand_names(k, os[0].name);
}

fn subcommand_of_name(name: &str) -> (r: Option<KadySubcommand>)
    ensures
        r == subcommand_named(name@),
{
    if str_eq(name, "invite") {
        Some(KadySubcommand::Invite)
    } else if str_eq(name, "support") {
        Some(KadySubcommand::Support)
    } else if str_eq(name, "informations") {
        Some(KadySubcommand::Informations)
    } else if str_eq(name, "suggest") {
        Some(KadySubcommand::Suggest)
    } else if str_eq(name, "issue") {
        Some(KadySubcommand::Issue)
    } else if str_eq(name, "review") {
        Some(KadySubcommand::Review)
    } else {
        None
    }
}

/// The subcommand of the first option, from `i` on, that names one.
pub open spec fn subcommand_from(os: Seq<DataOptionView>, i: int) -> Option<KadySubcommand>
    decreases os.len() - i,
{
    if i < 0 || i >= os.len() {
        None
    } else {
        match subcommand_named(os[i].name) {
            Some(c) => Some(c),
            None => subcommand_from(os, i + 1),
        }
    }
}

/// The subcommand invoked: that of the first option that names one; none
/// when there is no such option, and `kady` then answers that a subcommand
/// is missing.
pub fn kady_subcommand(options: &Option<Vec<InteractionDataOption>>) -> (r: Option<KadySubcommand>)
    ensures
        r == match options {
            Some(v) => subcommand_from(data_options_view(v@), 0),
            None => None,
        },
{
    match options {
        None => None,
        Some(os) => {
            let ghost dv = data_options_view(os@);
            let mut i: usize = 0;
            while i < os.len()
                invariant
                    i <= os.len(),
                    dv == data_options_view(os@),
                    match options { Some(v) => v@ == os@, None => false },
                    subcommand_from(dv, 0) == subcommand_from(dv, i as int),
                decreases os.len() - i,
            {
                proof {
                    assert(dv[i as int] == os@[i as int]@);
                    assert(dv[i as int].name == os@[i as int].name@);
                }
                match subcommand_of_name(os[i].name.as_str()) {
                    Some(c) => {
                        return Some(c);
                    },
                    None => {},
                }
                i += 1;
            }
            None
        },
    }
}

/// The message of a link: a text, and under it a link button with a label
/// and the link emoji.
pub open spec fn link_message_of(content: Seq<char>, url: Seq<char>, label: Seq<char>) -> MessageBuilderView {
    MessageBuilderView {
        content: Some(content),
        components: seq![ComponentView::ActionRow(ActionRowView {
            kind: ComponentType::ActionRow,
            components: seq![ComponentView::Button(ButtonView {
                kind: ComponentType::Button,
                style: ButtonStyle::Link,
                label: Some(label),
                emoji: Some(EmojiView {
                    id: None,
                    name: "🔗"@,
                    roles: Seq::empty(),
                    user: None,
                    require_colons: None,
                    managed: None,
                    animated: None,
                    available: None,
                }),
                custom_id: Seq::empty(),
                url: Some(url),
                disabled: None,
            })],
        })],
        ..empty_builder()
    }
}

/// Builds the message that points to the support server or to the
/// invitation, from the translations of its texts.
pub fn link_message(content: &str, url: &str, label: &str) -> (r: MessageBuilder)
    ensures
        r@ == link_message_of(content@, url@, label@),
{
    let button = Button::new("")
        .set_url(url)
        .set_style(ButtonStyle::Link)
        .set_label(label)
        .set_emoji(Emoji::new(None, "🔗"));
    let row = ActionRow::new().add_component(Component::Button(button));
    let r = MessageBuilder::new().set_content(content).add_component(Component::ActionRow(row));
    proof {
        assert(""@ =~= Seq::<char>::empty()) by {
            reveal_strlit("");
        }
        assert(r@.components =~= link_message_of(content@, url@, label@).components);
    }
    r
}

/// What the information card says of the bot, in the order of its
/// placeholders.
pub open spec fn informations_text_of(
    cargo: Seq<char>,
    rustup: Seq<char>,
    rustc: Seq<char>,
    online_since: i64,
    support: Seq<char>,
    website: Seq<char>,
    top_gg: Seq<char>,
    servers: u64,
    channels: u64,
) -> LocalizedView {
    LocalizedView {
        key: "slashs::kady::informations::desc"@,
        args: seq![
            ("cargo"@, cargo),
            ("rustup"@, rustup),
            ("rustc"@, rustc),
            ("online_since"@, signed_decimal(online_since as int)),
            ("support"@, support),
            ("website"@, website),
            ("top_gg"@, top_gg),
            ("servers"@, decimal(servers as nat)),
            ("channels"@, decimal(channels as nat)),
        ],
    }
}

fn kv(k: &str, v: &str) -> (r: (String, String))
    ensures
        r.0@ == k@,
        r.1@ == v@,
{
    (String::from_str(k), String::from_str(v))
}

/// What the information card says: the versions of the tools the bot was
/// built with, when it came online (seconds since the UNIX epoch, 0 when
/// unknown), its addresses and the numbers of servers and channels it sees.
pub fn informations_text(
    cargo: &str,
    rustup: &str,
    rustc: &str,
    online_since: i64,
    support: &str,
    website: &str,
    top_gg: &str,
    servers: u64,
    channels: u64,
) -> (r: Localized)
    ensures
        r@ == informations_text_of(cargo@, rustup@, rustc@, online_since, support@, website@, top_gg@, servers, channels),
{
    let mut since: Vec<char> = Vec::new();
    push_signed_decimal(online_since, &mut since);
    assert(since@ =~= signed_decimal(online_since as int));
    let since = chars_to_string(since.as_slice());
    let s = u64_to_string(servers);
    let c = u64_to_string(channels);
    let mut args: Vec<(String, String)> = Vec::new();
    args.push(kv("cargo", cargo));
    args.push(kv("rustup", rustup));
    args.push(kv("rustc", rustc));
    args.push(kv("online_since", since.as_str()));
    args.push(kv("support", support));
    args.push(kv("website", website));
    args.push(kv("top_gg", top_gg));
    args.push(kv("servers", s.as_str()));
    args.push(kv("channels", c.as_str()));
    let r = Localized { key: String::from_str("slashs::kady::informations::desc"), args };
    assert(r@.args =~= informations_text_of(cargo@, rustup@, rustc@, online_since, support@, website@, top_gg@, servers, channels).args);
    r
}

/// The name the card of information gives the bot: its display name or
/// username, else `Skynet`.
pub open spec fn bot_name_of(client: Option<ClientUserView>) -> Seq<char> {
    match client {
        Some(c) => match c.global_name {
            Some(g) => g,
            None => c.username,
        },
        None => "Skynet"@,
    }
}

/// The values of an optional client user.
pub open spec fn opt_client_view(c: Option<ClientUser>) -> Option<ClientUserView> {
    match c {
        Some(x) => Some(x@),
        None => None,
    }
}

/// The card of information, from the translations of its description, of
/// its footer and of the color of the palette.
pub open spec fn informations_embed_of(
    client: Option<ClientUserView>,
    description: Seq<char>,
    footer: Seq<char>,
    palette: Seq<char>,
) -> EmbedView {
    EmbedView {
        author: Some(AuthorView {
            name: bot_name_of(client) + " Informations"@,
            url: None,
            icon_url: match client {
                Some(c) => image_url("avatars"@, c.id, c.avatar, false, "png"@, 512),
                None => Some(DEFAULT_AVATAR@),
            },
            proxy_icon_url: None,
        }),
        footer: Some(FooterView { text: footer, icon_url: None, proxy_icon_url: None }),
        color: Some(Color(hex_color_value(palette))),
        description: Some(description),
        ..empty_embed()
    }
}

/// Builds the card of information.
pub fn informations_embed(client: &Option<ClientUser>, description: &str, footer: &str, palette: &str) -> (r: Embed)
    ensures
        r@ == informations_embed_of(opt_client_view(*client), description@, footer@, palette@),
{
    let mut name = match client {
        Some(c) => match &c.global_name {
            Some(g) => g.clone(),
            None => c.username.clone(),
        },
        None => String::from_str("Skynet"),
    };
    name.append(" Informations");
    let icon: Option<String> = match client {
        Some(c) => c.avatar_url(512, false, "png"),
        None => Some(String::from_str(DEFAULT_AVATAR)),
    };
    let icon_ref: Option<&str> = match &icon {
        Some(s) => Some(s.as_str()),
        None => None,
    };
    Embed::new()
        .set_author(Author::new().set_name(name.as_str()).set_icon_url(icon_ref))
        .set_footer(Footer::new().set_text(footer))
        .set_color(Color::from_hex(palette))
        .set_description(description)
}

} // verus!
