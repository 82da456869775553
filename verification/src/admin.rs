//! The commands kept for the administrators of the bot: who they are, the
//! reports of their use, and the answers of the commands.

use vstd::prelude::*;
use sha2::Digest;
use crate::models::components::embed::{empty_embed, Author, AuthorView, Embed, EmbedView};
use crate::models::components::{hex_color_value, Color};
use crate::models::ids::UserId;
use crate::models::message::{empty_builder, MessageBuilder, MessageBuilderView};
use crate::time::now_millis;

verus! {

/// The SHA-256 digest of the UTF-8 bytes of a text.
pub uninterp spec fn sha256_of(text: Seq<char>) -> Seq<u8>;

/// Hashes the UTF-8 bytes of a text with `sha2::Sha256`
/// (`Digest::digest`); the digest has 32 bytes.
#[verifier::external_body]
fn sha256_text(text: &str) -> (r: Vec<u8>)
    ensures
        r@ == sha256_of(text@),
        r@.len() == 32,
{
    sha2::Sha256::digest(text.as_bytes()).to_vec()
}

/// The digests of the ids of the administrators.
pub open spec fn admin_digest(i: int) -> Seq<u8> {
    if i == 0 {
        seq![131, 31, 245, 87, 151, 67, 124, 90, 223, 238, 1, 245, 99, 115, 67, 58, 24, 91, 98, 113, 222, 162, 184, 40, 179, 255, 10, 154, 33, 96, 156, 189]
    } else if i == 1 {
        seq![185, 211, 140, 235, 41, 30, 201, 172, 20, 187, 247, 105, 165, 1, 246, 188, 105, 1, 55, 181, 103, 99, 157, 179, 224, 208, 166, 154, 162, 133, 111, 253]
    } else {
        seq![113, 1, 197, 164, 66, 212, 109, 247, 87, 186, 105, 168, 50, 61, 115, 26, 171, 83, 246, 15, 117, 252, 254, 15, 134, 252, 200, 219, 95, 58, 246, 26]
    }
}

fn admin_digest_bytes(i: usize) -> (r: Vec<u8>)
    requires
        i < 3,
    ensures
        r@ == admin_digest(i as int),
{
    if i == 0 {
        vec![131, 31, 245, 87, 151, 67, 124, 90, 223, 238, 1, 245, 99, 115, 67, 58, 24, 91, 98, 113, 222, 162, 184, 40, 179, 255, 10, 154, 33, 96, 156, 189]
    } else if i == 1 {
        vec![185, 211, 140, 235, 41, 30, 201, 172, 20, 187, 247, 105, 165, 1, 246, 188, 105, 1, 55, 181, 103, 99, 157, 179, 224, 208, 166, 154, 162, 133, 111, 253]
    } else {
        vec![113, 1, 197, 164, 66, 212, 109, 247, 87, 186, 105, 168, 50, 61, 115, 26, 171, 83, 246, 15, 117, 252, 254, 15, 134, 252, 200, 219, 95, 58, 246, 26]
    }
}

/// Whether the digest of an id is one of an administrator.
pub open spec fn is_admin_digest(digest: Seq<u8>) -> bool {
    exists|i: int| 0 <= i < 3 && #[trigger] admin_digest(i) == digest
}

fn bytes_equal(a: &[u8], b: &[u8]) -> (r: bool)
    ensures
        r == (a@ == b@),
{
    if a.len() != b.len() {
        return false;
    }
    let mut i: usize = 0;
    while i < a.len()
        invariant
            i <= a.len(),
            a@.len() == b@.len(),
            forall|j: int| 0 <= j < i ==> a@[j] == b@[j],
        decreases a.len() - i,
    {
        if a[i] != b[i] {
            return false;
        }
        i = i + 1;
    }
    assert(a@ =~= b@);
    true
}

/// Whether a user is an administrator: the digest of the text of the id
/// is one of those kept.
pub fn is_admin(id: &UserId) -> (r: bool)
    ensures
        r == is_admin_digest(sha256_of(id@)),
{
    let digest = sha256_text(id.0.0.as_str());
    let mut i: usize = 0;
    while i < 3
        invariant
            i <= 3,
            digest@ == sha256_of(id@),
            forall|j: int| 0 <= j < i ==> admin_digest(j) != digest@,
        decreases 3 - i,
    {
        let known = admin_digest_bytes(i);
        if bytes_equal(known.as_slice(), digest.as_slice()) {
            assert(admin_digest(i as int) == digest@);
            return true;
        }
        i = i + 1;
    }
    proof {
        assert forall|j: int| 0 <= j < 3 implies #[trigger] admin_digest(j) != digest@ by {}
    }
    false
}

/// How far an administrator command may go.
#[derive(Debug)]
pub enum AdminGate {
    /// The command was not used in a guild.
    NotInGuild,
    /// The user who used it is not known.
    NoUserId,
    /// The command needs the channel, which is not known.
    NoChannel,
    /// The user is no administrator.
    NotAdmin(UserId),
    /// The user is an administrator.
    Admin(UserId),
}

/// Decides whether an administrator command may run: it must come from a
/// guild and from a known user, from a known channel where the command
/// needs one (`channel_known` is `None` where it needs none), and the user
/// must be an administrator.
pub fn admin_gate(in_guild: bool, user_id: Option<UserId>, channel_known: Option<bool>) -> (r: AdminGate)
    ensures
        !in_guild ==> r is NotInGuild,
        in_guild && user_id is None ==> r is NoUserId,
        in_guild && user_id is Some && channel_known == Some(false) ==> r is NoChannel,
        in_guild && user_id is Some && channel_known != Some(false) ==> match r {
            AdminGate::Admin(u) => u@ == user_id->0@ && is_admin_digest(sha256_of(u@)),
            AdminGate::NotAdmin(u) => u@ == user_id->0@ && !is_admin_digest(sha256_of(u@)),
            _ => false,
        },
{
    if !in_guild {
        return AdminGate::NotInGuild;
    }
    let u = match user_id {
        Some(u) => u,
        None => return AdminGate::NoUserId,
    };
    if channel_known == Some(false) {
        return AdminGate::NoChannel;
    }
    if is_admin(&u) {
        AdminGate::Admin(u)
    } else {
        AdminGate::NotAdmin(u)
    }
}

/// The channel that reports of administrator commands are sent to.
pub open spec fn admin_report_channel_id() -> Seq<char> {
    "1135982161888026634"@
}

/// The channel that reports of administrator commands are sent to.
pub fn admin_report_channel() -> (r: crate::models::ids::ChannelId)
    ensures
        r@ == admin_report_channel_id(),
{
    crate::models::ids::ChannelId(crate::models::ids::Snowflake(String::from_str("1135982161888026634")))
}

/// The embed that reports the use of an administrator command.
pub open spec fn admin_report_embed(author: Seq<char>, kind: Seq<char>, report: Seq<char>, now: i64) -> EmbedView {
    EmbedView {
        author: Some(AuthorView { name: author, url: None, icon_url: None, proxy_icon_url: None }),
        description: Some("> **Type:** "@ + kind + "\n> **Report:** "@ + report),
        timestamp: Some(now),
        color: Some(Color(hex_color_value("#ff174f"@))),
        ..empty_embed()
    }
}

/// The message that reports the use of an administrator command, at the
/// time `now` (milliseconds since the UNIX epoch).
pub fn admin_report_message_at(author: &str, kind: &str, report: &str, now: i64) -> (r: MessageBuilder)
    ensures
        r@ == (MessageBuilderView { embeds: seq![admin_report_embed(author@, kind@, report@, now)], ..empty_builder() }),
{
    let mut description = String::from_str("> **Type:** ");
    description.append(kind);
    description.append("\n> **Report:** ");
    description.append(report);
    let e = Embed::new()
        .set_author(Author::new().set_name(author))
        .set_description(description.as_str())
        .set_timestamp(now)
        .set_color(Color::from_hex("#ff174f"));
    let r = MessageBuilder::new().add_embed(e);
    assert(r@.embeds =~= seq![admin_report_embed(author@, kind@, report@, now)]);
    r
}

/// The message that reports the use of an administrator command now.
pub fn admin_report_message(author: &str, kind: &str, report: &str) -> (r: MessageBuilder)
    ensures
        exists|now: i64| r@ == (MessageBuilderView { embeds: seq![#[trigger] admin_report_embed(author@, kind@, report@, now)], ..empty_builder() }),
{
    admin_report_message_at(author, kind, report, now_millis())
}

/// The lines `- item` of a list, joined by line breaks.
pub open spec fn bullet_lines(items: Seq<Seq<char>>) -> Seq<char>
    decreases items.len(),
{
    if items.len() == 0 {
        Seq::empty()
    } else if items.len() == 1 {
        "- "@ + items[0]
    } else {
        bullet_lines(items.drop_last()) + "\n- "@ + items.last()
    }
}

/// The texts of a list of strings.
pub open spec fn strings_view(s: Seq<String>) -> Seq<Seq<char>> {
    Seq::new(s.len(), |i: int| s[i]@)
}

fn bullet_lines_of(items: &Vec<String>) -> (r: String)
    ensures
        r@ == bullet_lines(strings_view(items@)),
{
    let ghost v = strings_view(items@);
    let mut r = String::new();
    let mut i: usize = 0;
    assert(v.take(0) =~= Seq::<Seq<char>>::empty());
    while i < items.len()
        invariant
            i <= items.len(),
            v == strings_view(items@),
            r@ == bullet_lines(v.take(i as int)),
        decreases items.len() - i,
    {
        if i == 0 {
            r.append("- ");
        } else {
            r.append("\n- ");
        }
        r.append(items[i].as_str());
        proof {
            let t = v.take(i + 1);
            assert(t.drop_last() =~= v.take(i as int));
            if i == 0 {
                assert(t.len() == 1);
                assert(r@ =~= "- "@ + t[0]);
            }
        }
        i = i + 1;
    }
    assert(v.take(i as int) =~= v);
    r
}

/// The answer to the update of the slash commands, given the names of what
/// was done and the number of errors, where each was reported.
pub open spec fn slashs_update_reply(success: Option<Seq<Seq<char>>>, errors: Option<nat>, now: i64) -> Option<MessageBuilderView> {
    match (success, errors) {
        (None, Some(n)) => Some(MessageBuilderView {
            embeds: seq![EmbedView {
                color: Some(Color(hex_color_value("#ff174f"@))),
                title: Some("Error"@),
                description: Some(crate::text::decimal(n) + " errors were received."@),
                timestamp: Some(now),
                ..empty_embed()
            }],
            ..empty_builder()
        }),
        (Some(s), None) => Some(MessageBuilderView {
            embeds: seq![EmbedView {
                color: Some(Color(hex_color_value("#17ff79"@))),
                timestamp: Some(now),
                title: Some("Success of the operation"@),
                description: Some("> **Everything went alright:**\n"@ + bullet_lines(s)),
                ..empty_embed()
            }],
            ..empty_builder()
        }),
        (Some(_), Some(_)) => None,
        (None, None) => Some(MessageBuilderView {
            content: Some("No informations was sent back from the app.\n\nSome real shit is happening right there, call Sedorriku NOW."@),
            ..empty_builder()
        }),
    }
}

/// The texts of an optional list of strings.
pub open spec fn opt_strings_view(o: Option<Vec<String>>) -> Option<Seq<Seq<char>>> {
    match o {
        Some(v) => Some(strings_view(v@)),
        None => None,
    }
}

/// Answers the update of the slash commands at the time `now`: an error
/// embed where only errors came back, a success embed where only names
/// came back, a plain text where nothing came back, and nothing where both
/// came back. Each error is then sent on its own by the caller.
pub fn slashs_update_reply_at(success: &Option<Vec<String>>, errors: Option<usize>, now: i64) -> (r: Option<MessageBuilder>)
    ensures
        match (r, slashs_update_reply(opt_strings_view(*success), match errors { Some(n) => Some(n as nat), None => None }, now)) {
            (Some(b), Some(v)) => b@ == v,
            (None, None) => true,
            _ => false,
        },
{
    match (success, errors) {
        (None, Some(n)) => {
            let mut d = crate::text::u64_to_string(n as u64);
            d.append(" errors were received.");
            let e = Embed::new()
                .set_color(Color::from_hex("#ff174f"))
                .set_title("Error")
                .set_description(d.as_str())
                .set_timestamp(now);
            let b = MessageBuilder::new().add_embed(e);
            assert(b@.embeds =~= slashs_update_reply(None, Some(n as nat), now).unwrap().embeds);
            Some(b)
        },
        (Some(s), None) => {
            let mut d = String::from_str("> **Everything went alright:**\n");
            let lines = bullet_lines_of(s);
            d.append(lines.as_str());
            let e = Embed::new()
                .set_color(Color::from_hex("#17ff79"))
                .set_timestamp(now)
                .set_title("Success of the operation")
                .set_description(d.as_str());
            let b = MessageBuilder::new().add_embed(e);
            assert(b@.embeds =~= slashs_update_reply(Some(strings_view(s@)), None, now).unwrap().embeds);
            Some(b)
        },
        (Some(_), Some(_)) => None,
        (None, None) => Some(MessageBuilder::new().set_content(
            "No informations was sent back from the app.\n\nSome real shit is happening right there, call Sedorriku NOW.",
        )),
    }
}

/// The link that invites the bot into a guild.
pub open spec fn invite_link(client_id: Seq<char>, permissions: Seq<char>, scope: Seq<char>) -> Seq<char> {
    "https://discord.com/oauth2/authorize?client_id="@ + client_id + "&permissions="@ + permissions + "&scope="@ + scope
}

/// Writes the link that invites the bot into a guild, with the permissions
/// and the scope that the configuration asks for.
pub fn generate_invite_link(client_id: &UserId, permissions: &str, scope: &str) -> (r: String)
    ensures
        r@ == invite_link(client_id@, permissions@, scope@),
{
    let mut r = String::from_str("https://discord.com/oauth2/authorize?client_id=");
    r.append(client_id.0.0.as_str());
    r.append("&permissions=");
    r.append(permissions);
    r.append("&scope=");
    r.append(scope);
    r
}

} // verus!
