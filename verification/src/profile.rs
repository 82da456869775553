//! The commands that show a user: `avatar`, `banner` and `user_info`. What
//! they fetch and send is done around them; here is what they decide: which
//! user an invocation is about, which texts answer it and what the embed
//! they send holds.

use vstd::prelude::*;
use crate::models::common::opt_view;
use crate::models::components::Color;
use crate::models::components::embed::{Author, AuthorView, Embed, EmbedImage, Footer, Thumbnail};
use crate::models::guild::GuildMember;
use crate::models::ids::{Snowflake, SnowflakeInfo, UserId};
use crate::models::interaction::{
    data_options_view, find_option, first_option, ApplicationCommandOptionType,
    InteractionDataOption, InteractionDataOptionValue, OptionValueView,
};
use crate::models::user::{image_url, User, UserView};
use crate::text::{
    all_hex_digits, chars_to_string, hex_digits_value, hex_value, is_hex_digit, push_signed_decimal, remove_char, signed_decimal,
    unsigned_body,
};
use crate::models::components::hex_color_value;
use crate::text_map::pairs_view;

verus! {

/// The image shown for a user who has none.
pub const DEFAULT_AVATAR: &'static str = "https://cdn.discordapp.com/embed/avatars/0.png";

/// A text to show, named by its key in the translations, with the values
/// that fill its placeholders, in order.
#[derive(Debug)]
pub struct Localized {
    pub key: String,
    pub args: Vec<(String, String)>,
}

/// A text to show, its strings taken as characters.
pub ghost struct LocalizedView {
    pub key: Seq<char>,
    pub args: Seq<(Seq<char>, Seq<char>)>,
}

impl View for Localized {
    type V = LocalizedView;

    open spec fn view(&self) -> LocalizedView {
        LocalizedView { key: self.key@, args: pairs_view(self.args@) }
    }
}

/// A text without placeholders.
pub open spec fn plain(key: Seq<char>) -> LocalizedView {
    LocalizedView { key, args: Seq::empty() }
}

fn localized(key: &str, args: Vec<(String, String)>) -> (r: Localized)
    ensures
        r@ == (LocalizedView { key: key@, args: pairs_view(args@) }),
{
    Localized { key: String::from_str(key), args }
}

fn pair(k: &str, v: &str) -> (r: (String, String))
    ensures
        r.0@ == k@,
        r.1@ == v@,
{
    (String::from_str(k), String::from_str(v))
}

// Which user

/// The commands that show a user.
#[derive(Debug, Clone, Copy, PartialEq, Eq, Structural)]
pub enum ProfileCommand {
    Avatar,
    Banner,
    UserInfo,
}

/// Which user an invocation is about, as its `user` option says.
#[derive(Debug)]
pub enum UserTarget {
    /// There is no `user` option: the one who ran the command.
    Author,
    /// The identifier the option holds.
    Given(UserId),
    /// The option holds a value that is not a text.
    NotText,
    /// The option holds no value.
    NoValue,
}

/// Which user an invocation is about, the identifier taken as characters.
pub ghost enum UserTargetView {
    Author,
    Given(Seq<char>),
    NotText,
    NoValue,
}

impl View for UserTarget {
    type V = UserTargetView;

    open spec fn view(&self) -> UserTargetView {
        match self {
            UserTarget::Author => UserTargetView::Author,
            UserTarget::Given(id) => UserTargetView::Given(id@),
            UserTarget::NotText => UserTargetView::NotText,
            UserTarget::NoValue => UserTargetView::NoValue,
        }
    }
}

/// The user the first option named `user` of type user points to; the
/// author when there is none.
pub open spec fn user_target_of(options: Option<Seq<InteractionDataOption>>) -> UserTargetView {
    match options {
        None => UserTargetView::Author,
        Some(os) => match first_option(data_options_view(os), "user"@, ApplicationCommandOptionType::User) {
            None => UserTargetView::Author,
            Some(k) => match data_options_view(os)[k].value {
                Some(OptionValueView::String(id)) => UserTargetView::Given(id),
                Some(_) => UserTargetView::NotText,
                None => UserTargetView::NoValue,
            },
        },
    }
}

/// Reads which user an invocation is about from its options.
pub fn user_target(options: &Option<Vec<InteractionDataOption>>) -> (r: UserTarget)
    ensures
        r@ == user_target_of(match options { Some(v) => Some(v@), None => None }),
{
    match options {
        None => UserTarget::Author,
        Some(os) => match find_option(os, "user", ApplicationCommandOptionType::User) {
            None => UserTarget::Author,
            Some(k) => {
                proof {
                    assert(data_options_view(os@)[k as int] == os@[k as int]@);
                }
                match &os[k].value {
                    Some(InteractionDataOptionValue::String(id)) => UserTarget::Given(UserId(Snowflake(id.clone()))),
                    Some(_) => UserTarget::NotText,
                    None => UserTarget::NoValue,
                }
            },
        },
    }
}

/// The code of the internal error a command answers when its invocation
/// carries no data.
pub open spec fn missing_data_code(c: ProfileCommand) -> u64 {
    match c {
        ProfileCommand::Avatar => 16001,
        ProfileCommand::Banner => 16001,
        ProfileCommand::UserInfo => 17001,
    }
}

/// The code of the internal error a command answers when its invocation
/// carries no data.
pub fn missing_data_error(c: ProfileCommand) -> (r: u64)
    ensures
        r == missing_data_code(c),
{
    match c {
        ProfileCommand::Avatar => 16001,
        ProfileCommand::Banner => 16001,
        ProfileCommand::UserInfo => 17001,
    }
}

/// The code of the internal error a command answers for a `user` option it
/// cannot read; none when the target can be looked up.
pub open spec fn target_error_code(c: ProfileCommand, t: UserTargetView) -> Option<u64> {
    match t {
        UserTargetView::NotText => Some(match c {
            ProfileCommand::Avatar => 16002u64,
            ProfileCommand::Banner => 17002u64,
            ProfileCommand::UserInfo => 17003u64,
        }),
        UserTargetView::NoValue => Some(match c {
            ProfileCommand::Avatar => 16003u64,
            ProfileCommand::Banner => 17003u64,
            ProfileCommand::UserInfo => 17003u64,
        }),
        _ => None,
    }
}

/// The code of the internal error a command answers for a `user` option it
/// cannot read.
pub fn target_error(c: ProfileCommand, t: &UserTarget) -> (r: Option<u64>)
    ensures
        r == target_error_code(c, t@),
{
    match t {
        UserTarget::NotText => Some(match c {
            ProfileCommand::Avatar => 16002u64,
            ProfileCommand::Banner => 17002u64,
            ProfileCommand::UserInfo => 17003u64,
        }),
        UserTarget::NoValue => Some(match c {
            ProfileCommand::Avatar => 16003u64,
            ProfileCommand::Banner => 17003u64,
            ProfileCommand::UserInfo => 17003u64,
        }),
        _ => None,
    }
}

// Names, images and colors

/// The name a user is shown by: the display name, else the username.
pub open spec fn display_name_of(u: UserView) -> Seq<char> {
    match u.global_name {
        Some(g) => g,
        None => u.username,
    }
}

/// The name a user is shown by: the display name, else the username.
pub fn display_name(u: &User) -> (r: String)
    ensures
        r@ == display_name_of(u@),
{
    match &u.global_name {
        Some(g) => g.clone(),
        None => u.username.clone(),
    }
}

/// An address, or the default avatar when there is none.
pub open spec fn or_default_avatar(o: Option<Seq<char>>) -> Seq<char> {
    match o {
        Some(u) => u,
        None => DEFAULT_AVATAR@,
    }
}

fn unwrap_or_default_avatar(o: Option<String>) -> (r: String)
    ensures
        r@ == or_default_avatar(opt_view(o)),
{
    match o {
        Some(u) => u,
        None => String::from_str(DEFAULT_AVATAR),
    }
}

/// The address of the avatar of a user, in the given size, animated when it
/// is; the default avatar when the user has none.
pub open spec fn avatar_link_of(u: UserView, size: nat, dynamic: bool, extension: Seq<char>) -> Seq<char> {
    or_default_avatar(image_url("avatars"@, u.id, u.avatar, dynamic, extension, size))
}

/// The address of the avatar of a user, or the default avatar.
pub fn avatar_link(u: &User, size: usize, dynamic: bool, extension: &str) -> (r: String)
    ensures
        r@ == avatar_link_of(u@, size as nat, dynamic, extension@),
{
    unwrap_or_default_avatar(u.avatar_url(size, dynamic, extension))
}

/// The number of a color from its red, green and blue parts.
pub open spec fn rgb_value(r: u8, g: u8, b: u8) -> u64 {
    (r * 65536 + g * 256 + b) as u64
}

/// Packs red, green and blue into the number `0xRRGGBB`.
pub fn pack_rgb(r: u8, g: u8, b: u8) -> (c: u64)
    ensures
        c == rgb_value(r, g, b),
        c < 0x1000000,
{
    let x: u64 = (r as u64) << 16u64 | (g as u64) << 8u64 | b as u64;
    assert(((r as u64) << 16u64 | (g as u64) << 8u64 | b as u64) == (r as u64) * 65536 + (g as u64) * 256
        + (b as u64)) by (bit_vector);
    x
}

/// The character of a hexadecimal digit, in capitals.
pub open spec fn hex_digit_upper(d: nat) -> char {
    if d < 10 {
        (48 + d) as char
    } else {
        (55 + d) as char
    }
}

/// The shortest hexadecimal writing of `n`, in capitals.
pub open spec fn hex_upper(n: nat) -> Seq<char>
    decreases n,
{
    if n < 16 {
        seq![hex_digit_upper(n)]
    } else {
        hex_upper(n / 16).push(hex_digit_upper(n % 16))
    }
}

/// A text with zeros put before it until it is `width` long.
pub open spec fn zero_padded(s: Seq<char>, width: nat) -> Seq<char> {
    if s.len() >= width {
        s
    } else {
        Seq::new((width - s.len()) as nat, |i: int| '0') + s
    }
}

/// The writing of a color as `{:0>6X}` formats it.
pub open spec fn color_hex_of(c: u64) -> Seq<char> {
    zero_padded(hex_upper(c as nat), 6)
}

fn hex_char_upper(d: u64) -> (c: char)
    requires
        d < 16,
    ensures
        c == hex_digit_upper(d as nat),
{
    if d < 10 {
        let b: u8 = 48u8 + d as u8;
        b as char
    } else {
        let b: u8 = 55u8 + d as u8;
        b as char
    }
}

fn push_hex_upper(n: u64, out: &mut Vec<char>)
    ensures
        final(out)@ == old(out)@ + hex_upper(n as nat),
    decreases n,
{
    if n >= 16 {
        push_hex_upper(n / 16, out);
    }
    let c = hex_char_upper(n % 16);
    out.push(c);
    proof {
        if n >= 16 {
            assert(hex_upper(n as nat) == hex_upper((n / 16) as nat).push(hex_digit_upper((n % 16) as nat)));
        }
    }
}

/// Writes a color in capital hexadecimal, at least six digits long.
pub fn color_hex(c: u64) -> (s: String)
    ensures
        s@ == color_hex_of(c),
{
    let mut digits: Vec<char> = Vec::new();
    push_hex_upper(c, &mut digits);
    assert(digits@ =~= hex_upper(c as nat));
    let mut out: Vec<char> = Vec::new();
    let n = digits.len();
    if n < 6 {
        let pad = 6 - n;
        let mut i: usize = 0;
        while i < pad
            invariant
                i <= pad,
                out@ == Seq::new(i as nat, |j: int| '0'),
            decreases pad - i,
        {
            out.push('0');
            i += 1;
            proof {
                assert(out@ =~= Seq::new(i as nat, |j: int| '0'));
            }
        }
    }
    let mut i: usize = 0;
    let ghost front = out@;
    while i < n
        invariant
            i <= n,
            n == digits@.len(),
            out@ == front + digits@.take(i as int),
        decreases n - i,
    {
        out.push(digits[i]);
        i += 1;
        proof {
            assert(out@ =~= front + digits@.take(i as int));
        }
    }
    proof {
        assert(digits@.take(n as int) =~= digits@);
        if n < 6 {
            assert(front =~= Seq::new((6 - hex_upper(c as nat).len()) as nat, |j: int| '0'));
        } else {
            assert(front =~= Seq::<char>::empty());
            assert(out@ =~= digits@);
        }
    }
    chars_to_string(out.as_slice())
}

proof fn lemma_hex_upper(n: nat)
    ensures
        hex_upper(n).len() > 0,
        all_hex_digits(hex_upper(n)),
        hex_digits_value(hex_upper(n)) == n,
        forall|i: int| 0 <= i < hex_upper(n).len() ==> #[trigger] hex_upper(n)[i] != '#' && hex_upper(n)[i] != '+',
    decreases n,
{
    let d = n % 16;
    assert(hex_value(hex_digit_upper(d)) == d);
    assert(is_hex_digit(hex_digit_upper(d)));
    if n >= 16 {
        lemma_hex_upper(n / 16);
        let s = hex_upper(n);
        assert(s.drop_last() =~= hex_upper(n / 16));
        assert(s.last() == hex_digit_upper(d));
        assert(hex_digits_value(s) == hex_digits_value(hex_upper(n / 16)) * 16 + d);
        assert((n / 16) * 16 + d == n);
    } else {
        let s = hex_upper(n);
        assert(s.drop_last() =~= Seq::<char>::empty());
        assert(hex_digits_value(s) == hex_digits_value(s.drop_last()) * 16 + hex_value(s.last()));
    }
}

proof fn lemma_zeros_value(z: Seq<char>, s: Seq<char>)
    requires
        forall|i: int| 0 <= i < z.len() ==> #[trigger] z[i] == '0',
    ensures
        hex_digits_value(z + s) == hex_digits_value(s),
    decreases z.len() + s.len(),
{
    if s.len() == 0 {
        assert(z + s =~= z);
        if z.len() > 0 {
            lemma_zeros_value(z.drop_last(), s);
            assert(z.drop_last() + s =~= z.drop_last());
        }
    } else {
        assert((z + s).drop_last() =~= z + s.drop_last());
        lemma_zeros_value(z, s.drop_last());
    }
}

proof fn lemma_remove_absent(s: Seq<char>, c: char)
    requires
        forall|i: int| 0 <= i < s.len() ==> #[trigger] s[i] != c,
    ensures
        remove_char(s, c) == s,
    decreases s.len(),
{
    if s.len() > 0 {
        lemma_remove_absent(s.drop_last(), c);
        assert(s.drop_last().push(s.last()) =~= s);
    }
}

/// The hexadecimal a card's footer shows gives back its color: read by
/// `Color::from_hex`, it is the color itself.
pub proof fn law_color_hex_reads_back(c: u64)
    ensures
        hex_color_value(color_hex_of(c)) == c,
{
    let h = hex_upper(c as nat);
    lemma_hex_upper(c as nat);
    let t = color_hex_of(c);
    if h.len() < 6 {
        let z = Seq::new((6 - h.len()) as nat, |i: int| '0');
        assert(t == z + h);
        lemma_zeros_value(z, h);
        assert forall|i: int| 0 <= i < t.len() implies #[trigger] t[i] != '#' && t[i] != '+' && is_hex_digit(t[i]) by {
            if i >= z.len() {
                assert(t[i] == h[i - z.len()]);
            }
        }
    } else {
        assert(t == h);
    }
    lemma_remove_absent(t, '#');
    assert(unsigned_body(t) == t);
}

/// The two capital hexadecimal digits of a byte.
pub open spec fn hex_pair(b: u8) -> Seq<char> {
    seq![hex_digit_upper((b / 16) as nat), hex_digit_upper((b % 16) as nat)]
}

/// The text `#RRGGBB` of a color's parts.
pub open spec fn rgb_hex_text(r: u8, g: u8, b: u8) -> Seq<char> {
    seq!['#'] + hex_pair(r) + hex_pair(g) + hex_pair(b)
}

proof fn lemma_hex_digit(d: nat)
    requires
        d < 16,
    ensures
        is_hex_digit(hex_digit_upper(d)),
        hex_value(hex_digit_upper(d)) == d,
        hex_digit_upper(d) != '#',
        hex_digit_upper(d) != '+',
{
}

proof fn lemma_remove_leading(c: char, d: Seq<char>)
    requires
        forall|i: int| 0 <= i < d.len() ==> #[trigger] d[i] != c,
    ensures
        remove_char(seq![c] + d, c) == d,
    decreases d.len(),
{
    let s = seq![c] + d;
    if d.len() == 0 {
        assert(s =~= seq![c]);
        assert(s.drop_last() =~= Seq::<char>::empty());
        assert(remove_char(s.drop_last(), c) == s.drop_last());
        assert(s.last() == c);
        assert(remove_char(s, c) =~= d);
    } else {
        lemma_remove_leading(c, d.drop_last());
        assert(s.drop_last() =~= seq![c] + d.drop_last());
        assert(s.last() == d[d.len() - 1]);
        assert(s.last() != c);
        assert(d.drop_last().push(d.last()) =~= d);
    }
}

/// A color made of red, green and blue parts is the color its `#RRGGBB`
/// text reads as: `Color::from_rgb` agrees with `Color::from_hex`.
pub proof fn law_from_rgb_is_from_hex(r: u8, g: u8, b: u8)
    ensures
        hex_color_value(rgb_hex_text(r, g, b)) == r * 65536 + g * 256 + b,
{
    let d = hex_pair(r) + hex_pair(g) + hex_pair(b);
    let ds = seq![(r / 16) as nat, (r % 16) as nat, (g / 16) as nat, (g % 16) as nat, (b / 16) as nat, (b % 16) as nat];
    assert forall|i: int| 0 <= i < 6 implies #[trigger] d[i] == hex_digit_upper(ds[i]) by {}
    assert forall|i: int| 0 <= i < 6 implies is_hex_digit(#[trigger] d[i]) && d[i] != '#' && d[i] != '+' && hex_value(d[i]) == ds[i] by {
        lemma_hex_digit(ds[i]);
    }
    assert(rgb_hex_text(r, g, b) == seq!['#'] + d) by {
        assert(rgb_hex_text(r, g, b) =~= seq!['#'] + d);
    }
    lemma_remove_leading('#', d);
    assert(unsigned_body(d) == d);
    let d5 = d.drop_last();
    let d4 = d5.drop_last();
    let d3 = d4.drop_last();
    let d2 = d3.drop_last();
    let d1 = d2.drop_last();
    let d0 = d1.drop_last();
    assert(d0.len() == 0);
    assert(hex_digits_value(d0) == 0);
    assert(d1.last() == d[0]);
    assert(d2.last() == d[1]);
    assert(d3.last() == d[2]);
    assert(d4.last() == d[3]);
    assert(d5.last() == d[4]);
    assert(hex_digits_value(d1) == hex_value(d[0]));
    assert(hex_digits_value(d2) == hex_digits_value(d1) * 16 + hex_value(d[1]));
    assert(hex_digits_value(d3) == hex_digits_value(d2) * 16 + hex_value(d[2]));
    assert(hex_digits_value(d4) == hex_digits_value(d3) * 16 + hex_value(d[3]));
    assert(hex_digits_value(d5) == hex_digits_value(d4) * 16 + hex_value(d[4]));
    assert(hex_digits_value(d) == hex_digits_value(d5) * 16 + hex_value(d[5]));
    assert(all_hex_digits(d));
}

// Avatar and banner

/// The two commands that show an image of a user.
#[derive(Debug, Clone, Copy, PartialEq, Eq, Structural)]
pub enum ImageKind {
    Avatar,
    Banner,
}

/// The address of the image, at the given size.
pub open spec fn image_of(kind: ImageKind, u: UserView, size: nat, dynamic: bool, extension: Seq<char>) -> Option<Seq<char>> {
    match kind {
        ImageKind::Avatar => image_url("avatars"@, u.id, u.avatar, dynamic, extension, size),
        ImageKind::Banner => image_url("banners"@, u.id, u.banner, dynamic, extension, size),
    }
}

/// The address of the small image whose main color the card takes: the
/// image at size 128, as a still JPEG.
pub fn color_source(kind: ImageKind, u: &User) -> (r: Option<String>)
    ensures
        opt_view(r) == image_of(kind, u@, 128, false, "jpeg"@),
{
    match kind {
        ImageKind::Avatar => u.avatar_url(128, false, "jpeg"),
        ImageKind::Banner => u.banner_url(128, false, "jpeg"),
    }
}

/// What an avatar or banner card holds, its texts still to be translated.
#[derive(Debug)]
pub struct ImageCard {
    pub description: Localized,
    pub link: String,
    pub color: u64,
    pub footer: Localized,
    /// Who ran the command, when the card shows someone else.
    pub author: Option<Author>,
}

/// What an avatar or banner card holds, its texts taken as characters.
pub ghost struct ImageCardView {
    pub description: LocalizedView,
    pub link: Seq<char>,
    pub color: u64,
    pub footer: LocalizedView,
    pub author: Option<AuthorView>,
}

impl View for ImageCard {
    type V = ImageCardView;

    open spec fn view(&self) -> ImageCardView {
        ImageCardView {
            description: self.description@,
            link: self.link@,
            color: self.color,
            footer: self.footer@,
            author: match self.author {
                Some(a) => Some(a@),
                None => None,
            },
        }
    }
}

/// What an avatar or banner command answers.
#[derive(Debug)]
pub enum ImageAnswer {
    /// A text alone.
    Text(Localized),
    /// The card of the image.
    Card(ImageCard),
}

/// What an avatar or banner command answers, its texts taken as characters.
pub ghost enum ImageAnswerView {
    Text(LocalizedView),
    Card(ImageCardView),
}

impl View for ImageAnswer {
    type V = ImageAnswerView;

    open spec fn view(&self) -> ImageAnswerView {
        match self {
            ImageAnswer::Text(t) => ImageAnswerView::Text(t@),
            ImageAnswer::Card(c) => ImageAnswerView::Card(c@),
        }
    }
}

/// The author line that names who ran a command: their name and avatar,
/// or nothing when they could not be looked up.
pub open spec fn requester_author_of(requester: Option<UserView>) -> AuthorView {
    match requester {
        Some(u) => AuthorView {
            name: display_name_of(u),
            url: None,
            icon_url: image_url("avatars"@, u.id, u.avatar, true, "png"@, 512),
            proxy_icon_url: None,
        },
        None => AuthorView { name: Seq::empty(), url: None, icon_url: None, proxy_icon_url: None },
    }
}

/// The values of an optional user.
pub open spec fn opt_user_view(o: Option<User>) -> Option<UserView> {
    match o {
        Some(u) => Some(u@),
        None => None,
    }
}

/// The author line that names who ran a command.
pub fn requester_author(requester: &Option<User>) -> (r: Author)
    ensures
        r@ == requester_author_of(opt_user_view(*requester)),
{
    match requester {
        Some(u) => {
            let icon = u.avatar_url(512, true, "png");
            let name = display_name(u);
            let icon_ref: Option<&str> = match &icon {
                Some(s) => Some(s.as_str()),
                None => None,
            };
            Author::new().set_icon_url(icon_ref).set_name(name.as_str())
        },
        None => Author::new(),
    }
}

/// The key of the description of a card.
pub open spec fn image_key(kind: ImageKind) -> Seq<char> {
    match kind {
        ImageKind::Avatar => "slashs::avatar::avatar_of"@,
        ImageKind::Banner => "slashs::banner::banner_of"@,
    }
}

/// The key of the footer of a card.
pub open spec fn footer_key(kind: ImageKind) -> Seq<char> {
    match kind {
        ImageKind::Avatar => "slashs::avatar::footer"@,
        ImageKind::Banner => "slashs::banner::footer"@,
    }
}

/// What a command answers once the user it shows was looked up: a text when
/// the lookup failed, or when a banner is asked of a user without one;
/// else the card of the image at size 4096, the default avatar standing in
/// when there is none, in the given color, with the author line of the one
/// who ran the command when `requester` is given.
pub open spec fn image_answer_of(
    kind: ImageKind,
    subject: Option<UserView>,
    requester: Option<Option<UserView>>,
    color: u64,
) -> ImageAnswerView {
    match subject {
        None => ImageAnswerView::Text(plain("errors::cannot_acquire_user"@)),
        Some(u) => if kind == ImageKind::Banner && u.banner is None {
            ImageAnswerView::Text(plain("slashs::banner::no_banner"@))
        } else {
            let link = or_default_avatar(image_of(kind, u, 4096, true, "png"@));
            ImageAnswerView::Card(ImageCardView {
                description: LocalizedView {
                    key: image_key(kind),
                    args: seq![("link"@, link), ("name"@, display_name_of(u))],
                },
                link,
                color,
                footer: LocalizedView { key: footer_key(kind), args: seq![("hex"@, color_hex_of(color))] },
                author: match requester {
                    Some(r) => Some(requester_author_of(r)),
                    None => None,
                },
            })
        },
    }
}

/// What an avatar or banner command answers once the user it shows, and,
/// when it shows someone else, the one who ran it, were looked up. The
/// color is that of the image, black when it could not be read.
pub fn image_answer(
    kind: ImageKind,
    subject: &Option<User>,
    requester: Option<&Option<User>>,
    color: u64,
) -> (r: ImageAnswer)
    ensures
        r@ == image_answer_of(
            kind,
            opt_user_view(*subject),
            match requester { Some(q) => Some(opt_user_view(*q)), None => None },
            color,
        ),
{
    let u = match subject {
        None => {
            let t = localized("errors::cannot_acquire_user", Vec::new());
            assert(t@.args =~= Seq::<(Seq<char>, Seq<char>)>::empty());
            return ImageAnswer::Text(t);
        },
        Some(u) => u,
    };
    if kind == ImageKind::Banner && u.banner.is_none() {
        let t = localized("slashs::banner::no_banner", Vec::new());
        assert(t@.args =~= Seq::<(Seq<char>, Seq<char>)>::empty());
        return ImageAnswer::Text(t);
    }
    let link = match kind {
        ImageKind::Avatar => unwrap_or_default_avatar(u.avatar_url(4096, true, "png")),
        ImageKind::Banner => unwrap_or_default_avatar(u.banner_url(4096, true, "png")),
    };
    let name = display_name(u);
    let mut args: Vec<(String, String)> = Vec::new();
    args.push(pair("link", link.as_str()));
    args.push(pair("name", name.as_str()));
    let key = match kind {
        ImageKind::Avatar => "slashs::avatar::avatar_of",
        ImageKind::Banner => "slashs::banner::banner_of",
    };
    let description = localized(key, args);
    let hex = color_hex(color);
    let mut fargs: Vec<(String, String)> = Vec::new();
    fargs.push(pair("hex", hex.as_str()));
    let fkey = match kind {
        ImageKind::Avatar => "slashs::avatar::footer",
        ImageKind::Banner => "slashs::banner::footer",
    };
    let footer = localized(fkey, fargs);
    let author = match requester {
        Some(q) => Some(requester_author(q)),
        None => None,
    };
    let card = ImageCard { description, link, color, footer, author };
    proof {
        assert(card@.description.args =~= seq![("link"@, card@.link), ("name"@, display_name_of(u@))]);
        assert(card@.footer.args =~= seq![("hex"@, color_hex_of(color))]);
    }
    ImageAnswer::Card(card)
}

/// The embed of a card, given the translations of its description and of
/// its footer.
pub open spec fn image_embed_of(card: ImageCardView, description: Seq<char>, footer: Seq<char>) -> crate::models::components::embed::EmbedView {
    crate::models::components::embed::EmbedView {
        description: Some(description),
        image: Some(crate::models::components::embed::EmbedImageView { url: Some(card.link), proxy_url: None, height: None, width: None }),
        color: Some(Color(card.color)),
        footer: Some(crate::models::components::embed::FooterView { text: footer, icon_url: None, proxy_icon_url: None }),
        author: card.author,
        ..crate::models::components::embed::empty_embed()
    }
}

/// Builds the embed of a card from the translations of its texts.
pub fn image_embed(card: &ImageCard, description: &str, footer: &str) -> (r: Embed)
    ensures
        r@ == image_embed_of(card@, description@, footer@),
{
    let e = Embed::new()
        .set_description(description)
        .set_image(EmbedImage::new(card.link.as_str()))
        .set_color(Color(card.color))
        .set_footer(Footer::new().set_text(footer));
    match &card.author {
        Some(a) => e.set_author(a.clone()),
        None => e,
    }
}

// User information

/// The text answered when the one who ran a command cannot be identified.
pub fn unknown_author_text() -> (r: Localized)
    ensures
        r@ == plain("errors::cannot_get_user_id"@),
{
    let t = localized("errors::cannot_get_user_id", Vec::new());
    assert(t@.args =~= Seq::<(Seq<char>, Seq<char>)>::empty());
    t
}

/// Seconds since the UNIX epoch of a time held in microseconds, as
/// `timestamp_millis() / 1000` gives them: milliseconds rounded down, then
/// seconds rounded toward zero.
pub open spec fn join_seconds_of(micros: i64) -> int {
    let ms = micros as int / 1000;
    if ms >= 0 {
        ms / 1000
    } else {
        -((-ms) / 1000)
    }
}

/// Seconds since the UNIX epoch of a time held in microseconds.
pub fn join_seconds(micros: i64) -> (r: i64)
    ensures
        r == join_seconds_of(micros),
{
    if micros >= 0 {
        let m: u64 = micros as u64;
        (m / 1000 / 1000) as i64
    } else {
        let a: u64 = if micros == i64::MIN {
            9223372036854775808u64
        } else {
            (-micros) as u64
        };
        let ms_abs: u64 = (a + 999) / 1000;
        assert(micros as int / 1000 == -(ms_abs as int)) by (nonlinear_arith)
            requires
                a as int == -(micros as int),
                ms_abs as int == (a as int + 999) / 1000,
                micros < 0,
        ;
        let s: u64 = ms_abs / 1000;
        -(s as i64)
    }
}

/// The writing of a signed number.
fn i64_text(x: i64) -> (s: String)
    ensures
        s@ == signed_decimal(x as int),
{
    let mut v: Vec<char> = Vec::new();
    push_signed_decimal(x, &mut v);
    assert(v@ =~= signed_decimal(x as int));
    chars_to_string(v.as_slice())
}

/// The creation time, in seconds, that a user's identifier carries; none
/// when the identifier is no number.
pub fn account_creation(user_id: &UserId) -> (r: Option<i64>)
    ensures
        (r is None) == (crate::text::parse_u64_spec(user_id@) is None),
        r matches Some(t) ==> {
            let n = crate::text::parse_u64_spec(user_id@)->0;
            crate::time::utc_secs_in_range((crate::models::ids::snowflake_millis(n) / 1000) as i64) ==> t == (
            crate::models::ids::snowflake_millis(n) / 1000) as i64
        },
{
    match SnowflakeInfo::from_snowflake(&user_id.0) {
        Ok(info) => Some(info.timestamp),
        Err(_) => None,
    }
}

/// What a user information card holds, its description still to be
/// translated.
#[derive(Debug)]
pub struct InfoCard {
    pub description: Localized,
    pub thumbnail: String,
    pub author_name: String,
    pub author_icon: Option<String>,
}

/// What a user information card holds, its texts taken as characters.
pub ghost struct InfoCardView {
    pub description: LocalizedView,
    pub thumbnail: Seq<char>,
    pub author_name: Seq<char>,
    pub author_icon: Option<Seq<char>>,
}

impl View for InfoCard {
    type V = InfoCardView;

    open spec fn view(&self) -> InfoCardView {
        InfoCardView {
            description: self.description@,
            thumbnail: self.thumbnail@,
            author_name: self.author_name@,
            author_icon: opt_view(self.author_icon),
        }
    }
}

/// What the user information command answers.
#[derive(Debug)]
pub enum InfoAnswer {
    Text(Localized),
    /// An internal error, with its code.
    InternalError(u64),
    Card(InfoCard),
}

/// What the user information command answers, its texts taken as
/// characters.
pub ghost enum InfoAnswerView {
    Text(LocalizedView),
    InternalError(u64),
    Card(InfoCardView),
}

impl View for InfoAnswer {
    type V = InfoAnswerView;

    open spec fn view(&self) -> InfoAnswerView {
        match self {
            InfoAnswer::Text(t) => InfoAnswerView::Text(t@),
            InfoAnswer::InternalError(c) => InfoAnswerView::InternalError(*c),
            InfoAnswer::Card(c) => InfoAnswerView::Card(c@),
        }
    }
}

/// When an optional member joined its guild.
pub open spec fn opt_member_joined(m: Option<GuildMember>) -> Option<i64> {
    match m {
        Some(x) => Some(x.joined_at),
        None => None,
    }
}

/// What the user information command answers once the user was looked up
/// (`given` tells whether the option named them), their creation time read
/// from their identifier, their membership in the guild looked up and the
/// one who ran the command looked up. The texts: the user's identifier,
/// name, creation time and, for a member of the guild, the time they
/// joined it, in seconds.
pub open spec fn info_answer_of(
    given: bool,
    user_id: Seq<char>,
    subject: Option<UserView>,
    created: Option<i64>,
    joined: Option<i64>,
    requester: Option<UserView>,
) -> InfoAnswerView {
    match subject {
        None => InfoAnswerView::Text(plain(
            if given { "errors:cannot_acquire_user"@ } else { "errors::cannot_acquire_user"@ },
        )),
        Some(u) => match created {
            None => InfoAnswerView::InternalError(17002),
            Some(t) => {
                let head = seq![
                    ("id"@, user_id),
                    ("username"@, display_name_of(u)),
                    ("account_creation"@, signed_decimal(t as int)),
                ];
                InfoAnswerView::Card(InfoCardView {
                    description: match joined {
                        Some(j) => LocalizedView {
                            key: "slashs::user_info::member"@,
                            args: head.push(("join_timestamp"@, signed_decimal(join_seconds_of(j)))),
                        },
                        None => LocalizedView { key: "slashs::user_info::not_member"@, args: head },
                    },
                    thumbnail: avatar_link_of(u, 4096, true, "png"@),
                    author_name: match requester {
                        Some(a) => display_name_of(a),
                        None => "Unknown author"@,
                    },
                    author_icon: match requester {
                        Some(a) => Some(avatar_link_of(a, 256, false, "png"@)),
                        None => None,
                    },
                })
            },
        },
    }
}

/// What the user information command answers, from what was looked up.
pub fn info_answer(
    given: bool,
    user_id: &UserId,
    subject: &Option<User>,
    created: Option<i64>,
    member: &Option<GuildMember>,
    requester: &Option<User>,
) -> (r: InfoAnswer)
    ensures
        r@ == info_answer_of(
            given,
            user_id@,
            opt_user_view(*subject),
            created,
            opt_member_joined(*member),
            opt_user_view(*requester),
        ),
{
    let u = match subject {
        None => {
            let key = if given { "errors:cannot_acquire_user" } else { "errors::cannot_acquire_user" };
            let t = localized(key, Vec::new());
            assert(t@.args =~= Seq::<(Seq<char>, Seq<char>)>::empty());
            return InfoAnswer::Text(t);
        },
        Some(u) => u,
    };
    let t = match created {
        None => {
            return InfoAnswer::InternalError(17002);
        },
        Some(t) => t,
    };
    let name = display_name(u);
    let created_text = i64_text(t);
    let mut args: Vec<(String, String)> = Vec::new();
    args.push(pair("id", user_id.0.0.as_str()));
    args.push(pair("username", name.as_str()));
    args.push(pair("account_creation", created_text.as_str()));
    let ghost head = pairs_view(args@);
    let key = match member {
        Some(m) => {
            let joined_text = i64_text(join_seconds(m.joined_at));
            args.push(pair("join_timestamp", joined_text.as_str()));
            "slashs::user_info::member"
        },
        None => "slashs::user_info::not_member",
    };
    let description = localized(key, args);
    let thumbnail = avatar_link(u, 4096, true, "png");
    let author_name = match requester {
        Some(a) => display_name(a),
        None => String::from_str("Unknown author"),
    };
    let author_icon = match requester {
        Some(a) => Some(avatar_link(a, 256, false, "png")),
        None => None,
    };
    let card = InfoCard { description, thumbnail, author_name, author_icon };
    proof {
        assert(head =~= seq![
            ("id"@, user_id@),
            ("username"@, display_name_of(u@)),
            ("account_creation"@, signed_decimal(t as int)),
        ]);
        if let Some(m) = member {
            assert(card@.description.args =~= head.push(("join_timestamp"@, signed_decimal(join_seconds_of(m.joined_at)))));
        } else {
            assert(card@.description.args =~= head);
        }
    }
    InfoAnswer::Card(card)
}

/// The embed of a user information card, given the translation of its
/// description.
pub open spec fn info_embed_of(card: InfoCardView, description: Seq<char>) -> crate::models::components::embed::EmbedView {
    crate::models::components::embed::EmbedView {
        color: Some(Color(2829617)),
        description: Some(description),
        thumbnail: Some(crate::models::components::embed::ThumbnailView { url: Some(card.thumbnail), proxy_url: None, height: None, width: None }),
        author: Some(AuthorView { name: card.author_name, url: None, icon_url: card.author_icon, proxy_icon_url: None }),
        ..crate::models::components::embed::empty_embed()
    }
}

/// Builds the embed of a user information card from the translation of its
/// description.
pub fn info_embed(card: &InfoCard, description: &str) -> (r: Embed)
    ensures
        r@ == info_embed_of(card@, description@),
{
    let icon: Option<&str> = match &card.author_icon {
        Some(s) => Some(s.as_str()),
        None => None,
    };
    Embed::new()
        .set_color(Color::embed_color())
        .set_description(description)
        .set_thumbnail(Thumbnail::new(card.thumbnail.as_str()))
        .set_author(Author::new().set_name(card.author_name.as_str()).set_icon_url(icon))
}

} // verus!
