//! Embeds: the rich blocks of a message, and their builders.

use vstd::prelude::*;
use crate::cache::UpdateCache;
use crate::models::common::{opt_str_eq, opt_view};
use crate::models::components::Color;
use crate::json::{bool_or_null, get_str, items_view, json_array, json_get, JsonNumber, NumberView, json_index, json_str, object_entries, opt_bool_json, opt_string_json, opt_u64_json, str_or_null, string_json, u64_or_null, JsonValue, JsonView};
use crate::models::parse::{de_opt_bool, de_opt_i64, de_opt_str, de_opt_u64, read_opt_bool, read_opt_i64, read_opt_str, read_opt_u64};
use crate::time::{millis_in_range, utc_millis_in_range};
use crate::models::{kind_of, ModelError, ModelErrorKind};
use crate::text::str_eq;

verus! {

/// The type of an embed.
#[derive(Debug, Clone, Copy, PartialEq, Eq, Structural)]
pub enum EmbedType {
    Rich,
    Image,
    Video,
    Gifv,
    Article,
    Link,
}

impl Default for EmbedType {
    fn default() -> (r: EmbedType)
        ensures
            r == EmbedType::Rich,
    {
        EmbedType::Rich
    }
}

/// The name of each embed type.
pub open spec fn embed_type_name(v: EmbedType) -> Seq<char> {
    match v {
        EmbedType::Rich => "rich"@,
        EmbedType::Image => "image"@,
        EmbedType::Video => "video"@,
        EmbedType::Gifv => "gifv"@,
        EmbedType::Article => "article"@,
        EmbedType::Link => "link"@,
    }
}

/// The embed type a name stands for, if any.
pub open spec fn embed_type_of_name(s: Seq<char>) -> Option<EmbedType> {
    if s == "rich"@ {
        Some(EmbedType::Rich)
    } else if s == "image"@ {
        Some(EmbedType::Image)
    } else if s == "video"@ {
        Some(EmbedType::Video)
    } else if s == "gifv"@ {
        Some(EmbedType::Gifv)
    } else if s == "article"@ {
        Some(EmbedType::Article)
    } else if s == "link"@ {
        Some(EmbedType::Link)
    } else {
        None
    }
}

/// Each embed type is read back from its name, and a name is read only as
/// the type it names.
pub proof fn law_embed_type_names(v: EmbedType, s: Seq<char>)
    ensures
        embed_type_of_name(embed_type_name(v)) == Some(v),
        embed_type_of_name(s) matches Some(w) ==> embed_type_name(w) == s,
{
    reveal_strlit("rich");
    reveal_strlit("image");
    reveal_strlit("video");
    reveal_strlit("gifv");
    reveal_strlit("article");
    reveal_strlit("link");
    assert("rich"@.len() == 4 && "gifv"@.len() == 4 && "link"@.len() == 4);
    assert("rich"@[0] != "gifv"@[0] && "rich"@[0] != "link"@[0] && "gifv"@[0] != "link"@[0]);
    assert("image"@.len() == 5 && "video"@.len() == 5);
    assert("image"@[0] != "video"@[0]);
    assert("article"@.len() == 7);
}


impl EmbedType {
    /// The name of this embed type.
    pub fn name(&self) -> (r: &'static str)
        ensures
            r@ == embed_type_name(*self),
    {
        match self {
            EmbedType::Rich => "rich",
            EmbedType::Image => "image",
            EmbedType::Video => "video",
            EmbedType::Gifv => "gifv",
            EmbedType::Article => "article",
            EmbedType::Link => "link",
        }
    }

    /// The embed type of a name; other texts stand for none.
    pub fn from_name(s: &str) -> (r: Option<EmbedType>)
        ensures
            r == embed_type_of_name(s@),
    {
        if str_eq(s, "rich") {
            Some(EmbedType::Rich)
        } else if str_eq(s, "image") {
            Some(EmbedType::Image)
        } else if str_eq(s, "video") {
            Some(EmbedType::Video)
        } else if str_eq(s, "gifv") {
            Some(EmbedType::Gifv)
        } else if str_eq(s, "article") {
            Some(EmbedType::Article)
        } else if str_eq(s, "link") {
            Some(EmbedType::Link)
        } else {
            None
        }
    }
}

/// The footer of an embed.
#[derive(Debug, PartialEq, Eq)]
pub struct Footer {
    pub text: String,
    pub icon_url: Option<String>,
    pub proxy_icon_url: Option<String>,
}

/// The values of a footer, its texts taken as characters.
pub ghost struct FooterView {
    pub text: Seq<char>,
    pub icon_url: Option<Seq<char>>,
    pub proxy_icon_url: Option<Seq<char>>,
}

impl View for Footer {
    type V = FooterView;

    open spec fn view(&self) -> FooterView {
        FooterView {
            text: self.text@,
            icon_url: opt_view(self.icon_url),
            proxy_icon_url: opt_view(self.proxy_icon_url),
        }
    }
}

impl Clone for Footer {
    fn clone(&self) -> (r: Footer)
        ensures
            r@ == self@,
    {
        Footer {
            text: self.text.clone(),
            icon_url: self.icon_url.clone(),
            proxy_icon_url: self.proxy_icon_url.clone(),
        }
    }
}

impl Footer {
    /// Whether two values hold the same fields.
    pub fn same(&self, other: &Footer) -> (r: bool)
        ensures
            r == (self@ == other@),
    {
        self.text == other.text
            && opt_str_eq(&self.icon_url, &other.icon_url)
            && opt_str_eq(&self.proxy_icon_url, &other.proxy_icon_url)
    }
}

pub open spec fn opt_footer_view(o: Option<Footer>) -> Option<FooterView> {
    match o {
        Some(x) => Some(x@),
        None => None,
    }
}

/// Whether two optional values hold the same fields.
pub fn opt_footer_eq(a: &Option<Footer>, b: &Option<Footer>) -> (r: bool)
    ensures
        r == (opt_footer_view(*a) == opt_footer_view(*b)),
{
    match (a, b) {
        (Some(x), Some(y)) => x.same(y),
        (None, None) => true,
        _ => false,
    }
}

/// A copy of an optional value.
pub fn clone_opt_footer(a: &Option<Footer>) -> (r: Option<Footer>)
    ensures
        opt_footer_view(r) == opt_footer_view(*a),
{
    match a {
        Some(x) => Some(x.clone()),
        None => None,
    }
}

impl Default for Footer {
    fn default() -> (r: Footer)
        ensures
            r@ == (FooterView { text: Seq::empty(), icon_url: None, proxy_icon_url: None }),
    {
        Footer { text: String::new(), icon_url: None, proxy_icon_url: None }
    }
}

impl Footer {
    /// A footer with no text and no icon.
    pub fn new() -> (r: Footer)
        ensures
            r@ == (FooterView { text: Seq::empty(), icon_url: None, proxy_icon_url: None }),
    {
        Footer::default()
    }
}

impl Footer {
    /// Sets the address of the footer icon.
    pub fn set_icon_url(self, icon_url: &str) -> (r: Footer)
        ensures
            r@ == (FooterView { icon_url: Some(icon_url@), ..self@ }),
    {
        let mut s = self;
        s.icon_url = Some(String::from_str(icon_url));
        s
    }

    /// Sets the text of the footer.
    pub fn set_text(self, text: &str) -> (r: Footer)
        ensures
            r@ == (FooterView { text: text@, ..self@ }),
    {
        let mut s = self;
        s.text = String::from_str(text);
        s
    }
}

/// An image of an embed.
#[derive(Debug, PartialEq, Eq)]
pub struct EmbedImage {
    pub url: Option<String>,
    pub proxy_url: Option<String>,
    pub height: Option<u64>,
    pub width: Option<u64>,
}

/// The values of a embed image, its texts taken as characters.
pub ghost struct EmbedImageView {
    pub url: Option<Seq<char>>,
    pub proxy_url: Option<Seq<char>>,
    pub height: Option<u64>,
    pub width: Option<u64>,
}

impl View for EmbedImage {
    type V = EmbedImageView;

    open spec fn view(&self) -> EmbedImageView {
        EmbedImageView {
            url: opt_view(self.url),
            proxy_url: opt_view(self.proxy_url),
            height: self.height,
            width: self.width,
        }
    }
}

impl Clone for EmbedImage {
    fn clone(&self) -> (r: EmbedImage)
        ensures
            r@ == self@,
    {
        EmbedImage {
            url: self.url.clone(),
            proxy_url: self.proxy_url.clone(),
            height: self.height,
            width: self.width,
        }
    }
}

impl UpdateCache for EmbedImage {
    fn update(&mut self, from: &Self)
        ensures
            final(self)@ == from@,
    {
        if !opt_str_eq(&self.url, &from.url) {
            self.url = from.url.clone();
        }
        if !opt_str_eq(&self.proxy_url, &from.proxy_url) {
            self.proxy_url = from.proxy_url.clone();
        }
        if self.height != from.height {
            self.height = from.height;
        }
        if self.width != from.width {
            self.width = from.width;
        }
    }
}

impl EmbedImage {
    /// Whether two values hold the same fields.
    pub fn same(&self, other: &EmbedImage) -> (r: bool)
        ensures
            r == (self@ == other@),
    {
        opt_str_eq(&self.url, &other.url)
            && opt_str_eq(&self.proxy_url, &other.proxy_url)
            && self.height == other.height
            && self.width == other.width
    }
}

pub open spec fn opt_embed_image_view(o: Option<EmbedImage>) -> Option<EmbedImageView> {
    match o {
        Some(x) => Some(x@),
        None => None,
    }
}

/// Whether two optional values hold the same fields.
pub fn opt_embed_image_eq(a: &Option<EmbedImage>, b: &Option<EmbedImage>) -> (r: bool)
    ensures
        r == (opt_embed_image_view(*a) == opt_embed_image_view(*b)),
{
    match (a, b) {
        (Some(x), Some(y)) => x.same(y),
        (None, None) => true,
        _ => false,
    }
}

/// A copy of an optional value.
pub fn clone_opt_embed_image(a: &Option<EmbedImage>) -> (r: Option<EmbedImage>)
    ensures
        opt_embed_image_view(r) == opt_embed_image_view(*a),
{
    match a {
        Some(x) => Some(x.clone()),
        None => None,
    }
}

impl EmbedImage {
    /// An image at the given address, of unknown size.
    pub fn new(url: &str) -> (r: EmbedImage)
        ensures
            r@ == (EmbedImageView { url: Some(url@), proxy_url: None, height: None, width: None }),
    {
        EmbedImage { url: Some(String::from_str(url)), proxy_url: None, height: None, width: None }
    }
}

/// The thumbnail of an embed.
#[derive(Debug, PartialEq, Eq)]
pub struct Thumbnail {
    pub url: Option<String>,
    pub proxy_url: Option<String>,
    pub height: Option<u64>,
    pub width: Option<u64>,
}

/// The values of a thumbnail, its texts taken as characters.
pub ghost struct ThumbnailView {
    pub url: Option<Seq<char>>,
    pub proxy_url: Option<Seq<char>>,
    pub height: Option<u64>,
    pub width: Option<u64>,
}

impl View for Thumbnail {
    type V = ThumbnailView;

    open spec fn view(&self) -> ThumbnailView {
        ThumbnailView {
            url: opt_view(self.url),
            proxy_url: opt_view(self.proxy_url),
            height: self.height,
            width: self.width,
        }
    }
}

impl Clone for Thumbnail {
    fn clone(&self) -> (r: Thumbnail)
        ensures
            r@ == self@,
    {
        Thumbnail {
            url: self.url.clone(),
            proxy_url: self.proxy_url.clone(),
            height: self.height,
            width: self.width,
        }
    }
}

impl UpdateCache for Thumbnail {
    fn update(&mut self, from: &Self)
        ensures
            final(self)@ == from@,
    {
        if !opt_str_eq(&self.url, &from.url) {
            self.url = from.url.clone();
        }
        if !opt_str_eq(&self.proxy_url, &from.proxy_url) {
            self.proxy_url = from.proxy_url.clone();
        }
        if self.height != from.height {
            self.height = from.height;
        }
        if self.width != from.width {
            self.width = from.width;
        }
    }
}

impl Thumbnail {
    /// Whether two values hold the same fields.
    pub fn same(&self, other: &Thumbnail) -> (r: bool)
        ensures
            r == (self@ == other@),
    {
        opt_str_eq(&self.url, &other.url)
            && opt_str_eq(&self.proxy_url, &other.proxy_url)
            && self.height == other.height
            && self.width == other.width
    }
}

pub open spec fn opt_thumbnail_view(o: Option<Thumbnail>) -> Option<ThumbnailView> {
    match o {
        Some(x) => Some(x@),
        None => None,
    }
}

/// Whether two optional values hold the same fields.
pub fn opt_thumbnail_eq(a: &Option<Thumbnail>, b: &Option<Thumbnail>) -> (r: bool)
    ensures
        r == (opt_thumbnail_view(*a) == opt_thumbnail_view(*b)),
{
    match (a, b) {
        (Some(x), Some(y)) => x.same(y),
        (None, None) => true,
        _ => false,
    }
}

/// A copy of an optional value.
pub fn clone_opt_thumbnail(a: &Option<Thumbnail>) -> (r: Option<Thumbnail>)
    ensures
        opt_thumbnail_view(r) == opt_thumbnail_view(*a),
{
    match a {
        Some(x) => Some(x.clone()),
        None => None,
    }
}

impl Thumbnail {
    /// An image at the given address, of unknown size.
    pub fn new(url: &str) -> (r: Thumbnail)
        ensures
            r@ == (ThumbnailView { url: Some(url@), proxy_url: None, height: None, width: None }),
    {
        Thumbnail { url: Some(String::from_str(url)), proxy_url: None, height: None, width: None }
    }
}

/// The provider of an embed.
#[derive(Debug, PartialEq, Eq)]
pub struct Provider {
    pub name: Option<String>,
    pub url: Option<String>,
}

/// The values of a provider, its texts taken as characters.
pub ghost struct ProviderView {
    pub name: Option<Seq<char>>,
    pub url: Option<Seq<char>>,
}

impl View for Provider {
    type V = ProviderView;

    open spec fn view(&self) -> ProviderView {
        ProviderView {
            name: opt_view(self.name),
            url: opt_view(self.url),
        }
    }
}

impl Clone for Provider {
    fn clone(&self) -> (r: Provider)
        ensures
            r@ == self@,
    {
        Provider {
            name: self.name.clone(),
            url: self.url.clone(),
        }
    }
}

impl UpdateCache for Provider {
    fn update(&mut self, from: &Self)
        ensures
            final(self)@ == from@,
    {
        if !opt_str_eq(&self.name, &from.name) {
            self.name = from.name.clone();
        }
        if !opt_str_eq(&self.url, &from.url) {
            self.url = from.url.clone();
        }
    }
}

impl Provider {
    /// Whether two values hold the same fields.
    pub fn same(&self, other: &Provider) -> (r: bool)
        ensures
            r == (self@ == other@),
    {
        opt_str_eq(&self.name, &other.name)
            && opt_str_eq(&self.url, &other.url)
    }
}

pub open spec fn opt_provider_view(o: Option<Provider>) -> Option<ProviderView> {
    match o {
        Some(x) => Some(x@),
        None => None,
    }
}

/// Whether two optional values hold the same fields.
pub fn opt_provider_eq(a: &Option<Provider>, b: &Option<Provider>) -> (r: bool)
    ensures
        r == (opt_provider_view(*a) == opt_provider_view(*b)),
{
    match (a, b) {
        (Some(x), Some(y)) => x.same(y),
        (None, None) => true,
        _ => false,
    }
}

/// A copy of an optional value.
pub fn clone_opt_provider(a: &Option<Provider>) -> (r: Option<Provider>)
    ensures
        opt_provider_view(r) == opt_provider_view(*a),
{
    match a {
        Some(x) => Some(x.clone()),
        None => None,
    }
}

impl Default for Provider {
    fn default() -> (r: Provider)
        ensures
            r@ == (ProviderView { name: None, url: None }),
    {
        Provider { name: None, url: None }
    }
}

impl Provider {
    /// A provider with no name and no address.
    pub fn new() -> (r: Provider)
        ensures
            r@ == (ProviderView { name: None, url: None }),
    {
        Provider::default()
    }
}

impl Provider {
    /// Sets the address of the provider.
    pub fn set_url(self, url: &str) -> (r: Provider)
        ensures
            r@ == (ProviderView { url: Some(url@), ..self@ }),
    {
        let mut s = self;
        s.url = Some(String::from_str(url));
        s
    }

    /// Sets the name of the provider.
    pub fn set_name(self, name: &str) -> (r: Provider)
        ensures
            r@ == (ProviderView { name: Some(name@), ..self@ }),
    {
        let mut s = self;
        s.name = Some(String::from_str(name));
        s
    }
}

/// The author of an embed.
#[derive(Debug, PartialEq, Eq)]
pub struct Author {
    pub name: String,
    pub url: Option<String>,
    pub icon_url: Option<String>,
    pub proxy_icon_url: Option<String>,
}

/// The values of a author, its texts taken as characters.
pub ghost struct AuthorView {
    pub name: Seq<char>,
    pub url: Option<Seq<char>>,
    pub icon_url: Option<Seq<char>>,
    pub proxy_icon_url: Option<Seq<char>>,
}

impl View for Author {
    type V = AuthorView;

    open spec fn view(&self) -> AuthorView {
        AuthorView {
            name: self.name@,
            url: opt_view(self.url),
            icon_url: opt_view(self.icon_url),
            proxy_icon_url: opt_view(self.proxy_icon_url),
        }
    }
}

impl Clone for Author {
    fn clone(&self) -> (r: Author)
        ensures
            r@ == self@,
    {
        Author {
            name: self.name.clone(),
            url: self.url.clone(),
            icon_url: self.icon_url.clone(),
            proxy_icon_url: self.proxy_icon_url.clone(),
        }
    }
}

impl UpdateCache for Author {
    fn update(&mut self, from: &Self)
        ensures
            final(self)@ == from@,
    {
        if self.name != from.name {
            self.name = from.name.clone();
        }
        if !opt_str_eq(&self.url, &from.url) {
            self.url = from.url.clone();
        }
        if !opt_str_eq(&self.icon_url, &from.icon_url) {
            self.icon_url = from.icon_url.clone();
        }
        if !opt_str_eq(&self.proxy_icon_url, &from.proxy_icon_url) {
            self.proxy_icon_url = from.proxy_icon_url.clone();
        }
    }
}

impl Author {
    /// Whether two values hold the same fields.
    pub fn same(&self, other: &Author) -> (r: bool)
        ensures
            r == (self@ == other@),
    {
        self.name == other.name
            && opt_str_eq(&self.url, &other.url)
            && opt_str_eq(&self.icon_url, &other.icon_url)
            && opt_str_eq(&self.proxy_icon_url, &other.proxy_icon_url)
    }
}

pub open spec fn opt_author_view(o: Option<Author>) -> Option<AuthorView> {
    match o {
        Some(x) => Some(x@),
        None => None,
    }
}

/// Whether two optional values hold the same fields.
pub fn opt_author_eq(a: &Option<Author>, b: &Option<Author>) -> (r: bool)
    ensures
        r == (opt_author_view(*a) == opt_author_view(*b)),
{
    match (a, b) {
        (Some(x), Some(y)) => x.same(y),
        (None, None) => true,
        _ => false,
    }
}

/// A copy of an optional value.
pub fn clone_opt_author(a: &Option<Author>) -> (r: Option<Author>)
    ensures
        opt_author_view(r) == opt_author_view(*a),
{
    match a {
        Some(x) => Some(x.clone()),
        None => None,
    }
}

impl Default for Author {
    fn default() -> (r: Author)
        ensures
            r@ == (AuthorView { name: Seq::empty(), url: None, icon_url: None, proxy_icon_url: None }),
    {
        Author { name: String::new(), url: None, icon_url: None, proxy_icon_url: None }
    }
}

impl Author {
    /// An author with no name and no address.
    pub fn new() -> (r: Author)
        ensures
            r@ == (AuthorView { name: Seq::empty(), url: None, icon_url: None, proxy_icon_url: None }),
    {
        Author::default()
    }
}

impl Author {
    /// Sets the name of the author.
    pub fn set_name(self, name: &str) -> (r: Author)
        ensures
            r@ == (AuthorView { name: name@, ..self@ }),
    {
        let mut s = self;
        s.name = String::from_str(name);
        s
    }

    /// Sets the address of the author.
    pub fn set_url(self, url: &str) -> (r: Author)
        ensures
            r@ == (AuthorView { url: Some(url@), ..self@ }),
    {
        let mut s = self;
        s.url = Some(String::from_str(url));
        s
    }

    /// Sets, or clears, the address of the author's icon.
    pub fn set_icon_url(self, icon_url: Option<&str>) -> (r: Author)
        ensures
            r@ == (AuthorView { icon_url: match icon_url { Some(x) => Some(x@), None => None }, ..self@ }),
    {
        let mut s = self;
        s.icon_url = match icon_url { Some(x) => Some(String::from_str(x)), None => None };
        s
    }
}

/// A field of an embed.
#[derive(Debug, PartialEq, Eq)]
pub struct Field {
    pub name: String,
    pub value: String,
    pub inline: Option<bool>,
}

/// The values of a field, its texts taken as characters.
pub ghost struct FieldView {
    pub name: Seq<char>,
    pub value: Seq<char>,
    pub inline: Option<bool>,
}

impl View for Field {
    type V = FieldView;

    open spec fn view(&self) -> FieldView {
        FieldView {
            name: self.name@,
            value: self.value@,
            inline: self.inline,
        }
    }
}

impl Clone for Field {
    fn clone(&self) -> (r: Field)
        ensures
            r@ == self@,
    {
        Field {
            name: self.name.clone(),
            value: self.value.clone(),
            inline: self.inline,
        }
    }
}

impl UpdateCache for Field {
    fn update(&mut self, from: &Self)
        ensures
            final(self)@ == from@,
    {
        if self.name != from.name {
            self.name = from.name.clone();
        }
        if self.value != from.value {
            self.value = from.value.clone();
        }
        if self.inline != from.inline {
            self.inline = from.inline;
        }
    }
}

impl Field {
    /// Whether two values hold the same fields.
    pub fn same(&self, other: &Field) -> (r: bool)
        ensures
            r == (self@ == other@),
    {
        self.name == other.name
            && self.value == other.value
            && self.inline == other.inline
    }
}

pub open spec fn fields_view(s: Seq<Field>) -> Seq<FieldView> {
    s.map_values(|x: Field| x@)
}

/// Whether two lists hold the same values in the same order.
pub fn fields_eq(x: &Vec<Field>, y: &Vec<Field>) -> (r: bool)
    ensures
        r == (fields_view(x@) == fields_view(y@)),
{
    if x.len() != y.len() {
        proof {
            assert(fields_view(x@).len() != fields_view(y@).len());
        }
        return false;
    }
    let mut i: usize = 0;
    while i < x.len()
        invariant
            x@.len() == y@.len(),
            i <= x@.len(),
            forall|j: int| 0 <= j < i ==> x@[j]@ == y@[j]@,
        decreases x@.len() - i,
    {
        if !x[i].same(&y[i]) {
            proof {
                assert(fields_view(x@)[i as int] != fields_view(y@)[i as int]);
            }
            return false;
        }
        i += 1;
    }
    proof {
        assert(fields_view(x@) =~= fields_view(y@));
    }
    true
}

/// A copy of a list.
pub fn clone_fields(v: &Vec<Field>) -> (r: Vec<Field>)
    ensures
        fields_view(r@) == fields_view(v@),
{
    let r = v.clone();
    proof {
        assert(fields_view(r@) =~= fields_view(v@));
    }
    r
}

impl Default for Field {
    fn default() -> (r: Field)
        ensures
            r@ == (FieldView { name: Seq::empty(), value: Seq::empty(), inline: None }),
    {
        Field { name: String::new(), value: String::new(), inline: None }
    }
}

impl Field {
    /// A field with no name and no value.
    pub fn new() -> (r: Field)
        ensures
            r@ == (FieldView { name: Seq::empty(), value: Seq::empty(), inline: None }),
    {
        Field::default()
    }
}

impl Field {
    /// Sets the name of the field.
    pub fn set_name(self, name: &str) -> (r: Field)
        ensures
            r@ == (FieldView { name: name@, ..self@ }),
    {
        let mut s = self;
        s.name = String::from_str(name);
        s
    }

    /// Sets the value of the field.
    pub fn set_value(self, value: &str) -> (r: Field)
        ensures
            r@ == (FieldView { value: value@, ..self@ }),
    {
        let mut s = self;
        s.value = String::from_str(value);
        s
    }

    /// Sets whether the field stands inline.
    pub fn set_inline(self, inline: bool) -> (r: Field)
        ensures
            r@ == (FieldView { inline: Some(inline), ..self@ }),
    {
        let mut s = self;
        s.inline = Some(inline);
        s
    }
}

/// The values of an optional list of fields.
pub open spec fn opt_fields_view(o: Option<Vec<Field>>) -> Option<Seq<FieldView>> {
    match o {
        Some(v) => Some(fields_view(v@)),
        None => None,
    }
}

/// Whether two optional lists of fields hold the same values.
pub fn opt_fields_eq(a: &Option<Vec<Field>>, b: &Option<Vec<Field>>) -> (r: bool)
    ensures
        r == (opt_fields_view(*a) == opt_fields_view(*b)),
{
    match (a, b) {
        (Some(x), Some(y)) => fields_eq(x, y),
        (None, None) => true,
        _ => false,
    }
}

/// A copy of an optional list of fields.
pub fn clone_opt_fields(a: &Option<Vec<Field>>) -> (r: Option<Vec<Field>>)
    ensures
        opt_fields_view(r) == opt_fields_view(*a),
{
    match a {
        Some(v) => Some(clone_fields(v)),
        None => None,
    }
}

/// A rich block of a message.
#[derive(Debug, PartialEq, Eq)]
pub struct Embed {
    pub title: Option<String>,
    pub description: Option<String>,
    pub kind: Option<EmbedType>,
    pub url: Option<String>,
    /// Milliseconds since the UNIX epoch.
    pub timestamp: Option<i64>,
    pub color: Option<Color>,
    pub footer: Option<Footer>,
    pub image: Option<EmbedImage>,
    pub thumbnail: Option<Thumbnail>,
    pub fields: Option<Vec<Field>>,
    pub provider: Option<Provider>,
    pub author: Option<Author>,
}

/// The values of a embed, its texts taken as characters.
pub ghost struct EmbedView {
    pub title: Option<Seq<char>>,
    pub description: Option<Seq<char>>,
    pub kind: Option<EmbedType>,
    pub url: Option<Seq<char>>,
    pub timestamp: Option<i64>,
    pub color: Option<Color>,
    pub footer: Option<FooterView>,
    pub image: Option<EmbedImageView>,
    pub thumbnail: Option<ThumbnailView>,
    pub fields: Option<Seq<FieldView>>,
    pub provider: Option<ProviderView>,
    pub author: Option<AuthorView>,
}

impl View for Embed {
    type V = EmbedView;

    open spec fn view(&self) -> EmbedView {
        EmbedView {
            title: opt_view(self.title),
            description: opt_view(self.description),
            kind: self.kind,
            url: opt_view(self.url),
            timestamp: self.timestamp,
            color: self.color,
            footer: opt_footer_view(self.footer),
            image: opt_embed_image_view(self.image),
            thumbnail: opt_thumbnail_view(self.thumbnail),
            fields: opt_fields_view(self.fields),
            provider: opt_provider_view(self.provider),
            author: opt_author_view(self.author),
        }
    }
}

impl Clone for Embed {
    fn clone(&self) -> (r: Embed)
        ensures
            r@ == self@,
    {
        Embed {
            title: self.title.clone(),
            description: self.description.clone(),
            kind: self.kind,
            url: self.url.clone(),
            timestamp: self.timestamp,
            color: self.color,
            footer: clone_opt_footer(&self.footer),
            image: clone_opt_embed_image(&self.image),
            thumbnail: clone_opt_thumbnail(&self.thumbnail),
            fields: clone_opt_fields(&self.fields),
            provider: clone_opt_provider(&self.provider),
            author: clone_opt_author(&self.author),
        }
    }
}

impl Embed {
    /// Takes the fields `title`, `description`, `kind`, `url`, `timestamp`, `color` of a fresher copy.
    fn update_part_1(&mut self, from: &Self)
        ensures
            opt_view(final(self).title) == opt_view(from.title),
            opt_view(final(self).description) == opt_view(from.description),
            final(self).kind == from.kind,
            opt_view(final(self).url) == opt_view(from.url),
            final(self).timestamp == from.timestamp,
            final(self).color == from.color,
            opt_footer_view(final(self).footer) == opt_footer_view(old(self).footer),
            opt_embed_image_view(final(self).image) == opt_embed_image_view(old(self).image),
            opt_thumbnail_view(final(self).thumbnail) == opt_thumbnail_view(old(self).thumbnail),
            opt_fields_view(final(self).fields) == opt_fields_view(old(self).fields),
            opt_provider_view(final(self).provider) == opt_provider_view(old(self).provider),
            opt_author_view(final(self).author) == opt_author_view(old(self).author),
    {
        if !opt_str_eq(&self.title, &from.title) {
            self.title = from.title.clone();
        }
        if !opt_str_eq(&self.description, &from.description) {
            self.description = from.description.clone();
        }
        if self.kind != from.kind {
            self.kind = from.kind;
        }
        if !opt_str_eq(&self.url, &from.url) {
            self.url = from.url.clone();
        }
        if self.timestamp != from.timestamp {
            self.timestamp = from.timestamp;
        }
        if self.color != from.color {
            self.color = from.color;
        }
    }

    /// Takes the fields `footer`, `image`, `thumbnail`, `fields`, `provider`, `author` of a fresher copy.
    fn update_part_2(&mut self, from: &Self)
        ensures
            opt_view(final(self).title) == opt_view(old(self).title),
            opt_view(final(self).description) == opt_view(old(self).description),
            final(self).kind == old(self).kind,
            opt_view(final(self).url) == opt_view(old(self).url),
            final(self).timestamp == old(self).timestamp,
            final(self).color == old(self).color,
            opt_footer_view(final(self).footer) == opt_footer_view(from.footer),
            opt_embed_image_view(final(self).image) == opt_embed_image_view(from.image),
            opt_thumbnail_view(final(self).thumbnail) == opt_thumbnail_view(from.thumbnail),
            opt_fields_view(final(self).fields) == opt_fields_view(from.fields),
            opt_provider_view(final(self).provider) == opt_provider_view(from.provider),
            opt_author_view(final(self).author) == opt_author_view(from.author),
    {
        if !opt_footer_eq(&self.footer, &from.footer) {
            self.footer = clone_opt_footer(&from.footer);
        }
        if !opt_embed_image_eq(&self.image, &from.image) {
            self.image = clone_opt_embed_image(&from.image);
        }
        if !opt_thumbnail_eq(&self.thumbnail, &from.thumbnail) {
            self.thumbnail = clone_opt_thumbnail(&from.thumbnail);
        }
        if !opt_fields_eq(&self.fields, &from.fields) {
            self.fields = clone_opt_fields(&from.fields);
        }
        if !opt_provider_eq(&self.provider, &from.provider) {
            self.provider = clone_opt_provider(&from.provider);
        }
        if !opt_author_eq(&self.author, &from.author) {
            self.author = clone_opt_author(&from.author);
        }
    }
}

impl UpdateCache for Embed {
    fn update(&mut self, from: &Self)
        ensures
            final(self)@ == from@,
    {
        self.update_part_1(from);
        self.update_part_2(from);
    }
}

impl Embed {
    /// Whether two values hold the same fields.
    pub fn same(&self, other: &Embed) -> (r: bool)
        ensures
            r == (self@ == other@),
    {
        opt_str_eq(&self.title, &other.title)
            && opt_str_eq(&self.description, &other.description)
            && self.kind == other.kind
            && opt_str_eq(&self.url, &other.url)
            && self.timestamp == other.timestamp
            && self.color == other.color
            && opt_footer_eq(&self.footer, &other.footer)
            && opt_embed_image_eq(&self.image, &other.image)
            && opt_thumbnail_eq(&self.thumbnail, &other.thumbnail)
            && opt_fields_eq(&self.fields, &other.fields)
            && opt_provider_eq(&self.provider, &other.provider)
            && opt_author_eq(&self.author, &other.author)
    }
}

pub open spec fn embeds_view(s: Seq<Embed>) -> Seq<EmbedView> {
    s.map_values(|x: Embed| x@)
}

/// Whether two lists hold the same values in the same order.
pub fn embeds_eq(x: &Vec<Embed>, y: &Vec<Embed>) -> (r: bool)
    ensures
        r == (embeds_view(x@) == embeds_view(y@)),
{
    if x.len() != y.len() {
        proof {
            assert(embeds_view(x@).len() != embeds_view(y@).len());
        }
        return false;
    }
    let mut i: usize = 0;
    while i < x.len()
        invariant
            x@.len() == y@.len(),
            i <= x@.len(),
            forall|j: int| 0 <= j < i ==> x@[j]@ == y@[j]@,
        decreases x@.len() - i,
    {
        if !x[i].same(&y[i]) {
            proof {
                assert(embeds_view(x@)[i as int] != embeds_view(y@)[i as int]);
            }
            return false;
        }
        i += 1;
    }
    proof {
        assert(embeds_view(x@) =~= embeds_view(y@));
    }
    true
}

/// A copy of a list.
pub fn clone_embeds(v: &Vec<Embed>) -> (r: Vec<Embed>)
    ensures
        embeds_view(r@) == embeds_view(v@),
{
    let r = v.clone();
    proof {
        assert(embeds_view(r@) =~= embeds_view(v@));
    }
    r
}

/// The embed with no field set.
pub open spec fn empty_embed() -> EmbedView {
    EmbedView { title: None, description: None, kind: None, url: None, timestamp: None, color: None, footer: None, image: None, thumbnail: None, fields: None, provider: None, author: None }
}

impl Default for Embed {
    fn default() -> (r: Embed)
        ensures
            r@ == empty_embed(),
    {
        Embed {
            title: None,
            description: None,
            kind: None,
            url: None,
            timestamp: None,
            color: None,
            footer: None,
            image: None,
            thumbnail: None,
            fields: None,
            provider: None,
            author: None,
        }
    }
}

impl Embed {
    /// An embed with no field set.
    pub fn new() -> (r: Embed)
        ensures
            r@ == empty_embed(),
    {
        Embed::default()
    }
}

impl Embed {
    /// Sets the title.
    pub fn set_title(self, title: &str) -> (r: Embed)
        ensures
            r@ == (EmbedView { title: Some(title@), ..self@ }),
    {
        let mut s = self;
        s.title = Some(String::from_str(title));
        s
    }

    /// Sets the description.
    pub fn set_description(self, description: &str) -> (r: Embed)
        ensures
            r@ == (EmbedView { description: Some(description@), ..self@ }),
    {
        let mut s = self;
        s.description = Some(String::from_str(description));
        s
    }

    /// Sets the type.
    pub fn set_kind(self, kind: EmbedType) -> (r: Embed)
        ensures
            r@ == (EmbedView { kind: Some(kind), ..self@ }),
    {
        let mut s = self;
        s.kind = Some(kind);
        s
    }

    /// Sets the address.
    pub fn set_url(self, url: &str) -> (r: Embed)
        ensures
            r@ == (EmbedView { url: Some(url@), ..self@ }),
    {
        let mut s = self;
        s.url = Some(String::from_str(url));
        s
    }

    /// Sets the time, in milliseconds since the UNIX epoch.
    pub fn set_timestamp(self, timestamp: i64) -> (r: Embed)
        ensures
            r@ == (EmbedView { timestamp: Some(timestamp), ..self@ }),
    {
        let mut s = self;
        s.timestamp = Some(timestamp);
        s
    }

    /// Sets the color.
    pub fn set_color(self, color: Color) -> (r: Embed)
        ensures
            r@ == (EmbedView { color: Some(color), ..self@ }),
    {
        let mut s = self;
        s.color = Some(color);
        s
    }

    /// Sets the footer.
    pub fn set_footer(self, footer: Footer) -> (r: Embed)
        ensures
            r@ == (EmbedView { footer: Some(footer@), ..self@ }),
    {
        let mut s = self;
        s.footer = Some(footer);
        s
    }

    /// Sets the image.
    pub fn set_image(self, image: EmbedImage) -> (r: Embed)
        ensures
            r@ == (EmbedView { image: Some(image@), ..self@ }),
    {
        let mut s = self;
        s.image = Some(image);
        s
    }

    /// Sets the thumbnail.
    pub fn set_thumbnail(self, thumbnail: Thumbnail) -> (r: Embed)
        ensures
            r@ == (EmbedView { thumbnail: Some(thumbnail@), ..self@ }),
    {
        let mut s = self;
        s.thumbnail = Some(thumbnail);
        s
    }

    /// Sets the provider.
    pub fn set_provider(self, provider: Provider) -> (r: Embed)
        ensures
            r@ == (EmbedView { provider: Some(provider@), ..self@ }),
    {
        let mut s = self;
        s.provider = Some(provider);
        s
    }

    /// Sets the author.
    pub fn set_author(self, author: Author) -> (r: Embed)
        ensures
            r@ == (EmbedView { author: Some(author@), ..self@ }),
    {
        let mut s = self;
        s.author = Some(author);
        s
    }
}

impl Embed {
    /// Adds a field after the others.
    pub fn add_field(self, field: Field) -> (r: Embed)
        ensures
            r@ == (EmbedView {
                fields: Some(match self@.fields { Some(fs) => fs.push(field@), None => seq![field@] }),
                ..self@
            }),
    {
        let mut s = self;
        let ghost fv = field@;
        match s.fields {
            Some(ref mut fields) => {
                let ghost before = fields@;
                fields.push(field);
                proof {
                    assert(fields_view(fields@) =~= fields_view(before).push(fv));
                }
            },
            None => {
                let v = vec![field];
                proof {
                    assert(fields_view(v@) =~= seq![fv]);
                }
                s.fields = Some(v);
            },
        }
        s
    }

    /// Adds fields after the others, in their order.
    pub fn add_fields(self, fields: Vec<Field>) -> (r: Embed)
        ensures
            r@ == (EmbedView {
                fields: Some(match self@.fields { Some(fs) => fs + fields_view(fields@), None => fields_view(fields@) }),
                ..self@
            }),
    {
        let mut s = self;
        match s.fields {
            Some(ref mut embed_fields) => {
                let ghost before = embed_fields@;
                let mut i: usize = 0;
                while i < fields.len()
                    invariant
                        i <= fields@.len(),
                        fields_view(embed_fields@) == fields_view(before) + fields_view(fields@.take(i as int)),
                    decreases fields@.len() - i,
                {
                    let f = fields[i].clone();
                    let ghost prev = embed_fields@;
                    embed_fields.push(f);
                    proof {
                        assert(fields@.take(i + 1) =~= fields@.take(i as int).push(fields@[i as int]));
                        assert(fields_view(embed_fields@) =~= fields_view(prev).push(fields@[i as int]@));
                        assert(fields_view(fields@.take(i + 1)) =~= fields_view(fields@.take(i as int)).push(fields@[i as int]@));
                    }
                    i += 1;
                }
                proof {
                    assert(fields@.take(fields@.len() as int) =~= fields@);
                }
            },
            None => {
                s.fields = Some(fields);
            },
        }
        s
    }

    /// Sets the fields.
    pub fn set_fields(self, fields: Vec<Field>) -> (r: Embed)
        ensures
            r@ == (EmbedView { fields: Some(fields_view(fields@)), ..self@ }),
    {
        let mut s = self;
        s.fields = Some(fields);
        s
    }
}

/// The footer a payload stands for, as the derived deserializer reads it.
pub open spec fn footer_from_json(v: JsonView) -> Option<FooterView> {
    let text = json_str(json_index(v, "text"@));
    let icon_url = de_opt_str(json_get(v, "icon_url"@));
    let proxy_icon_url = de_opt_str(json_get(v, "proxy_icon_url"@));
    if v is Object && text is Some && icon_url is Some && proxy_icon_url is Some {
        Some(FooterView { text: text.unwrap(), icon_url: icon_url.unwrap(), proxy_icon_url: proxy_icon_url.unwrap() })
    } else {
        None
    }
}

impl Footer {
    /// Reads a footer from a payload.
    pub fn from_raw(raw: &JsonValue) -> (r: Result<Footer, ModelError>)
        ensures
            match r {
                Ok(x) => footer_from_json(raw@) == Some(x@),
                Err(e) => footer_from_json(raw@) is None && kind_of(e) == ModelErrorKind::InvalidPayload,
            },
    {
        let bad = ModelError::InvalidPayload(String::from_str("Footer"));
        match raw {
            JsonValue::Object(_) => {},
            _ => return Err(bad),
        }
        let text = match get_str(raw, "text") { Some(s) => String::from_str(s), None => return Err(bad) };
        let icon_url = match read_opt_str(raw, "icon_url") { Some(x) => x, None => return Err(bad) };
        let proxy_icon_url = match read_opt_str(raw, "proxy_icon_url") { Some(x) => x, None => return Err(bad) };
        Ok(Footer { text, icon_url, proxy_icon_url })
    }
}

/// An optional footer field.
pub open spec fn de_opt_footer(f: Option<JsonView>) -> Option<Option<FooterView>> {
    match f {
        None => Some(None),
        Some(JsonView::Null) => Some(None),
        Some(x) => match footer_from_json(x) {
            Some(v) => Some(Some(v)),
            None => None,
        },
    }
}

fn read_opt_footer(raw: &JsonValue, key: &str) -> (r: Option<Option<Footer>>)
    ensures
        match r {
            None => de_opt_footer(json_get(raw@, key@)) is None,
            Some(x) => de_opt_footer(json_get(raw@, key@)) == Some(opt_footer_view(x)),
        },
{
    match raw.get(key) {
        None => Some(None),
        Some(x) => {
            if x.is_null() {
                Some(None)
            } else {
                match Footer::from_raw(x) {
                    Ok(v) => Some(Some(v)),
                    Err(_) => None,
                }
            }
        },
    }
}

/// The embed image a payload stands for, as the derived deserializer reads it.
pub open spec fn embed_image_from_json(v: JsonView) -> Option<EmbedImageView> {
    let url = de_opt_str(json_get(v, "url"@));
    let proxy_url = de_opt_str(json_get(v, "proxy_url"@));
    let height = de_opt_u64(json_get(v, "height"@));
    let width = de_opt_u64(json_get(v, "width"@));
    if v is Object && url is Some && proxy_url is Some && height is Some && width is Some {
        Some(EmbedImageView { url: url.unwrap(), proxy_url: proxy_url.unwrap(), height: height.unwrap(), width: width.unwrap() })
    } else {
        None
    }
}

impl EmbedImage {
    /// Reads a embed image from a payload.
    pub fn from_raw(raw: &JsonValue) -> (r: Result<EmbedImage, ModelError>)
        ensures
            match r {
                Ok(x) => embed_image_from_json(raw@) == Some(x@),
                Err(e) => embed_image_from_json(raw@) is None && kind_of(e) == ModelErrorKind::InvalidPayload,
            },
    {
        let bad = ModelError::InvalidPayload(String::from_str("EmbedImage"));
        match raw {
            JsonValue::Object(_) => {},
            _ => return Err(bad),
        }
        let url = match read_opt_str(raw, "url") { Some(x) => x, None => return Err(bad) };
        let proxy_url = match read_opt_str(raw, "proxy_url") { Some(x) => x, None => return Err(bad) };
        let height = match read_opt_u64(raw, "height") { Some(x) => x, None => return Err(bad) };
        let width = match read_opt_u64(raw, "width") { Some(x) => x, None => return Err(bad) };
        Ok(EmbedImage { url, proxy_url, height, width })
    }
}

/// An optional embed image field.
pub open spec fn de_opt_embed_image(f: Option<JsonView>) -> Option<Option<EmbedImageView>> {
    match f {
        None => Some(None),
        Some(JsonView::Null) => Some(None),
        Some(x) => match embed_image_from_json(x) {
            Some(v) => Some(Some(v)),
            None => None,
        },
    }
}

fn read_opt_embed_image(raw: &JsonValue, key: &str) -> (r: Option<Option<EmbedImage>>)
    ensures
        match r {
            None => de_opt_embed_image(json_get(raw@, key@)) is None,
            Some(x) => de_opt_embed_image(json_get(raw@, key@)) == Some(opt_embed_image_view(x)),
        },
{
    match raw.get(key) {
        None => Some(None),
        Some(x) => {
            if x.is_null() {
                Some(None)
            } else {
                match EmbedImage::from_raw(x) {
                    Ok(v) => Some(Some(v)),
                    Err(_) => None,
                }
            }
        },
    }
}

/// The thumbnail a payload stands for, as the derived deserializer reads it.
pub open spec fn thumbnail_from_json(v: JsonView) -> Option<ThumbnailView> {
    let url = de_opt_str(json_get(v, "url"@));
    let proxy_url = de_opt_str(json_get(v, "proxy_url"@));
    let height = de_opt_u64(json_get(v, "height"@));
    let width = de_opt_u64(json_get(v, "width"@));
    if v is Object && url is Some && proxy_url is Some && height is Some && width is Some {
        Some(ThumbnailView { url: url.unwrap(), proxy_url: proxy_url.unwrap(), height: height.unwrap(), width: width.unwrap() })
    } else {
        None
    }
}

impl Thumbnail {
    /// Reads a thumbnail from a payload.
    pub fn from_raw(raw: &JsonValue) -> (r: Result<Thumbnail, ModelError>)
        ensures
            match r {
                Ok(x) => thumbnail_from_json(raw@) == Some(x@),
                Err(e) => thumbnail_from_json(raw@) is None && kind_of(e) == ModelErrorKind::InvalidPayload,
            },
    {
        let bad = ModelError::InvalidPayload(String::from_str("Thumbnail"));
        match raw {
            JsonValue::Object(_) => {},
            _ => return Err(bad),
        }
        let url = match read_opt_str(raw, "url") { Some(x) => x, None => return Err(bad) };
        let proxy_url = match read_opt_str(raw, "proxy_url") { Some(x) => x, None => return Err(bad) };
        let height = match read_opt_u64(raw, "height") { Some(x) => x, None => return Err(bad) };
        let width = match read_opt_u64(raw, "width") { Some(x) => x, None => return Err(bad) };
        Ok(Thumbnail { url, proxy_url, height, width })
    }
}

/// An optional thumbnail field.
pub open spec fn de_opt_thumbnail(f: Option<JsonView>) -> Option<Option<ThumbnailView>> {
    match f {
        None => Some(None),
        Some(JsonView::Null) => Some(None),
        Some(x) => match thumbnail_from_json(x) {
            Some(v) => Some(Some(v)),
            None => None,
        },
    }
}

fn read_opt_thumbnail(raw: &JsonValue, key: &str) -> (r: Option<Option<Thumbnail>>)
    ensures
        match r {
            None => de_opt_thumbnail(json_get(raw@, key@)) is None,
            Some(x) => de_opt_thumbnail(json_get(raw@, key@)) == Some(opt_thumbnail_view(x)),
        },
{
    match raw.get(key) {
        None => Some(None),
        Some(x) => {
            if x.is_null() {
                Some(None)
            } else {
                match Thumbnail::from_raw(x) {
                    Ok(v) => Some(Some(v)),
                    Err(_) => None,
                }
            }
        },
    }
}

/// The provider a payload stands for, as the derived deserializer reads it.
pub open spec fn provider_from_json(v: JsonView) -> Option<ProviderView> {
    let name = de_opt_str(json_get(v, "name"@));
    let url = de_opt_str(json_get(v, "url"@));
    if v is Object && name is Some && url is Some {
        Some(ProviderView { name: name.unwrap(), url: url.unwrap() })
    } else {
        None
    }
}

impl Provider {
    /// Reads a provider from a payload.
    pub fn from_raw(raw: &JsonValue) -> (r: Result<Provider, ModelError>)
        ensures
            match r {
                Ok(x) => provider_from_json(raw@) == Some(x@),
                Err(e) => provider_from_json(raw@) is None && kind_of(e) == ModelErrorKind::InvalidPayload,
            },
    {
        let bad = ModelError::InvalidPayload(String::from_str("Provider"));
        match raw {
            JsonValue::Object(_) => {},
            _ => return Err(bad),
        }
        let name = match read_opt_str(raw, "name") { Some(x) => x, None => return Err(bad) };
        let url = match read_opt_str(raw, "url") { Some(x) => x, None => return Err(bad) };
        Ok(Provider { name, url })
    }
}

/// An optional provider field.
pub open spec fn de_opt_provider(f: Option<JsonView>) -> Option<Option<ProviderView>> {
    match f {
        None => Some(None),
        Some(JsonView::Null) => Some(None),
        Some(x) => match provider_from_json(x) {
            Some(v) => Some(Some(v)),
            None => None,
        },
    }
}

fn read_opt_provider(raw: &JsonValue, key: &str) -> (r: Option<Option<Provider>>)
    ensures
        match r {
            None => de_opt_provider(json_get(raw@, key@)) is None,
            Some(x) => de_opt_provider(json_get(raw@, key@)) == Some(opt_provider_view(x)),
        },
{
    match raw.get(key) {
        None => Some(None),
        Some(x) => {
            if x.is_null() {
                Some(None)
            } else {
                match Provider::from_raw(x) {
                    Ok(v) => Some(Some(v)),
                    Err(_) => None,
                }
            }
        },
    }
}

/// The author a payload stands for, as the derived deserializer reads it.
pub open spec fn author_from_json(v: JsonView) -> Option<AuthorView> {
    let name = json_str(json_index(v, "name"@));
    let url = de_opt_str(json_get(v, "url"@));
    let icon_url = de_opt_str(json_get(v, "icon_url"@));
    let proxy_icon_url = de_opt_str(json_get(v, "proxy_icon_url"@));
    if v is Object && name is Some && url is Some && icon_url is Some && proxy_icon_url is Some {
        Some(AuthorView { name: name.unwrap(), url: url.unwrap(), icon_url: icon_url.unwrap(), proxy_icon_url: proxy_icon_url.unwrap() })
    } else {
        None
    }
}

impl Author {
    /// Reads a author from a payload.
    pub fn from_raw(raw: &JsonValue) -> (r: Result<Author, ModelError>)
        ensures
            match r {
                Ok(x) => author_from_json(raw@) == Some(x@),
                Err(e) => author_from_json(raw@) is None && kind_of(e) == ModelErrorKind::InvalidPayload,
            },
    {
        let bad = ModelError::InvalidPayload(String::from_str("Author"));
        match raw {
            JsonValue::Object(_) => {},
            _ => return Err(bad),
        }
        let name = match get_str(raw, "name") { Some(s) => String::from_str(s), None => return Err(bad) };
        let url = match read_opt_str(raw, "url") { Some(x) => x, None => return Err(bad) };
        let icon_url = match read_opt_str(raw, "icon_url") { Some(x) => x, None => return Err(bad) };
        let proxy_icon_url = match read_opt_str(raw, "proxy_icon_url") { Some(x) => x, None => return Err(bad) };
        Ok(Author { name, url, icon_url, proxy_icon_url })
    }
}

/// An optional author field.
pub open spec fn de_opt_author(f: Option<JsonView>) -> Option<Option<AuthorView>> {
    match f {
        None => Some(None),
        Some(JsonView::Null) => Some(None),
        Some(x) => match author_from_json(x) {
            Some(v) => Some(Some(v)),
            None => None,
        },
    }
}

fn read_opt_author(raw: &JsonValue, key: &str) -> (r: Option<Option<Author>>)
    ensures
        match r {
            None => de_opt_author(json_get(raw@, key@)) is None,
            Some(x) => de_opt_author(json_get(raw@, key@)) == Some(opt_author_view(x)),
        },
{
    match raw.get(key) {
        None => Some(None),
        Some(x) => {
            if x.is_null() {
                Some(None)
            } else {
                match Author::from_raw(x) {
                    Ok(v) => Some(Some(v)),
                    Err(_) => None,
                }
            }
        },
    }
}

/// The field a payload stands for, as the derived deserializer reads it.
pub open spec fn field_from_json(v: JsonView) -> Option<FieldView> {
    let name = json_str(json_index(v, "name"@));
    let value = json_str(json_index(v, "value"@));
    let inline = de_opt_bool(json_get(v, "inline"@));
    if v is Object && name is Some && value is Some && inline is Some {
        Some(FieldView { name: name.unwrap(), value: value.unwrap(), inline: inline.unwrap() })
    } else {
        None
    }
}

impl Field {
    /// Reads a field from a payload.
    pub fn from_raw(raw: &JsonValue) -> (r: Result<Field, ModelError>)
        ensures
            match r {
                Ok(x) => field_from_json(raw@) == Some(x@),
                Err(e) => field_from_json(raw@) is None && kind_of(e) == ModelErrorKind::InvalidPayload,
            },
    {
        let bad = ModelError::InvalidPayload(String::from_str("Field"));
        match raw {
            JsonValue::Object(_) => {},
            _ => return Err(bad),
        }
        let name = match get_str(raw, "name") { Some(s) => String::from_str(s), None => return Err(bad) };
        let value = match get_str(raw, "value") { Some(s) => String::from_str(s), None => return Err(bad) };
        let inline = match read_opt_bool(raw, "inline") { Some(x) => x, None => return Err(bad) };
        Ok(Field { name, value, inline })
    }
}

/// An optional field field.
pub open spec fn de_opt_field(f: Option<JsonView>) -> Option<Option<FieldView>> {
    match f {
        None => Some(None),
        Some(JsonView::Null) => Some(None),
        Some(x) => match field_from_json(x) {
            Some(v) => Some(Some(v)),
            None => None,
        },
    }
}

/// A footer as the derived serializer writes it.
pub open spec fn footer_value(x: FooterView) -> JsonView {
    JsonView::Object(seq![
        ("icon_url"@, str_or_null(x.icon_url)),
        ("proxy_icon_url"@, str_or_null(x.proxy_icon_url)),
        ("text"@, JsonView::Str(x.text)),
    ])
}

impl Footer {
    /// The value as the derived serializer writes it.
    pub fn to_value(&self) -> (r: JsonValue)
        ensures
            r@ == footer_value(self@),
    {
        let r_v0 = opt_string_json(&self.icon_url);
        assert(r_v0@ == str_or_null(self@.icon_url));
        let r_v1 = opt_string_json(&self.proxy_icon_url);
        assert(r_v1@ == str_or_null(self@.proxy_icon_url));
        let r_v2 = string_json(&self.text);
        assert(r_v2@ == JsonView::Str(self@.text));
        let mut r_es: Vec<(String, JsonValue)> = Vec::new();
        r_es.push((String::from_str("icon_url"), r_v0));
        r_es.push((String::from_str("proxy_icon_url"), r_v1));
        r_es.push((String::from_str("text"), r_v2));
        let r = JsonValue::Object(r_es);
        proof {
            let expected: Seq<(Seq<char>, JsonView)> = seq![("icon_url"@, str_or_null(self@.icon_url)), ("proxy_icon_url"@, str_or_null(self@.proxy_icon_url)), ("text"@, JsonView::Str(self@.text))];
            let got = object_entries(r@);
            assert(got.len() == 3);
            assert(got[0] == expected[0]);
            assert(got[1] == expected[1]);
            assert(got[2] == expected[2]);
            assert(got =~= expected);
        }
        r
    }
}

pub open spec fn opt_footer_value(o: Option<FooterView>) -> JsonView {
    match o {
        Some(x) => footer_value(x),
        None => JsonView::Null,
    }
}

fn opt_footer_to_value(o: &Option<Footer>) -> (r: JsonValue)
    ensures
        r@ == opt_footer_value(opt_footer_view(*o)),
{
    match o {
        Some(x) => x.to_value(),
        None => JsonValue::Null,
    }
}

/// A embed image as the derived serializer writes it.
pub open spec fn embed_image_value(x: EmbedImageView) -> JsonView {
    JsonView::Object(seq![
        ("height"@, u64_or_null(x.height)),
        ("proxy_url"@, str_or_null(x.proxy_url)),
        ("url"@, str_or_null(x.url)),
        ("width"@, u64_or_null(x.width)),
    ])
}

impl EmbedImage {
    /// The value as the derived serializer writes it.
    pub fn to_value(&self) -> (r: JsonValue)
        ensures
            r@ == embed_image_value(self@),
    {
        let r_v0 = opt_u64_json(self.height);
        assert(r_v0@ == u64_or_null(self@.height));
        let r_v1 = opt_string_json(&self.proxy_url);
        assert(r_v1@ == str_or_null(self@.proxy_url));
        let r_v2 = opt_string_json(&self.url);
        assert(r_v2@ == str_or_null(self@.url));
        let r_v3 = opt_u64_json(self.width);
        assert(r_v3@ == u64_or_null(self@.width));
        let mut r_es: Vec<(String, JsonValue)> = Vec::new();
        r_es.push((String::from_str("height"), r_v0));
        r_es.push((String::from_str("proxy_url"), r_v1));
        r_es.push((String::from_str("url"), r_v2));
        r_es.push((String::from_str("width"), r_v3));
        let r = JsonValue::Object(r_es);
        proof {
            let expected: Seq<(Seq<char>, JsonView)> = seq![("height"@, u64_or_null(self@.height)), ("proxy_url"@, str_or_null(self@.proxy_url)), ("url"@, str_or_null(self@.url)), ("width"@, u64_or_null(self@.width))];
            let got = object_entries(r@);
            assert(got.len() == 4);
            assert(got[0] == expected[0]);
            assert(got[1] == expected[1]);
            assert(got[2] == expected[2]);
            assert(got[3] == expected[3]);
            assert(got =~= expected);
        }
        r
    }
}

pub open spec fn opt_embed_image_value(o: Option<EmbedImageView>) -> JsonView {
    match o {
        Some(x) => embed_image_value(x),
        None => JsonView::Null,
    }
}

fn opt_embed_image_to_value(o: &Option<EmbedImage>) -> (r: JsonValue)
    ensures
        r@ == opt_embed_image_value(opt_embed_image_view(*o)),
{
    match o {
        Some(x) => x.to_value(),
        None => JsonValue::Null,
    }
}

/// A thumbnail as the derived serializer writes it.
pub open spec fn thumbnail_value(x: ThumbnailView) -> JsonView {
    JsonView::Object(seq![
        ("height"@, u64_or_null(x.height)),
        ("proxy_url"@, str_or_null(x.proxy_url)),
        ("url"@, str_or_null(x.url)),
        ("width"@, u64_or_null(x.width)),
    ])
}

impl Thumbnail {
    /// The value as the derived serializer writes it.
    pub fn to_value(&self) -> (r: JsonValue)
        ensures
            r@ == thumbnail_value(self@),
    {
        let r_v0 = opt_u64_json(self.height);
        assert(r_v0@ == u64_or_null(self@.height));
        let r_v1 = opt_string_json(&self.proxy_url);
        assert(r_v1@ == str_or_null(self@.proxy_url));
        let r_v2 = opt_string_json(&self.url);
        assert(r_v2@ == str_or_null(self@.url));
        let r_v3 = opt_u64_json(self.width);
        assert(r_v3@ == u64_or_null(self@.width));
        let mut r_es: Vec<(String, JsonValue)> = Vec::new();
        r_es.push((String::from_str("height"), r_v0));
        r_es.push((String::from_str("proxy_url"), r_v1));
        r_es.push((String::from_str("url"), r_v2));
        r_es.push((String::from_str("width"), r_v3));
        let r = JsonValue::Object(r_es);
        proof {
            let expected: Seq<(Seq<char>, JsonView)> = seq![("height"@, u64_or_null(self@.height)), ("proxy_url"@, str_or_null(self@.proxy_url)), ("url"@, str_or_null(self@.url)), ("width"@, u64_or_null(self@.width))];
            let got = object_entries(r@);
            assert(got.len() == 4);
            assert(got[0] == expected[0]);
            assert(got[1] == expected[1]);
            assert(got[2] == expected[2]);
            assert(got[3] == expected[3]);
            assert(got =~= expected);
        }
        r
    }
}

pub open spec fn opt_thumbnail_value(o: Option<ThumbnailView>) -> JsonView {
    match o {
        Some(x) => thumbnail_value(x),
        None => JsonView::Null,
    }
}

fn opt_thumbnail_to_value(o: &Option<Thumbnail>) -> (r: JsonValue)
    ensures
        r@ == opt_thumbnail_value(opt_thumbnail_view(*o)),
{
    match o {
        Some(x) => x.to_value(),
        None => JsonValue::Null,
    }
}

/// A provider as the derived serializer writes it.
pub open spec fn provider_value(x: ProviderView) -> JsonView {
    JsonView::Object(seq![
        ("name"@, str_or_null(x.name)),
        ("url"@, str_or_null(x.url)),
    ])
}

impl Provider {
    /// The value as the derived serializer writes it.
    pub fn to_value(&self) -> (r: JsonValue)
        ensures
            r@ == provider_value(self@),
    {
        let r_v0 = opt_string_json(&self.name);
        assert(r_v0@ == str_or_null(self@.name));
        let r_v1 = opt_string_json(&self.url);
        assert(r_v1@ == str_or_null(self@.url));
        let mut r_es: Vec<(String, JsonValue)> = Vec::new();
        r_es.push((String::from_str("name"), r_v0));
        r_es.push((String::from_str("url"), r_v1));
        let r = JsonValue::Object(r_es);
        proof {
            let expected: Seq<(Seq<char>, JsonView)> = seq![("name"@, str_or_null(self@.name)), ("url"@, str_or_null(self@.url))];
            let got = object_entries(r@);
            assert(got.len() == 2);
            assert(got[0] == expected[0]);
            assert(got[1] == expected[1]);
            assert(got =~= expected);
        }
        r
    }
}

pub open spec fn opt_provider_value(o: Option<ProviderView>) -> JsonView {
    match o {
        Some(x) => provider_value(x),
        None => JsonView::Null,
    }
}

fn opt_provider_to_value(o: &Option<Provider>) -> (r: JsonValue)
    ensures
        r@ == opt_provider_value(opt_provider_view(*o)),
{
    match o {
        Some(x) => x.to_value(),
        None => JsonValue::Null,
    }
}

/// A author as the derived serializer writes it.
pub open spec fn author_value(x: AuthorView) -> JsonView {
    JsonView::Object(seq![
        ("icon_url"@, str_or_null(x.icon_url)),
        ("name"@, JsonView::Str(x.name)),
        ("proxy_icon_url"@, str_or_null(x.proxy_icon_url)),
        ("url"@, str_or_null(x.url)),
    ])
}

impl Author {
    /// The value as the derived serializer writes it.
    pub fn to_value(&self) -> (r: JsonValue)
        ensures
            r@ == author_value(self@),
    {
        let r_v0 = opt_string_json(&self.icon_url);
        assert(r_v0@ == str_or_null(self@.icon_url));
        let r_v1 = string_json(&self.name);
        assert(r_v1@ == JsonView::Str(self@.name));
        let r_v2 = opt_string_json(&self.proxy_icon_url);
        assert(r_v2@ == str_or_null(self@.proxy_icon_url));
        let r_v3 = opt_string_json(&self.url);
        assert(r_v3@ == str_or_null(self@.url));
        let mut r_es: Vec<(String, JsonValue)> = Vec::new();
        r_es.push((String::from_str("icon_url"), r_v0));
        r_es.push((String::from_str("name"), r_v1));
        r_es.push((String::from_str("proxy_icon_url"), r_v2));
        r_es.push((String::from_str("url"), r_v3));
        let r = JsonValue::Object(r_es);
        proof {
            let expected: Seq<(Seq<char>, JsonView)> = seq![("icon_url"@, str_or_null(self@.icon_url)), ("name"@, JsonView::Str(self@.name)), ("proxy_icon_url"@, str_or_null(self@.proxy_icon_url)), ("url"@, str_or_null(self@.url))];
            let got = object_entries(r@);
            assert(got.len() == 4);
            assert(got[0] == expected[0]);
            assert(got[1] == expected[1]);
            assert(got[2] == expected[2]);
            assert(got[3] == expected[3]);
            assert(got =~= expected);
        }
        r
    }
}

pub open spec fn opt_author_value(o: Option<AuthorView>) -> JsonView {
    match o {
        Some(x) => author_value(x),
        None => JsonView::Null,
    }
}

fn opt_author_to_value(o: &Option<Author>) -> (r: JsonValue)
    ensures
        r@ == opt_author_value(opt_author_view(*o)),
{
    match o {
        Some(x) => x.to_value(),
        None => JsonValue::Null,
    }
}

/// A field as the derived serializer writes it.
pub open spec fn field_value(x: FieldView) -> JsonView {
    JsonView::Object(seq![
        ("inline"@, bool_or_null(x.inline)),
        ("name"@, JsonView::Str(x.name)),
        ("value"@, JsonView::Str(x.value)),
    ])
}

impl Field {
    /// The value as the derived serializer writes it.
    pub fn to_value(&self) -> (r: JsonValue)
        ensures
            r@ == field_value(self@),
    {
        let r_v0 = opt_bool_json(self.inline);
        assert(r_v0@ == bool_or_null(self@.inline));
        let r_v1 = string_json(&self.name);
        assert(r_v1@ == JsonView::Str(self@.name));
        let r_v2 = string_json(&self.value);
        assert(r_v2@ == JsonView::Str(self@.value));
        let mut r_es: Vec<(String, JsonValue)> = Vec::new();
        r_es.push((String::from_str("inline"), r_v0));
        r_es.push((String::from_str("name"), r_v1));
        r_es.push((String::from_str("value"), r_v2));
        let r = JsonValue::Object(r_es);
        proof {
            let expected: Seq<(Seq<char>, JsonView)> = seq![("inline"@, bool_or_null(self@.inline)), ("name"@, JsonView::Str(self@.name)), ("value"@, JsonView::Str(self@.value))];
            let got = object_entries(r@);
            assert(got.len() == 3);
            assert(got[0] == expected[0]);
            assert(got[1] == expected[1]);
            assert(got[2] == expected[2]);
            assert(got =~= expected);
        }
        r
    }
}


/// An optional embed type field, read from its name.
pub open spec fn de_opt_embed_type(f: Option<JsonView>) -> Option<Option<EmbedType>> {
    match f {
        None => Some(None),
        Some(JsonView::Null) => Some(None),
        Some(x) => match json_str(x) {
            Some(s) => match embed_type_of_name(s) {
                Some(t) => Some(Some(t)),
                None => None,
            },
            None => None,
        },
    }
}

/// The fields that items stand for, each read as a field.
pub open spec fn fields_from_items(items: Seq<JsonView>) -> Seq<FieldView> {
    items.map_values(|it: JsonView| field_from_json(it).unwrap())
}

/// An optional list of fields.
pub open spec fn de_opt_fields(f: Option<JsonView>) -> Option<Option<Seq<FieldView>>> {
    match f {
        None => Some(None),
        Some(JsonView::Null) => Some(None),
        Some(x) => match json_array(x) {
            Some(items) => if forall|i: int| 0 <= i < items.len() ==> (#[trigger] field_from_json(items[i])) is Some {
                Some(Some(fields_from_items(items)))
            } else {
                None
            },
            None => None,
        },
    }
}

/// An optional time field, in milliseconds, that the calendar must hold.
pub open spec fn de_opt_millis(f: Option<JsonView>) -> Option<Option<i64>> {
    match de_opt_i64(f) {
        None => None,
        Some(None) => Some(None),
        Some(Some(ms)) => if utc_millis_in_range(ms) { Some(Some(ms)) } else { None },
    }
}

/// The embed a payload stands for, as the derived deserializer reads it:
/// every field may be missing.
pub open spec fn embed_from_json(v: JsonView) -> Option<EmbedView> {
    let title = de_opt_str(json_get(v, "title"@));
    let description = de_opt_str(json_get(v, "description"@));
    let kind = de_opt_embed_type(json_get(v, "type"@));
    let url = de_opt_str(json_get(v, "url"@));
    let timestamp = de_opt_millis(json_get(v, "timestamp"@));
    let color = de_opt_u64(json_get(v, "color"@));
    let footer = de_opt_footer(json_get(v, "footer"@));
    let image = de_opt_embed_image(json_get(v, "image"@));
    let thumbnail = de_opt_thumbnail(json_get(v, "thumbnail"@));
    let fields = de_opt_fields(json_get(v, "fields"@));
    let provider = de_opt_provider(json_get(v, "provider"@));
    let author = de_opt_author(json_get(v, "author"@));
    if v is Object && title is Some && description is Some && kind is Some && url is Some && timestamp is Some
        && color is Some && footer is Some && image is Some && thumbnail is Some && fields is Some && provider is Some
        && author is Some {
        Some(EmbedView {
            title: title.unwrap(),
            description: description.unwrap(),
            kind: kind.unwrap(),
            url: url.unwrap(),
            timestamp: timestamp.unwrap(),
            color: match color.unwrap() { Some(c) => Some(Color(c)), None => None },
            footer: footer.unwrap(),
            image: image.unwrap(),
            thumbnail: thumbnail.unwrap(),
            fields: fields.unwrap(),
            provider: provider.unwrap(),
            author: author.unwrap(),
        })
    } else {
        None
    }
}

fn read_opt_embed_type(raw: &JsonValue, key: &str) -> (r: Option<Option<EmbedType>>)
    ensures
        r == de_opt_embed_type(json_get(raw@, key@)),
{
    match read_opt_str(raw, key) {
        None => None,
        Some(None) => Some(None),
        Some(Some(s)) => match EmbedType::from_name(s.as_str()) {
            Some(t) => Some(Some(t)),
            None => None,
        },
    }
}

fn read_opt_fields(raw: &JsonValue, key: &str) -> (r: Option<Option<Vec<Field>>>)
    ensures
        match r {
            None => de_opt_fields(json_get(raw@, key@)) is None,
            Some(x) => de_opt_fields(json_get(raw@, key@)) == Some(opt_fields_view(x)),
        },
{
    let x = match raw.get(key) {
        None => return Some(None),
        Some(x) => x,
    };
    if x.is_null() {
        return Some(None);
    }
    let items = match x.as_array() {
        Some(items) => items,
        None => return None,
    };
    let ghost iv = items_view(items@);
    let mut out: Vec<Field> = Vec::new();
    let mut i: usize = 0;
    while i < items.len()
        invariant
            i <= items@.len(),
            iv == items_view(items@),
            json_array(x@) == Some(iv),
            json_get(raw@, key@) == Some(x@),
            x@ != JsonView::Null,
            out@.len() == i,
            forall|j: int| 0 <= j < i ==> (#[trigger] field_from_json(iv[j])) is Some && out@[j]@ == field_from_json(iv[j]).unwrap(),
        decreases items@.len() - i,
    {
        match Field::from_raw(&items[i]) {
            Ok(f) => {
                out.push(f);
            },
            Err(_) => {
                proof {
                    assert(iv[i as int] == items@[i as int]@);
                    assert(field_from_json(iv[i as int]) is None);
                }
                return None;
            },
        }
        i += 1;
    }
    proof {
        assert(fields_view(out@) =~= fields_from_items(iv));
    }
    Some(Some(out))
}

fn read_opt_millis(raw: &JsonValue, key: &str) -> (r: Option<Option<i64>>)
    ensures
        r == de_opt_millis(json_get(raw@, key@)),
{
    match read_opt_i64(raw, key) {
        None => None,
        Some(None) => Some(None),
        Some(Some(ms)) => if millis_in_range(ms) {
            Some(Some(ms))
        } else {
            None
        },
    }
}

impl Embed {
    /// Reads an embed from a payload.
    pub fn from_raw(raw: &JsonValue) -> (r: Result<Embed, ModelError>)
        ensures
            match r {
                Ok(x) => embed_from_json(raw@) == Some(x@),
                Err(e) => embed_from_json(raw@) is None && kind_of(e) == ModelErrorKind::InvalidPayload,
            },
    {
        let bad = ModelError::InvalidPayload(String::from_str("Embed"));
        match raw {
            JsonValue::Object(_) => {},
            _ => return Err(bad),
        }
        let title = match read_opt_str(raw, "title") { Some(x) => x, None => return Err(bad) };
        let description = match read_opt_str(raw, "description") { Some(x) => x, None => return Err(bad) };
        let kind = match read_opt_embed_type(raw, "type") { Some(x) => x, None => return Err(bad) };
        let url = match read_opt_str(raw, "url") { Some(x) => x, None => return Err(bad) };
        let timestamp = match read_opt_millis(raw, "timestamp") { Some(x) => x, None => return Err(bad) };
        let color = match read_opt_u64(raw, "color") { Some(x) => x, None => return Err(bad) };
        let footer = match read_opt_footer(raw, "footer") { Some(x) => x, None => return Err(bad) };
        let image = match read_opt_embed_image(raw, "image") { Some(x) => x, None => return Err(bad) };
        let thumbnail = match read_opt_thumbnail(raw, "thumbnail") { Some(x) => x, None => return Err(bad) };
        let fields = match read_opt_fields(raw, "fields") { Some(x) => x, None => return Err(bad) };
        let provider = match read_opt_provider(raw, "provider") { Some(x) => x, None => return Err(bad) };
        let author = match read_opt_author(raw, "author") { Some(x) => x, None => return Err(bad) };
        let color = match color {
            Some(c) => Some(Color(c)),
            None => None,
        };
        Ok(Embed { title, description, kind, url, timestamp, color, footer, image, thumbnail, fields, provider, author })
    }
}

/// A signed number as a value.
pub open spec fn i64_json(x: i64) -> JsonView {
    if x >= 0 {
        JsonView::Number(NumberView::PosInt(x as u64))
    } else {
        JsonView::Number(NumberView::NegInt(x))
    }
}

/// The whole seconds of a time in milliseconds, rounded down.
pub fn millis_to_secs(ms: i64) -> (r: i64)
    ensures
        r == ms / 1000,
{
    if ms >= 0 {
        ((ms as u64) / 1000) as i64
    } else {
        let a: u64 = (-(ms as i128)) as u64;
        let q: u64 = (a + 999) / 1000;
        -(q as i64)
    }
}

/// A time as the embed serializer writes it: its whole seconds.
pub open spec fn embed_time_json(t: Option<i64>) -> JsonView {
    match t {
        Some(ms) => i64_json((ms / 1000) as i64),
        None => JsonView::Null,
    }
}

/// The fields of an embed as the derived serializer writes them.
pub open spec fn fields_value(s: Seq<FieldView>) -> Seq<JsonView> {
    s.map_values(|f: FieldView| field_value(f))
}

/// An optional list of fields as the derived serializer writes it.
pub open spec fn opt_fields_value(o: Option<Seq<FieldView>>) -> JsonView {
    match o {
        Some(s) => JsonView::Array(fields_value(s)),
        None => JsonView::Null,
    }
}

fn opt_fields_to_value(o: &Option<Vec<Field>>) -> (r: JsonValue)
    ensures
        r@ == opt_fields_value(opt_fields_view(*o)),
{
    match o {
        None => JsonValue::Null,
        Some(v) => {
            let mut items: Vec<JsonValue> = Vec::new();
            let mut i: usize = 0;
            while i < v.len()
                invariant
                    i <= v@.len(),
                    items@.len() == i,
                    forall|j: int| 0 <= j < i ==> #[trigger] items@[j]@ == field_value(v@[j]@),
                decreases v@.len() - i,
            {
                items.push(v[i].to_value());
                i += 1;
            }
            let r = JsonValue::Array(items);
            proof {
                let got = match r@ { JsonView::Array(x) => x, _ => Seq::empty() };
                assert(got.len() == v@.len());
                assert forall|j: int| 0 <= j < got.len() implies got[j] == fields_value(fields_view(v@))[j] by {
                    assert(got[j] == items@[j]@);
                }
                assert(got =~= fields_value(fields_view(v@)));
            }
            r
        },
    }
}

/// An embed as the derived serializer writes it.
pub open spec fn embed_value(e: EmbedView) -> JsonView {
    JsonView::Object(seq![
        ("author"@, opt_author_value(e.author)),
        ("color"@, u64_or_null(match e.color { Some(c) => Some(c.0), None => None })),
        ("description"@, str_or_null(e.description)),
        ("fields"@, opt_fields_value(e.fields)),
        ("footer"@, opt_footer_value(e.footer)),
        ("image"@, opt_embed_image_value(e.image)),
        ("provider"@, opt_provider_value(e.provider)),
        ("thumbnail"@, opt_thumbnail_value(e.thumbnail)),
        ("timestamp"@, embed_time_json(e.timestamp)),
        ("title"@, str_or_null(e.title)),
        ("type"@, match e.kind { Some(k) => JsonView::Str(embed_type_name(k)), None => JsonView::Null }),
        ("url"@, str_or_null(e.url)),
    ])
}

impl Embed {
    /// The embed as the derived serializer writes it.
    pub fn to_value(&self) -> (r: JsonValue)
        ensures
            r@ == embed_value(self@),
    {
        let r_v0 = opt_author_to_value(&self.author);
        assert(r_v0@ == opt_author_value(self@.author));
        let r_v1 = opt_u64_json(match self.color { Some(c) => Some(c.0), None => None });
        assert(r_v1@ == u64_or_null(match self@.color { Some(c) => Some(c.0), None => None }));
        let r_v2 = opt_string_json(&self.description);
        assert(r_v2@ == str_or_null(self@.description));
        let r_v3 = opt_fields_to_value(&self.fields);
        assert(r_v3@ == opt_fields_value(self@.fields));
        let r_v4 = opt_footer_to_value(&self.footer);
        assert(r_v4@ == opt_footer_value(self@.footer));
        let r_v5 = opt_embed_image_to_value(&self.image);
        assert(r_v5@ == opt_embed_image_value(self@.image));
        let r_v6 = opt_provider_to_value(&self.provider);
        assert(r_v6@ == opt_provider_value(self@.provider));
        let r_v7 = opt_thumbnail_to_value(&self.thumbnail);
        assert(r_v7@ == opt_thumbnail_value(self@.thumbnail));
        let r_v8 = match self.timestamp { Some(ms) => { let s = millis_to_secs(ms); if s >= 0 { JsonValue::Number(JsonNumber::PosInt(s as u64)) } else { JsonValue::Number(JsonNumber::NegInt(s)) } }, None => JsonValue::Null };
        assert(r_v8@ == embed_time_json(self@.timestamp));
        let r_v9 = opt_string_json(&self.title);
        assert(r_v9@ == str_or_null(self@.title));
        let r_v10 = match self.kind { Some(k) => JsonValue::String(String::from_str(k.name())), None => JsonValue::Null };
        assert(r_v10@ == match self@.kind { Some(k) => JsonView::Str(embed_type_name(k)), None => JsonView::Null });
        let r_v11 = opt_string_json(&self.url);
        assert(r_v11@ == str_or_null(self@.url));
        let mut r_es: Vec<(String, JsonValue)> = Vec::new();
        r_es.push((String::from_str("author"), r_v0));
        r_es.push((String::from_str("color"), r_v1));
        r_es.push((String::from_str("description"), r_v2));
        r_es.push((String::from_str("fields"), r_v3));
        r_es.push((String::from_str("footer"), r_v4));
        r_es.push((String::from_str("image"), r_v5));
        r_es.push((String::from_str("provider"), r_v6));
        r_es.push((String::from_str("thumbnail"), r_v7));
        r_es.push((String::from_str("timestamp"), r_v8));
        r_es.push((String::from_str("title"), r_v9));
        r_es.push((String::from_str("type"), r_v10));
        r_es.push((String::from_str("url"), r_v11));
        let r = JsonValue::Object(r_es);
        proof {
            let expected_unused: Seq<(Seq<char>, JsonView)> = seq![("author"@, opt_author_value(self@.author)), ("color"@, u64_or_null(match self@.color { Some(c) => Some(c.0), None => None })), ("description"@, str_or_null(self@.description)), ("fields"@, opt_fields_value(self@.fields)), ("footer"@, opt_footer_value(self@.footer)), ("image"@, opt_embed_image_value(self@.image)), ("provider"@, opt_provider_value(self@.provider)), ("thumbnail"@, opt_thumbnail_value(self@.thumbnail)), ("timestamp"@, embed_time_json(self@.timestamp)), ("title"@, str_or_null(self@.title)), ("type"@, match self@.kind { Some(k) => JsonView::Str(embed_type_name(k)), None => JsonView::Null }), ("url"@, str_or_null(self@.url))];
            let got = object_entries(r@);
            assert(got.len() == 12);
            let expected = object_entries(embed_value(self@));
            assert(got[0] == expected[0]);
            assert(got[1] == expected[1]);
            assert(got[2] == expected[2]);
            assert(got[3] == expected[3]);
            assert(got[4] == expected[4]);
            assert(got[5] == expected[5]);
            assert(got[6] == expected[6]);
            assert(got[7] == expected[7]);
            assert(got[8] == expected[8]);
            assert(got[9] == expected[9]);
            assert(got[10] == expected[10]);
            assert(got[11] == expected[11]);
            assert(got =~= expected);
        }
        r
    }
}

} // verus!
