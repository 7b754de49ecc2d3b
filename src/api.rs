use vstd::prelude::*;
use vstd::string::StringExecFns;

use crate::json::{
    join,
    array, boolean, decimal, encode_array, encode_boolean, encode_decimal, encode_member,
    encode_object, json_quoted, member, object, optional, push_optional, quote, texts,
};

verus! {

/// A name/value pair shown within an embed, optionally inline with its neighbours.
#[derive(Clone, Debug)]
pub struct Field {
    pub name: String,
    pub value: String,
    pub inline: bool,
}

/// The footer of an embed: a text and an icon URL, both optional.
#[derive(Clone, Debug)]
pub struct Footer {
    pub text: Option<String>,
    pub icon_url: Option<String>,
}

/// An image of an embed: its URL and optional dimensions.
#[derive(Clone, Debug)]
pub struct Image {
    pub url: String,
    pub height: Option<u32>,
    pub width: Option<u32>,
}

/// A thumbnail of an embed: its URL and optional dimensions.
#[derive(Clone, Debug)]
pub struct Thumbnail {
    pub url: String,
    pub height: Option<u32>,
    pub width: Option<u32>,
}

/// A video of an embed: its URL and optional dimensions.
#[derive(Clone, Debug)]
pub struct Video {
    pub url: String,
    pub height: Option<u32>,
    pub width: Option<u32>,
}

/// The provider of an embed's content: an optional name and URL.
#[derive(Clone, Debug)]
pub struct Provider {
    pub name: Option<String>,
    pub url: Option<String>,
}

/// The author of an embed's content: a name, an optional URL and icon URL.
#[derive(Clone, Debug)]
pub struct Author {
    pub name: String,
    pub url: Option<String>,
    pub icon_url: Option<String>,
}

/// A rich-content block attached to a message.
#[derive(Clone, Debug)]
pub struct Embed {
    /// Title of the embed
    pub title: String,
    /// Description of the embed
    pub description: Option<String>,
    /// Fields, in display order (the remote API accepts at most 25)
    pub fields: Vec<Field>,
    /// Timestamp flag of the embed
    pub timestamp: Option<bool>,
    /// Colour of the embed, RGB packed
    pub color: Option<u32>,
    /// Footer information
    pub footer: Option<Footer>,
    /// Image information
    pub image: Option<Image>,
    /// Thumbnail information
    pub thumbnail: Option<Thumbnail>,
    /// Video information
    pub video: Option<Video>,
    /// Provider information
    pub provider: Option<Provider>,
    /// Author information
    pub author: Option<Author>,
}

/// What a field holds.
pub struct FieldView {
    pub name: Seq<char>,
    pub value: Seq<char>,
    pub inline: bool,
}

/// What a footer holds.
pub struct FooterView {
    pub text: Option<Seq<char>>,
    pub icon_url: Option<Seq<char>>,
}

/// What an image, a thumbnail or a video holds.
pub struct MediaView {
    pub url: Seq<char>,
    pub height: Option<u32>,
    pub width: Option<u32>,
}

/// What a provider holds.
pub struct ProviderView {
    pub name: Option<Seq<char>>,
    pub url: Option<Seq<char>>,
}

/// What an author holds.
pub struct AuthorView {
    pub name: Seq<char>,
    pub url: Option<Seq<char>>,
    pub icon_url: Option<Seq<char>>,
}

/// What an embed holds.
pub struct EmbedView {
    pub title: Seq<char>,
    pub description: Option<Seq<char>>,
    pub fields: Seq<FieldView>,
    pub timestamp: Option<bool>,
    pub color: Option<u32>,
    pub footer: Option<FooterView>,
    pub image: Option<MediaView>,
    pub thumbnail: Option<MediaView>,
    pub video: Option<MediaView>,
    pub provider: Option<ProviderView>,
    pub author: Option<AuthorView>,
}

impl View for Field {
    type V = FieldView;

    open spec fn view(&self) -> FieldView {
        FieldView { name: self.name@, value: self.value@, inline: self.inline }
    }
}

impl DeepView for Field {
    type V = FieldView;

    open spec fn deep_view(&self) -> FieldView {
        self@
    }
}

impl View for Footer {
    type V = FooterView;

    open spec fn view(&self) -> FooterView {
        FooterView { text: self.text.deep_view(), icon_url: self.icon_url.deep_view() }
    }
}

impl DeepView for Footer {
    type V = FooterView;

    open spec fn deep_view(&self) -> FooterView {
        self@
    }
}

impl View for Image {
    type V = MediaView;

    open spec fn view(&self) -> MediaView {
        MediaView { url: self.url@, height: self.height, width: self.width }
    }
}

impl DeepView for Image {
    type V = MediaView;

    open spec fn deep_view(&self) -> MediaView {
        self@
    }
}

impl View for Thumbnail {
    type V = MediaView;

    open spec fn view(&self) -> MediaView {
        MediaView { url: self.url@, height: self.height, width: self.width }
    }
}

impl DeepView for Thumbnail {
    type V = MediaView;

    open spec fn deep_view(&self) -> MediaView {
        self@
    }
}

impl View for Video {
    type V = MediaView;

    open spec fn view(&self) -> MediaView {
        MediaView { url: self.url@, height: self.height, width: self.width }
    }
}

impl DeepView for Video {
    type V = MediaView;

    open spec fn deep_view(&self) -> MediaView {
        self@
    }
}

impl View for Provider {
    type V = ProviderView;

    open spec fn view(&self) -> ProviderView {
        ProviderView { name: self.name.deep_view(), url: self.url.deep_view() }
    }
}

impl DeepView for Provider {
    type V = ProviderView;

    open spec fn deep_view(&self) -> ProviderView {
        self@
    }
}

impl View for Author {
    type V = AuthorView;

    open spec fn view(&self) -> AuthorView {
        AuthorView {
            name: self.name@,
            url: self.url.deep_view(),
            icon_url: self.icon_url.deep_view(),
        }
    }
}

impl DeepView for Author {
    type V = AuthorView;

    open spec fn deep_view(&self) -> AuthorView {
        self@
    }
}

impl View for Embed {
    type V = EmbedView;

    open spec fn view(&self) -> EmbedView {
        EmbedView {
            title: self.title@,
            description: self.description.deep_view(),
            fields: self.fields.deep_view(),
            timestamp: self.timestamp,
            color: self.color,
            footer: self.footer.deep_view(),
            image: self.image.deep_view(),
            thumbnail: self.thumbnail.deep_view(),
            video: self.video.deep_view(),
            provider: self.provider.deep_view(),
            author: self.author.deep_view(),
        }
    }
}

impl DeepView for Embed {
    type V = EmbedView;

    open spec fn deep_view(&self) -> EmbedView {
        self@
    }
}

impl Default for Field {
    /// Every optional attribute absent, every text empty.
    fn default() -> (r: Field)
        ensures
            r@ == (FieldView { name: Seq::empty(), value: Seq::empty(), inline: false }),
    {
        let r = Field { name: String::new(), value: String::new(), inline: false };
        assert(r@ =~= (FieldView { name: Seq::empty(), value: Seq::empty(), inline: false }));
        r
    }
}

impl Default for Footer {
    /// Every optional attribute absent, every text empty.
    fn default() -> (r: Footer)
        ensures
            r@ == (FooterView { text: None, icon_url: None }),
    {
        let r = Footer { text: None, icon_url: None };
        assert(r@ =~= (FooterView { text: None, icon_url: None }));
        r
    }
}

impl Default for Image {
    /// Every optional attribute absent, every text empty.
    fn default() -> (r: Image)
        ensures
            r@ == (MediaView { url: Seq::empty(), height: None, width: None }),
    {
        let r = Image { url: String::new(), height: None, width: None };
        assert(r@ =~= (MediaView { url: Seq::empty(), height: None, width: None }));
        r
    }
}

impl Default for Thumbnail {
    /// Every optional attribute absent, every text empty.
    fn default() -> (r: Thumbnail)
        ensures
            r@ == (MediaView { url: Seq::empty(), height: None, width: None }),
    {
        let r = Thumbnail { url: String::new(), height: None, width: None };
        assert(r@ =~= (MediaView { url: Seq::empty(), height: None, width: None }));
        r
    }
}

impl Default for Video {
    /// Every optional attribute absent, every text empty.
    fn default() -> (r: Video)
        ensures
            r@ == (MediaView { url: Seq::empty(), height: None, width: None }),
    {
        let r = Video { url: String::new(), height: None, width: None };
        assert(r@ =~= (MediaView { url: Seq::empty(), height: None, width: None }));
        r
    }
}

impl Default for Provider {
    /// Every optional attribute absent, every text empty.
    fn default() -> (r: Provider)
        ensures
            r@ == (ProviderView { name: None, url: None }),
    {
        let r = Provider { name: None, url: None };
        assert(r@ =~= (ProviderView { name: None, url: None }));
        r
    }
}

impl Default for Author {
    /// Every optional attribute absent, every text empty.
    fn default() -> (r: Author)
        ensures
            r@ == (AuthorView { name: Seq::empty(), url: None, icon_url: None }),
    {
        let r = Author { name: String::new(), url: None, icon_url: None };
        assert(r@ =~= (AuthorView { name: Seq::empty(), url: None, icon_url: None }));
        r
    }
}

impl Default for Embed {
    /// Every optional attribute absent, every text empty.
    fn default() -> (r: Embed)
        ensures
            r@ == (EmbedView { title: Seq::empty(), description: None, fields: Seq::empty(), timestamp: None, color: None, footer: None, image: None, thumbnail: None, video: None, provider: None, author: None }),
    {
        let r = Embed { title: String::new(), description: None, fields: Vec::new(), timestamp: None, color: None, footer: None, image: None, thumbnail: None, video: None, provider: None, author: None };
        assert(r.fields.deep_view() =~= Seq::<FieldView>::empty());
        assert(r@ =~= (EmbedView { title: Seq::empty(), description: None, fields: Seq::empty(), timestamp: None, color: None, footer: None, image: None, thumbnail: None, video: None, provider: None, author: None }));
        r
    }
}

/// The JSON string literal of an optional text.
pub open spec fn quoted_opt(s: Option<Seq<char>>) -> Option<Seq<char>> {
    match s {
        Some(t) => Some(json_quoted(t)),
        None => None,
    }
}

/// The JSON numeral of an optional integer.
pub open spec fn decimal_opt(n: Option<u32>) -> Option<Seq<char>> {
    match n {
        Some(v) => Some(decimal(v as nat)),
        None => None,
    }
}

/// The JSON literal of an optional flag.
pub open spec fn boolean_opt(b: Option<bool>) -> Option<Seq<char>> {
    match b {
        Some(v) => Some(boolean(v)),
        None => None,
    }
}

/// `{"name":..,"value":..,"inline":..}`
pub open spec fn field_json(f: FieldView) -> Seq<char> {
    object(
        seq![
            member("name"@, json_quoted(f.name)),
            member("value"@, json_quoted(f.value)),
            member("inline"@, boolean(f.inline)),
        ],
    )
}

/// The JSON array of the fields, in their order.
pub open spec fn fields_json(fs: Seq<FieldView>) -> Seq<char> {
    array(fs.map_values(|f: FieldView| field_json(f)))
}

/// `{"text"?:..,"icon_url"?:..}`, with absent keys left out.
pub open spec fn footer_json(f: FooterView) -> Seq<char> {
    object(
        optional("text"@, quoted_opt(f.text)) + optional("icon_url"@, quoted_opt(f.icon_url)),
    )
}

/// `{"url":..,"height"?:..,"width"?:..}`, with absent keys left out.
pub open spec fn media_json(m: MediaView) -> Seq<char> {
    object(
        seq![member("url"@, json_quoted(m.url))] + optional("height"@, decimal_opt(m.height))
            + optional("width"@, decimal_opt(m.width)),
    )
}

/// `{"name"?:..,"url"?:..}`, with absent keys left out.
pub open spec fn provider_json(p: ProviderView) -> Seq<char> {
    object(optional("name"@, quoted_opt(p.name)) + optional("url"@, quoted_opt(p.url)))
}

/// `{"name":..,"url"?:..,"icon_url"?:..}`, with absent keys left out.
pub open spec fn author_json(a: AuthorView) -> Seq<char> {
    object(
        seq![member("name"@, json_quoted(a.name))] + optional("url"@, quoted_opt(a.url))
            + optional("icon_url"@, quoted_opt(a.icon_url)),
    )
}

/// The members of an embed's JSON object, in order; an absent attribute has none.
pub open spec fn embed_members(e: EmbedView) -> Seq<Seq<char>> {
    seq![member("title"@, json_quoted(e.title))]
        + optional("description"@, quoted_opt(e.description))
        + seq![member("fields"@, fields_json(e.fields))]
        + optional("timestamp"@, boolean_opt(e.timestamp))
        + optional("color"@, decimal_opt(e.color))
        + optional("footer"@, match e.footer { Some(f) => Some(footer_json(f)), None => None })
        + optional("image"@, match e.image { Some(m) => Some(media_json(m)), None => None })
        + optional(
            "thumbnail"@,
            match e.thumbnail { Some(m) => Some(media_json(m)), None => None },
        )
        + optional("video"@, match e.video { Some(m) => Some(media_json(m)), None => None })
        + optional(
            "provider"@,
            match e.provider { Some(p) => Some(provider_json(p)), None => None },
        )
        + optional("author"@, match e.author { Some(a) => Some(author_json(a)), None => None })
}

/// The JSON object of an embed.
pub open spec fn embed_json(e: EmbedView) -> Seq<char> {
    object(embed_members(e))
}

/// The JSON string literal of an optional text.
fn quote_opt(s: &Option<String>) -> (r: Option<String>)
    ensures
        r.deep_view() == quoted_opt(s.deep_view()),
{
    match s {
        Some(t) => Some(quote(t.as_str())),
        None => None,
    }
}

/// The JSON numeral of an optional integer.
fn decimal_of_opt(n: Option<u32>) -> (r: Option<String>)
    ensures
        r.deep_view() == decimal_opt(n),
{
    match n {
        Some(v) => Some(encode_decimal(v)),
        None => None,
    }
}

/// Encodes the three attributes that images, thumbnails and videos share.
fn encode_media(url: &String, height: Option<u32>, width: Option<u32>) -> (r: String)
    ensures
        r@ == media_json(MediaView { url: url@, height, width }),
{
    let mut members: Vec<String> = Vec::new();
    members.push(encode_member("url", quote(url.as_str())));
    assert(texts(members@) =~= seq![member("url"@, json_quoted(url@))]);
    push_optional(&mut members, "height", decimal_of_opt(height));
    push_optional(&mut members, "width", decimal_of_opt(width));
    encode_object(&members)
}

impl Field {
    /// The JSON object of this field.
    pub fn to_json(&self) -> (r: String)
        ensures
            r@ == field_json(self@),
    {
        let mut members: Vec<String> = Vec::new();
        members.push(encode_member("name", quote(self.name.as_str())));
        members.push(encode_member("value", quote(self.value.as_str())));
        members.push(encode_member("inline", encode_boolean(self.inline)));
        assert(texts(members@) =~= seq![
            member("name"@, json_quoted(self.name@)),
            member("value"@, json_quoted(self.value@)),
            member("inline"@, boolean(self.inline)),
        ]);
        encode_object(&members)
    }
}

impl Footer {
    /// The JSON object of this footer; absent attributes are left out.
    pub fn to_json(&self) -> (r: String)
        ensures
            r@ == footer_json(self@),
    {
        let mut members: Vec<String> = Vec::new();
        assert(texts(members@) =~= Seq::<Seq<char>>::empty());
        push_optional(&mut members, "text", quote_opt(&self.text));
        push_optional(&mut members, "icon_url", quote_opt(&self.icon_url));
        assert(texts(members@) =~= optional("text"@, quoted_opt(self@.text)) + optional(
            "icon_url"@,
            quoted_opt(self@.icon_url),
        ));
        encode_object(&members)
    }
}

impl Image {
    /// The JSON object of this image; absent dimensions are left out.
    pub fn to_json(&self) -> (r: String)
        ensures
            r@ == media_json(self@),
    {
        encode_media(&self.url, self.height, self.width)
    }
}

impl Thumbnail {
    /// The JSON object of this thumbnail; absent dimensions are left out.
    pub fn to_json(&self) -> (r: String)
        ensures
            r@ == media_json(self@),
    {
        encode_media(&self.url, self.height, self.width)
    }
}

impl Video {
    /// The JSON object of this video; absent dimensions are left out.
    pub fn to_json(&self) -> (r: String)
        ensures
            r@ == media_json(self@),
    {
        encode_media(&self.url, self.height, self.width)
    }
}

impl Provider {
    /// The JSON object of this provider; absent attributes are left out.
    pub fn to_json(&self) -> (r: String)
        ensures
            r@ == provider_json(self@),
    {
        let mut members: Vec<String> = Vec::new();
        assert(texts(members@) =~= Seq::<Seq<char>>::empty());
        push_optional(&mut members, "name", quote_opt(&self.name));
        push_optional(&mut members, "url", quote_opt(&self.url));
        assert(texts(members@) =~= optional("name"@, quoted_opt(self@.name)) + optional(
            "url"@,
            quoted_opt(self@.url),
        ));
        encode_object(&members)
    }
}

impl Author {
    /// The JSON object of this author; absent attributes are left out.
    pub fn to_json(&self) -> (r: String)
        ensures
            r@ == author_json(self@),
    {
        let mut members: Vec<String> = Vec::new();
        members.push(encode_member("name", quote(self.name.as_str())));
        assert(texts(members@) =~= seq![member("name"@, json_quoted(self.name@))]);
        push_optional(&mut members, "url", quote_opt(&self.url));
        push_optional(&mut members, "icon_url", quote_opt(&self.icon_url));
        encode_object(&members)
    }
}

/// The JSON array of the fields, in their order.
fn encode_fields(fields: &Vec<Field>) -> (r: String)
    ensures
        r@ == fields_json(fields.deep_view()),
{
    let mut items: Vec<String> = Vec::new();
    let mut i: usize = 0;
    while i < fields.len()
        invariant
            i <= fields.len(),
            texts(items@) =~= fields.deep_view().take(i as int).map_values(
                |f: FieldView| field_json(f),
            ),
        decreases fields.len() - i,
    {
        let ghost before = texts(items@);
        items.push(fields[i].to_json());
        proof {
            let all = fields.deep_view();
            assert(all[i as int] == fields@[i as int]@);
            assert(all.take(i + 1) =~= all.take(i as int).push(fields@[i as int]@));
            assert(texts(items@) =~= before.push(field_json(fields@[i as int]@)));
        }
        i += 1;
    }
    assert(fields.deep_view().take(fields@.len() as int) =~= fields.deep_view());
    encode_array(&items)
}

impl Embed {
    /// The JSON object of this embed. Title and fields are always present;
    /// every other attribute appears under its key only when it is set.
    pub fn to_json(&self) -> (r: String)
        ensures
            r@ == embed_json(self@),
    {
        let mut members: Vec<String> = Vec::new();
        members.push(encode_member("title", quote(self.title.as_str())));
        assert(texts(members@) =~= seq![member("title"@, json_quoted(self.title@))]);
        push_optional(&mut members, "description", quote_opt(&self.description));
        let ghost head = texts(members@);
        members.push(encode_member("fields", encode_fields(&self.fields)));
        assert(texts(members@) =~= head + seq![member("fields"@, fields_json(self@.fields))]);
        let timestamp = match self.timestamp {
            Some(b) => Some(encode_boolean(b)),
            None => None,
        };
        push_optional(&mut members, "timestamp", timestamp);
        push_optional(&mut members, "color", decimal_of_opt(self.color));
        let footer = match &self.footer {
            Some(f) => Some(f.to_json()),
            None => None,
        };
        push_optional(&mut members, "footer", footer);
        let image = match &self.image {
            Some(m) => Some(m.to_json()),
            None => None,
        };
        push_optional(&mut members, "image", image);
        let thumbnail = match &self.thumbnail {
            Some(m) => Some(m.to_json()),
            None => None,
        };
        push_optional(&mut members, "thumbnail", thumbnail);
        let video = match &self.video {
            Some(m) => Some(m.to_json()),
            None => None,
        };
        push_optional(&mut members, "video", video);
        let provider = match &self.provider {
            Some(p) => Some(p.to_json()),
            None => None,
        };
        push_optional(&mut members, "provider", provider);
        let author = match &self.author {
            Some(a) => Some(a.to_json()),
            None => None,
        };
        push_optional(&mut members, "author", author);
        assert(texts(members@) =~= embed_members(self@));
        encode_object(&members)
    }
}

/// Appending a field to a non-empty list puts its object last in the array,
/// after a comma, and leaves the objects before it as they were.
pub proof fn field_appended_last(fs: Seq<FieldView>, f: FieldView)
    requires
        fs.len() > 0,
    ensures
        fields_json(fs.push(f)) == fields_json(fs).drop_last() + seq![','] + field_json(f) + seq![
            ']',
        ],
{
    let before = fs.map_values(|g: FieldView| field_json(g));
    let after = fs.push(f).map_values(|g: FieldView| field_json(g));
    assert(after =~= before.push(field_json(f)));
    assert(after.drop_last() =~= before);
    assert(fields_json(fs).drop_last() =~= seq!['['] + join(before));
    assert(fields_json(fs.push(f)) =~= seq!['['] + join(before) + seq![','] + field_json(f)
        + seq![']']);
}

/// Fields appended one after another appear in the array in that order.
pub proof fn fields_in_order(f1: FieldView, f2: FieldView, f3: FieldView)
    ensures
        fields_json(seq![f1, f2, f3]) == seq!['['] + field_json(f1) + seq![','] + field_json(f2)
            + seq![','] + field_json(f3) + seq![']'],
{
    let one = seq![f1];
    let two = one.push(f2);
    assert(one.map_values(|g: FieldView| field_json(g)) =~= seq![field_json(f1)]);
    assert(fields_json(one) =~= seq!['['] + field_json(f1) + seq![']']);
    field_appended_last(one, f2);
    assert(fields_json(two) =~= seq!['['] + field_json(f1) + seq![','] + field_json(f2) + seq![
        ']',
    ]);
    field_appended_last(two, f3);
    assert(two.push(f3) =~= seq![f1, f2, f3]);
    assert(fields_json(seq![f1, f2, f3]) =~= seq!['['] + field_json(f1) + seq![','] + field_json(
        f2,
    ) + seq![','] + field_json(f3) + seq![']']);
}

} // verus!
