use vstd::prelude::*;
use vstd::string::StringExecFns;

use crate::api::{
    author_json, boolean_opt, decimal_opt, embed_members, fields_json, footer_json, media_json,
    provider_json, embed_json, quoted_opt, Author, AuthorView, Embed, EmbedView, Field, FieldView, Footer,
    FooterView, Image, MediaView, Provider, ProviderView, Thumbnail, Video,
};
use crate::json::{
    boolean, decimal, optional, array, encode_array, encode_member, encode_object, json_quoted, member, object, quote, texts,
};

verus! {

/// The HTTP client of reqwest, which carries the requests out.
#[verifier::external_type_specification]
#[verifier::external_body]
pub struct ExHttpClient(reqwest::Client);

/// The attributes of an embed that set its look.
#[derive(Clone)]
pub struct LooksConfig {
    pub timestamp: Option<bool>,
    pub color: Option<u32>,
    pub footer: Option<Footer>,
    pub author: Option<Author>,
}

/// The attributes of an embed that attach media to it.
#[derive(Clone)]
pub struct MediaConfig {
    pub image: Option<Image>,
    pub thumbnail: Option<Thumbnail>,
    pub video: Option<Video>,
    pub provider: Option<Provider>,
}

/// What a looks bundle holds.
pub struct LooksView {
    pub timestamp: Option<bool>,
    pub color: Option<u32>,
    pub footer: Option<FooterView>,
    pub author: Option<AuthorView>,
}

/// What a media bundle holds.
pub struct MediaConfigView {
    pub image: Option<MediaView>,
    pub thumbnail: Option<MediaView>,
    pub video: Option<MediaView>,
    pub provider: Option<ProviderView>,
}

impl View for LooksConfig {
    type V = LooksView;

    open spec fn view(&self) -> LooksView {
        LooksView {
            timestamp: self.timestamp,
            color: self.color,
            footer: self.footer.deep_view(),
            author: self.author.deep_view(),
        }
    }
}

impl View for MediaConfig {
    type V = MediaConfigView;

    open spec fn view(&self) -> MediaConfigView {
        MediaConfigView {
            image: self.image.deep_view(),
            thumbnail: self.thumbnail.deep_view(),
            video: self.video.deep_view(),
            provider: self.provider.deep_view(),
        }
    }
}

impl Default for LooksConfig {
    /// Every attribute absent.
    fn default() -> (r: LooksConfig)
        ensures
            r@ == (LooksView { timestamp: None, color: None, footer: None, author: None }),
    {
        LooksConfig { timestamp: None, color: None, footer: None, author: None }
    }
}

impl Default for MediaConfig {
    /// Every attribute absent.
    fn default() -> (r: MediaConfig)
        ensures
            r@ == (MediaConfigView { image: None, thumbnail: None, video: None, provider: None }),
    {
        MediaConfig { image: None, thumbnail: None, video: None, provider: None }
    }
}

/// The webhook client: where to send, as whom, and the embeds gathered so far.
pub struct WebhookClient {
    /// HTTP client that carries out the requests to the Discord API
    pub client: reqwest::Client,
    /// The webhook URL, including its ID and token
    pub hook_url: String,
    /// The avatar URL that overrides the webhook's own
    pub avatar_url: Option<String>,
    /// The user name that overrides the webhook's own
    pub username: Option<String>,
    /// The embeds gathered so far, in the order they were added
    pub embeds: Vec<Embed>,
}

/// What a webhook client holds, apart from its HTTP client.
pub struct ClientView {
    pub hook_url: Seq<char>,
    pub avatar_url: Option<Seq<char>>,
    pub username: Option<Seq<char>>,
    pub embeds: Seq<EmbedView>,
}

impl View for WebhookClient {
    type V = ClientView;

    open spec fn view(&self) -> ClientView {
        ClientView {
            hook_url: self.hook_url@,
            avatar_url: self.avatar_url.deep_view(),
            username: self.username.deep_view(),
            embeds: self.embeds.deep_view(),
        }
    }
}

/// The HTTP method of a request to the webhook.
#[derive(Clone, Copy, Debug, PartialEq, Eq, Structural)]
pub enum Method {
    Post,
    Delete,
}

/// A request to the webhook: its method, its URL and, for a message, its JSON body.
#[derive(Clone, Debug)]
pub struct Request {
    pub method: Method,
    pub url: String,
    /// The body, sent with `Content-Type: application/json`; none for a deletion
    pub body: Option<String>,
}

/// The embed that holds only a title, a description and fields.
pub open spec fn plain_embed(
    title: Seq<char>,
    description: Option<Seq<char>>,
    fields: Seq<FieldView>,
) -> EmbedView {
    EmbedView {
        title,
        description,
        fields,
        timestamp: None,
        color: None,
        footer: None,
        image: None,
        thumbnail: None,
        video: None,
        provider: None,
        author: None,
    }
}

/// The embed made of a title, a description, fields and the two attribute bundles.
pub open spec fn parts_embed(
    title: Seq<char>,
    description: Option<Seq<char>>,
    fields: Seq<FieldView>,
    looks: LooksView,
    media: MediaConfigView,
) -> EmbedView {
    EmbedView {
        title,
        description,
        fields,
        timestamp: looks.timestamp,
        color: looks.color,
        footer: looks.footer,
        image: media.image,
        thumbnail: media.thumbnail,
        video: media.video,
        provider: media.provider,
        author: looks.author,
    }
}

/// The client state with one more embed at the end.
pub open spec fn with_embed(c: ClientView, e: EmbedView) -> ClientView {
    ClientView { embeds: c.embeds.push(e), ..c }
}

/// A JSON text, or `null` where there is none.
pub open spec fn nullable(v: Option<Seq<char>>) -> Seq<char> {
    match v {
        Some(t) => t,
        None => "null"@,
    }
}

/// The JSON array of the embeds, in their order.
pub open spec fn embeds_json(es: Seq<EmbedView>) -> Seq<char> {
    array(es.map_values(|e: EmbedView| embed_json(e)))
}

/// The body of a message:
/// `{"avatar_url":..,"username":..,"embeds":[..],"content":..}`,
/// where an absent avatar URL or user name is `null`.
pub open spec fn message_json(c: ClientView, content: Seq<char>) -> Seq<char> {
    object(
        seq![
            member("avatar_url"@, nullable(quoted_opt(c.avatar_url))),
            member("username"@, nullable(quoted_opt(c.username))),
            member("embeds"@, embeds_json(c.embeds)),
            member("content"@, json_quoted(content)),
        ],
    )
}

/// A JSON string literal, or `null` where there is no text.
fn quote_or_null(s: &Option<String>) -> (r: String)
    ensures
        r@ == nullable(quoted_opt(s.deep_view())),
{
    match s {
        Some(t) => quote(t.as_str()),
        None => String::from_str("null"),
    }
}

impl WebhookClient {
    /// Creates a client; nothing is sent.
    pub fn new(
        client: reqwest::Client,
        hook_url: String,
        avatar_url: Option<String>,
        username: Option<String>,
        embeds: Vec<Embed>,
    ) -> (r: WebhookClient)
        ensures
            r.client == client,
            r@ == (ClientView {
                hook_url: hook_url@,
                avatar_url: avatar_url.deep_view(),
                username: username.deep_view(),
                embeds: embeds.deep_view(),
            }),
    {
        WebhookClient { client, hook_url, avatar_url, username, embeds }
    }

    /// Appends an embed made of a title, a description and fields; every other
    /// attribute of it is absent.
    pub fn add_embed(&mut self, title: String, description: Option<String>, fields: Vec<Field>)
        ensures
            final(self).client == old(self).client,
            final(self)@ == with_embed(
                old(self)@,
                plain_embed(title@, description.deep_view(), fields.deep_view()),
            ),
    {
        let embed = Embed {
            title,
            description,
            fields,
            timestamp: None,
            color: None,
            footer: None,
            image: None,
            thumbnail: None,
            video: None,
            provider: None,
            author: None,
        };
        self.embeds.push(embed);
        assert(self.embeds.deep_view() =~= old(self).embeds.deep_view().push(embed@));
    }

    /// Appends an embed made of a title, a description, fields, its look
    /// (timestamp, colour, footer, author) and its media (image, thumbnail,
    /// video, provider).
    pub fn add_embed_from_parts(
        &mut self,
        title: String,
        description: Option<String>,
        fields: Vec<Field>,
        looks: LooksConfig,
        media: MediaConfig,
    )
        ensures
            final(self).client == old(self).client,
            final(self)@ == with_embed(
                old(self)@,
                parts_embed(title@, description.deep_view(), fields.deep_view(), looks@, media@),
            ),
    {
        let embed = Embed {
            title,
            description,
            fields,
            timestamp: looks.timestamp,
            color: looks.color,
            footer: looks.footer,
            image: media.image,
            thumbnail: media.thumbnail,
            video: media.video,
            provider: media.provider,
            author: looks.author,
        };
        self.embeds.push(embed);
        assert(self.embeds.deep_view() =~= old(self).embeds.deep_view().push(embed@));
    }

    /// The JSON body of a message with content `message`: the avatar URL, the
    /// user name, every embed gathered so far and the content.
    pub fn message_body(&self, message: &str) -> (r: String)
        ensures
            r@ == message_json(self@, message@),
    {
        let mut items: Vec<String> = Vec::new();
        let mut i: usize = 0;
        while i < self.embeds.len()
            invariant
                i <= self.embeds.len(),
                texts(items@) =~= self.embeds.deep_view().take(i as int).map_values(
                    |e: EmbedView| embed_json(e),
                ),
            decreases self.embeds.len() - i,
        {
            let ghost before = texts(items@);
            items.push(self.embeds[i].to_json());
            proof {
                let all = self.embeds.deep_view();
                assert(all[i as int] == self.embeds@[i as int]@);
                assert(all.take(i + 1) =~= all.take(i as int).push(self.embeds@[i as int]@));
                assert(texts(items@) =~= before.push(embed_json(self.embeds@[i as int]@)));
            }
            i += 1;
        }
        assert(self.embeds.deep_view().take(self.embeds@.len() as int)
            =~= self.embeds.deep_view());
        let mut members: Vec<String> = Vec::new();
        members.push(encode_member("avatar_url", quote_or_null(&self.avatar_url)));
        members.push(encode_member("username", quote_or_null(&self.username)));
        members.push(encode_member("embeds", encode_array(&items)));
        members.push(encode_member("content", quote(message)));
        assert(texts(members@) =~= seq![
            member("avatar_url"@, nullable(quoted_opt(self@.avatar_url))),
            member("username"@, nullable(quoted_opt(self@.username))),
            member("embeds"@, embeds_json(self@.embeds)),
            member("content"@, json_quoted(message@)),
        ]);
        encode_object(&members)
    }

    /// The one request that sends a message with content `message`: a POST
    /// to the webhook URL whose JSON body holds every embed gathered so far.
    pub fn message_request(&self, message: &str) -> (r: Request)
        ensures
            r.method == Method::Post,
            r.url@ == self.hook_url@,
            r.body.deep_view() == Some(message_json(self@, message@)),
    {
        Request { method: Method::Post, url: self.hook_url.clone(), body: Some(self.message_body(message)) }
    }

    /// The one request that deletes the webhook: a DELETE to the webhook URL
    /// without a body. The embeds gathered so far stay as they are.
    pub fn delete_request(&self) -> (r: Request)
        ensures
            r.method == Method::Delete,
            r.url@ == self.hook_url@,
            r.body is None,
    {
        Request { method: Method::Delete, url: self.hook_url.clone(), body: None }
    }
}

/// An embed added with only a title, a description and fields encodes to
/// exactly those members: no other key appears, not even as `null`.
pub proof fn plain_embed_omits_the_rest(
    title: Seq<char>,
    description: Option<Seq<char>>,
    fields: Seq<FieldView>,
)
    ensures
        embed_json(plain_embed(title, description, fields)) == object(
            seq![member("title"@, json_quoted(title))] + optional(
                "description"@,
                quoted_opt(description),
            ) + seq![member("fields"@, fields_json(fields))],
        ),
{
    let e = plain_embed(title, description, fields);
    assert(embed_members(e) =~= seq![member("title"@, json_quoted(title))] + optional(
        "description"@,
        quoted_opt(description),
    ) + seq![member("fields"@, fields_json(fields))]);
}

/// An embed added from parts is the embed with each attribute given
/// directly: the two bundles only group arguments. Each attribute that is set
/// appears among its members, under its own key.
pub proof fn parts_embed_is_flat(
    title: Seq<char>,
    description: Option<Seq<char>>,
    fields: Seq<FieldView>,
    looks: LooksView,
    media: MediaConfigView,
)
    ensures
        parts_embed(title, description, fields, looks, media) == (EmbedView {
            title,
            description,
            fields,
            timestamp: looks.timestamp,
            color: looks.color,
            footer: looks.footer,
            image: media.image,
            thumbnail: media.thumbnail,
            video: media.video,
            provider: media.provider,
            author: looks.author,
        }),
        ({
            let ms = embed_members(parts_embed(title, description, fields, looks, media));
            &&& ms.contains(member("title"@, json_quoted(title)))
            &&& ms.contains(member("fields"@, fields_json(fields)))
            &&& description matches Some(d) ==> ms.contains(member("description"@, json_quoted(d)))
            &&& looks.timestamp matches Some(t) ==> ms.contains(member("timestamp"@, boolean(t)))
            &&& looks.color matches Some(c) ==> ms.contains(member("color"@, decimal(c as nat)))
            &&& looks.footer matches Some(f) ==> ms.contains(member("footer"@, footer_json(f)))
            &&& media.image matches Some(m) ==> ms.contains(member("image"@, media_json(m)))
            &&& media.thumbnail matches Some(m) ==> ms.contains(
                member("thumbnail"@, media_json(m)),
            )
            &&& media.video matches Some(m) ==> ms.contains(member("video"@, media_json(m)))
            &&& media.provider matches Some(p) ==> ms.contains(
                member("provider"@, provider_json(p)),
            )
            &&& looks.author matches Some(a) ==> ms.contains(member("author"@, author_json(a)))
        }),
{
    let e = parts_embed(title, description, fields, looks, media);
    let ms = embed_members(e);
    let o_desc = optional("description"@, quoted_opt(e.description));
    let o_time = optional("timestamp"@, boolean_opt(e.timestamp));
    let o_color = optional("color"@, decimal_opt(e.color));
    let o_footer = optional(
        "footer"@,
        match e.footer { Some(f) => Some(footer_json(f)), None => None },
    );
    let o_image = optional("image"@, match e.image { Some(m) => Some(media_json(m)), None => None });
    let o_thumb = optional(
        "thumbnail"@,
        match e.thumbnail { Some(m) => Some(media_json(m)), None => None },
    );
    let o_video = optional("video"@, match e.video { Some(m) => Some(media_json(m)), None => None });
    let o_prov = optional(
        "provider"@,
        match e.provider { Some(p) => Some(provider_json(p)), None => None },
    );
    let o_auth = optional(
        "author"@,
        match e.author { Some(a) => Some(author_json(a)), None => None },
    );
    let m_title = seq![member("title"@, json_quoted(title))];
    let m_fields = seq![member("fields"@, fields_json(fields))];
    assert(ms == m_title + o_desc + m_fields + o_time + o_color + o_footer + o_image + o_thumb
        + o_video + o_prov + o_auth);
    broadcast use vstd::seq_lib::lemma_seq_concat_contains_all_elements;

    assert(m_title[0] == member("title"@, json_quoted(title)));
    assert(m_fields[0] == member("fields"@, fields_json(fields)));
    assert(o_desc.len() > 0 ==> o_desc.contains(o_desc[0]));
    assert(o_time.len() > 0 ==> o_time.contains(o_time[0]));
    assert(o_color.len() > 0 ==> o_color.contains(o_color[0]));
    assert(o_footer.len() > 0 ==> o_footer.contains(o_footer[0]));
    assert(o_image.len() > 0 ==> o_image.contains(o_image[0]));
    assert(o_thumb.len() > 0 ==> o_thumb.contains(o_thumb[0]));
    assert(o_video.len() > 0 ==> o_video.contains(o_video[0]));
    assert(o_prov.len() > 0 ==> o_prov.contains(o_prov[0]));
    assert(o_auth.len() > 0 ==> o_auth.contains(o_auth[0]));
}

/// Two clients built from inputs that hold the same values, even in distinct
/// objects, send the same bytes for the same message, to the same URL.
pub proof fn construction_is_repeatable(
    hook_a: String,
    avatar_a: Option<String>,
    username_a: Option<String>,
    embeds_a: Vec<Embed>,
    hook_b: String,
    avatar_b: Option<String>,
    username_b: Option<String>,
    embeds_b: Vec<Embed>,
    message: Seq<char>,
)
    requires
        hook_a@ == hook_b@,
        avatar_a.deep_view() == avatar_b.deep_view(),
        username_a.deep_view() == username_b.deep_view(),
        embeds_a.deep_view() == embeds_b.deep_view(),
    ensures
        ({
            let a = ClientView {
                hook_url: hook_a@,
                avatar_url: avatar_a.deep_view(),
                username: username_a.deep_view(),
                embeds: embeds_a.deep_view(),
            };
            let b = ClientView {
                hook_url: hook_b@,
                avatar_url: avatar_b.deep_view(),
                username: username_b.deep_view(),
                embeds: embeds_b.deep_view(),
            };
            a.hook_url == b.hook_url && message_json(a, message) == message_json(b, message)
        }),
{
}

/// Two embeds added one after the other both travel in one message body, in
/// the order they were added, after the embeds that were there before.
pub proof fn embeds_accumulate(c: ClientView, e1: EmbedView, e2: EmbedView, message: Seq<char>)
    ensures
        message_json(with_embed(with_embed(c, e1), e2), message) == object(
            seq![
                member("avatar_url"@, nullable(quoted_opt(c.avatar_url))),
                member("username"@, nullable(quoted_opt(c.username))),
                member(
                    "embeds"@,
                    array(
                        c.embeds.map_values(|e: EmbedView| embed_json(e)) + seq![
                            embed_json(e1),
                            embed_json(e2),
                        ],
                    ),
                ),
                member("content"@, json_quoted(message)),
            ],
        ),
{
    let after = with_embed(with_embed(c, e1), e2);
    assert(after.embeds.map_values(|e: EmbedView| embed_json(e)) =~= c.embeds.map_values(
        |e: EmbedView| embed_json(e),
    ) + seq![embed_json(e1), embed_json(e2)]);
}

} // verus!
