//! Embed builders, used to create embeds to send in messages.
//!
//! Each part of an embed (author, footer, image, thumbnail, video, field, provider) has its own
//! builder and an `Into*` trait, so that plain strings can stand in for a full builder.

use vstd::prelude::*;

verus! {

/// An embed builder, used to create embeds to send in messages.
pub struct Embed {
    /// The embed's title.
    pub title: Option<String>,
    /// The embed's description.
    pub description: Option<String>,
    /// The embed's color, as an RGB value.
    pub color: Option<u32>,
    /// The URL the title links to.
    pub url: Option<String>,
    /// The embed's author.
    pub author: Option<EmbedAuthor>,
    /// The embed's footer.
    pub footer: Option<EmbedFooter>,
    /// The embed's image.
    pub image: Option<EmbedImage>,
    /// The embed's thumbnail.
    pub thumbnail: Option<EmbedThumbnail>,
    /// The embed's video.
    pub video: Option<EmbedVideo>,
    /// The embed's fields, in the order they were added.
    pub fields: Vec<EmbedField>,
    /// The embed's timestamp, in microseconds since the Unix epoch.
    pub timestamp: Option<i64>,
    /// The embed's provider.
    pub provider: Option<EmbedProvider>,
}

/// Whether `s` holds a string whose text is `text`.
pub open spec fn holds_text(s: Option<String>, text: Seq<char>) -> bool {
    s matches Some(v) && v@ == text
}

impl Embed {
    /// Creates an empty embed.
    pub fn build() -> (r: Self)
        ensures
            r.title is None,
            r.description is None,
            r.color is None,
            r.url is None,
            r.author is None,
            r.footer is None,
            r.image is None,
            r.thumbnail is None,
            r.video is None,
            r.fields@.len() == 0,
            r.timestamp is None,
            r.provider is None,
    {
        Embed {
            title: None,
            description: None,
            color: None,
            url: None,
            author: None,
            footer: None,
            image: None,
            thumbnail: None,
            video: None,
            fields: Vec::new(),
            timestamp: None,
            provider: None,
        }
    }

    /// Sets the title of the embed.
    pub fn title(self, title: &str) -> (r: Self)
        ensures
            holds_text(r.title, title@),
            r == (Embed { title: r.title, ..self }),
    {
        let mut s = self;
        s.title = Some(title.to_owned());
        s
    }

    /// Sets the description of the embed.
    pub fn description(self, description: &str) -> (r: Self)
        ensures
            holds_text(r.description, description@),
            r == (Embed { description: r.description, ..self }),
    {
        let mut s = self;
        s.description = Some(description.to_owned());
        s
    }

    /// Sets the color of the embed, as an RGB value (`0xFF0000` is red).
    pub fn color(self, color: u32) -> (r: Self)
        ensures
            r == (Embed { color: Some(color), ..self }),
    {
        let mut s = self;
        s.color = Some(color);
        s
    }

    /// Sets the URL the embed's title links to.
    pub fn url(self, url: &str) -> (r: Self)
        ensures
            holds_text(r.url, url@),
            r == (Embed { url: r.url, ..self }),
    {
        let mut s = self;
        s.url = Some(url.to_owned());
        s
    }

    /// Sets the author of the embed, from a builder or from the author's name.
    pub fn author<A: IntoEmbedAuthor>(self, author: A) -> (r: Self)
        ensures
            r.author matches Some(a) && author.converts_to(a),
            r == (Embed { author: r.author, ..self }),
    {
        let mut s = self;
        s.author = Some(author.into_embed_author());
        s
    }

    /// Sets the footer of the embed, from a builder or from the footer's text.
    pub fn footer<F: IntoEmbedFooter>(self, footer: F) -> (r: Self)
        ensures
            r.footer matches Some(f) && footer.converts_to(f),
            r == (Embed { footer: r.footer, ..self }),
    {
        let mut s = self;
        s.footer = Some(footer.into_embed_footer());
        s
    }

    /// Sets the image of the embed, from a builder or from the image's URL.
    pub fn image<I: IntoEmbedImage>(self, image: I) -> (r: Self)
        ensures
            r.image matches Some(i) && image.converts_to(i),
            r == (Embed { image: r.image, ..self }),
    {
        let mut s = self;
        s.image = Some(image.into_embed_image());
        s
    }

    /// Sets the thumbnail of the embed, from a builder or from the thumbnail's URL.
    pub fn thumbnail<T: IntoEmbedThumbnail>(self, thumbnail: T) -> (r: Self)
        ensures
            r.thumbnail matches Some(t) && thumbnail.converts_to(t),
            r == (Embed { thumbnail: r.thumbnail, ..self }),
    {
        let mut s = self;
        s.thumbnail = Some(thumbnail.into_embed_thumbnail());
        s
    }

    /// Sets the video of the embed, from a builder or from the video's URL.
    pub fn video<V: IntoEmbedVideo>(self, video: V) -> (r: Self)
        ensures
            r.video matches Some(v) && video.converts_to(v),
            r == (Embed { video: r.video, ..self }),
    {
        let mut s = self;
        s.video = Some(video.into_embed_video());
        s
    }

    /// Adds a field after the fields already added.
    pub fn field<F: IntoEmbedField>(self, field: F) -> (r: Self)
        ensures
            r.fields@.len() == self.fields@.len() + 1,
            r.fields@.drop_last() == self.fields@,
            field.converts_to(r.fields@.last()),
            r == (Embed { fields: r.fields, ..self }),
    {
        let mut s = self;
        s.fields.push(field.into_embed_field());
        s
    }

    /// Sets the timestamp of the embed, in microseconds since the Unix epoch.
    pub fn timestamp(self, timestamp: i64) -> (r: Self)
        ensures
            r == (Embed { timestamp: Some(timestamp), ..self }),
    {
        let mut s = self;
        s.timestamp = Some(timestamp);
        s
    }

    /// Sets the provider of the embed, from a builder or from the provider's name.
    pub fn provider<P: IntoEmbedProvider>(self, provider: P) -> (r: Self)
        ensures
            r.provider matches Some(p) && provider.converts_to(p),
            r == (Embed { provider: r.provider, ..self }),
    {
        let mut s = self;
        s.provider = Some(provider.into_embed_provider());
        s
    }
}

/// An embed author builder, used to create the author of an embed.
pub struct EmbedAuthor {
    /// The author's name.
    pub name: String,
    /// The URL the author's name links to.
    pub url: Option<String>,
    /// The URL of the author's icon.
    pub icon_url: Option<String>,
    /// The proxied URL of the author's icon.
    pub proxy_icon_url: Option<String>,
}

impl EmbedAuthor {
    /// Creates an author with the given name and nothing else set.
    pub fn new(name: &str) -> (r: Self)
        ensures
            r.name@ == name@,
            r.url is None,
            r.icon_url is None,
            r.proxy_icon_url is None,
    {
        EmbedAuthor { name: name.to_owned(), url: None, icon_url: None, proxy_icon_url: None }
    }

    /// Sets the URL the author's name links to.
    pub fn url(self, url: &str) -> (r: Self)
        ensures
            holds_text(r.url, url@),
            r == (EmbedAuthor { url: r.url, ..self }),
    {
        let mut s = self;
        s.url = Some(url.to_owned());
        s
    }

    /// Sets the URL of the author's icon.
    pub fn icon_url(self, icon_url: &str) -> (r: Self)
        ensures
            holds_text(r.icon_url, icon_url@),
            r == (EmbedAuthor { icon_url: r.icon_url, ..self }),
    {
        let mut s = self;
        s.icon_url = Some(icon_url.to_owned());
        s
    }

    /// Sets the proxied URL of the author's icon.
    pub fn proxy_icon_url(self, proxy_icon_url: &str) -> (r: Self)
        ensures
            holds_text(r.proxy_icon_url, proxy_icon_url@),
            r == (EmbedAuthor { proxy_icon_url: r.proxy_icon_url, ..self }),
    {
        let mut s = self;
        s.proxy_icon_url = Some(proxy_icon_url.to_owned());
        s
    }
}

/// Converts a value into an [`EmbedAuthor`]: a builder stays as it is, a string becomes the
/// author's name.
pub trait IntoEmbedAuthor: Sized {
    /// Whether `author` is what this value converts to.
    spec fn converts_to(&self, author: EmbedAuthor) -> bool;

    /// Converts this value into an [`EmbedAuthor`].
    fn into_embed_author(self) -> (r: EmbedAuthor)
        ensures
            self.converts_to(r),
    ;
}

impl IntoEmbedAuthor for EmbedAuthor {
    open spec fn converts_to(&self, author: EmbedAuthor) -> bool {
        author == *self
    }

    fn into_embed_author(self) -> (r: EmbedAuthor) {
        self
    }
}

impl IntoEmbedAuthor for String {
    open spec fn converts_to(&self, author: EmbedAuthor) -> bool {
        &&& author.name == *self
        &&& author.url is None
        &&& author.icon_url is None
        &&& author.proxy_icon_url is None
    }

    fn into_embed_author(self) -> (r: EmbedAuthor) {
        EmbedAuthor { name: self, url: None, icon_url: None, proxy_icon_url: None }
    }
}

impl<'a> IntoEmbedAuthor for &'a str {
    open spec fn converts_to(&self, author: EmbedAuthor) -> bool {
        &&& author.name@ == self@
        &&& author.url is None
        &&& author.icon_url is None
        &&& author.proxy_icon_url is None
    }

    fn into_embed_author(self) -> (r: EmbedAuthor) {
        EmbedAuthor::new(self)
    }
}

/// An embed footer builder: a short text and an icon at the bottom of an embed.
pub struct EmbedFooter {
    /// The footer's text.
    pub text: String,
    /// The URL of the footer's icon.
    pub icon_url: Option<String>,
    /// The proxied URL of the footer's icon.
    pub proxy_icon_url: Option<String>,
}

impl EmbedFooter {
    /// Creates a footer with the given text and nothing else set.
    pub fn new(text: &str) -> (r: Self)
        ensures
            r.text@ == text@,
            r.icon_url is None,
            r.proxy_icon_url is None,
    {
        EmbedFooter { text: text.to_owned(), icon_url: None, proxy_icon_url: None }
    }

    /// Sets the URL of the footer's icon.
    pub fn icon_url(self, icon_url: &str) -> (r: Self)
        ensures
            holds_text(r.icon_url, icon_url@),
            r == (EmbedFooter { icon_url: r.icon_url, ..self }),
    {
        let mut s = self;
        s.icon_url = Some(icon_url.to_owned());
        s
    }

    /// Sets the proxied URL of the footer's icon.
    pub fn proxy_icon_url(self, proxy_icon_url: &str) -> (r: Self)
        ensures
            holds_text(r.proxy_icon_url, proxy_icon_url@),
            r == (EmbedFooter { proxy_icon_url: r.proxy_icon_url, ..self }),
    {
        let mut s = self;
        s.proxy_icon_url = Some(proxy_icon_url.to_owned());
        s
    }
}

/// Converts a value into an [`EmbedFooter`]: a builder stays as it is, a string becomes the
/// footer's text.
pub trait IntoEmbedFooter: Sized {
    /// Whether `r` is what this value converts to.
    spec fn converts_to(&self, r: EmbedFooter) -> bool;

    /// Converts this value into an [`EmbedFooter`].
    fn into_embed_footer(self) -> (r: EmbedFooter)
        ensures
            self.converts_to(r),
    ;
}

impl IntoEmbedFooter for EmbedFooter {
    open spec fn converts_to(&self, r: EmbedFooter) -> bool {
        r == *self
    }

    fn into_embed_footer(self) -> (r: EmbedFooter) {
        self
    }
}

impl IntoEmbedFooter for String {
    open spec fn converts_to(&self, r: EmbedFooter) -> bool {
        &&& r.text == *self
        &&& r.icon_url is None
        &&& r.proxy_icon_url is None
    }

    fn into_embed_footer(self) -> (r: EmbedFooter) {
        EmbedFooter { text: self, icon_url: None, proxy_icon_url: None }
    }
}

impl<'a> IntoEmbedFooter for &'a str {
    open spec fn converts_to(&self, r: EmbedFooter) -> bool {
        &&& r.text@ == self@
        &&& r.icon_url is None
        &&& r.proxy_icon_url is None
    }

    fn into_embed_footer(self) -> (r: EmbedFooter) {
        EmbedFooter::new(self)
    }
}

/// An embed image builder: a large image shown in an embed.
pub struct EmbedImage {
    /// The URL of the image.
    pub url: String,
    /// The proxied URL of the image.
    pub proxy_url: Option<String>,
    /// The height of the image, in pixels.
    pub height: Option<u64>,
    /// The width of the image, in pixels.
    pub width: Option<u64>,
}

impl EmbedImage {
    /// Creates a image with the given URL and nothing else set.
    pub fn new(url: &str) -> (r: Self)
        ensures
            r.url@ == url@,
            r.proxy_url is None,
            r.height is None,
            r.width is None,
    {
        EmbedImage { url: url.to_owned(), proxy_url: None, height: None, width: None }
    }

    /// Sets the proxied URL of the image.
    pub fn proxy_url(self, proxy_url: &str) -> (r: Self)
        ensures
            holds_text(r.proxy_url, proxy_url@),
            r == (EmbedImage { proxy_url: r.proxy_url, ..self }),
    {
        let mut s = self;
        s.proxy_url = Some(proxy_url.to_owned());
        s
    }

    /// Sets the height of the image, in pixels.
    pub fn height(self, height: u64) -> (r: Self)
        ensures
            r == (EmbedImage { height: Some(height), ..self }),
    {
        let mut s = self;
        s.height = Some(height);
        s
    }

    /// Sets the width of the image, in pixels.
    pub fn width(self, width: u64) -> (r: Self)
        ensures
            r == (EmbedImage { width: Some(width), ..self }),
    {
        let mut s = self;
        s.width = Some(width);
        s
    }
}

/// Converts a value into an [`EmbedImage`]: a builder stays as it is, a string becomes the
/// image's URL.
pub trait IntoEmbedImage: Sized {
    /// Whether `r` is what this value converts to.
    spec fn converts_to(&self, r: EmbedImage) -> bool;

    /// Converts this value into an [`EmbedImage`].
    fn into_embed_image(self) -> (r: EmbedImage)
        ensures
            self.converts_to(r),
    ;
}

impl IntoEmbedImage for EmbedImage {
    open spec fn converts_to(&self, r: EmbedImage) -> bool {
        r == *self
    }

    fn into_embed_image(self) -> (r: EmbedImage) {
        self
    }
}

impl IntoEmbedImage for String {
    open spec fn converts_to(&self, r: EmbedImage) -> bool {
        &&& r.url == *self
        &&& r.proxy_url is None
        &&& r.height is None
        &&& r.width is None
    }

    fn into_embed_image(self) -> (r: EmbedImage) {
        EmbedImage { url: self, proxy_url: None, height: None, width: None }
    }
}

impl<'a> IntoEmbedImage for &'a str {
    open spec fn converts_to(&self, r: EmbedImage) -> bool {
        &&& r.url@ == self@
        &&& r.proxy_url is None
        &&& r.height is None
        &&& r.width is None
    }

    fn into_embed_image(self) -> (r: EmbedImage) {
        EmbedImage::new(self)
    }
}

/// An embed thumbnail builder: a small image in the top right corner of an embed.
pub struct EmbedThumbnail {
    /// The URL of the thumbnail.
    pub url: String,
    /// The proxied URL of the thumbnail.
    pub proxy_url: Option<String>,
    /// The height of the thumbnail, in pixels.
    pub height: Option<u64>,
    /// The width of the thumbnail, in pixels.
    pub width: Option<u64>,
}

impl EmbedThumbnail {
    /// Creates a thumbnail with the given URL and nothing else set.
    pub fn new(url: &str) -> (r: Self)
        ensures
            r.url@ == url@,
            r.proxy_url is None,
            r.height is None,
            r.width is None,
    {
        EmbedThumbnail { url: url.to_owned(), proxy_url: None, height: None, width: None }
    }

    /// Sets the proxied URL of the thumbnail.
    pub fn proxy_url(self, proxy_url: &str) -> (r: Self)
        ensures
            holds_text(r.proxy_url, proxy_url@),
            r == (EmbedThumbnail { proxy_url: r.proxy_url, ..self }),
    {
        let mut s = self;
        s.proxy_url = Some(proxy_url.to_owned());
        s
    }

    /// Sets the height of the thumbnail, in pixels.
    pub fn height(self, height: u64) -> (r: Self)
        ensures
            r == (EmbedThumbnail { height: Some(height), ..self }),
    {
        let mut s = self;
        s.height = Some(height);
        s
    }

    /// Sets the width of the thumbnail, in pixels.
    pub fn width(self, width: u64) -> (r: Self)
        ensures
            r == (EmbedThumbnail { width: Some(width), ..self }),
    {
        let mut s = self;
        s.width = Some(width);
        s
    }
}

/// Converts a value into an [`EmbedThumbnail`]: a builder stays as it is, a string becomes the
/// thumbnail's URL.
pub trait IntoEmbedThumbnail: Sized {
    /// Whether `r` is what this value converts to.
    spec fn converts_to(&self, r: EmbedThumbnail) -> bool;

    /// Converts this value into an [`EmbedThumbnail`].
    fn into_embed_thumbnail(self) -> (r: EmbedThumbnail)
        ensures
            self.converts_to(r),
    ;
}

impl IntoEmbedThumbnail for EmbedThumbnail {
    open spec fn converts_to(&self, r: EmbedThumbnail) -> bool {
        r == *self
    }

    fn into_embed_thumbnail(self) -> (r: EmbedThumbnail) {
        self
    }
}

impl IntoEmbedThumbnail for String {
    open spec fn converts_to(&self, r: EmbedThumbnail) -> bool {
        &&& r.url == *self
        &&& r.proxy_url is None
        &&& r.height is None
        &&& r.width is None
    }

    fn into_embed_thumbnail(self) -> (r: EmbedThumbnail) {
        EmbedThumbnail { url: self, proxy_url: None, height: None, width: None }
    }
}

impl<'a> IntoEmbedThumbnail for &'a str {
    open spec fn converts_to(&self, r: EmbedThumbnail) -> bool {
        &&& r.url@ == self@
        &&& r.proxy_url is None
        &&& r.height is None
        &&& r.width is None
    }

    fn into_embed_thumbnail(self) -> (r: EmbedThumbnail) {
        EmbedThumbnail::new(self)
    }
}

/// An embed video builder: a video shown in an embed.
pub struct EmbedVideo {
    /// The URL of the video.
    pub url: String,
    /// The proxied URL of the video.
    pub proxy_url: Option<String>,
    /// The height of the video, in pixels.
    pub height: Option<u64>,
    /// The width of the video, in pixels.
    pub width: Option<u64>,
}

impl EmbedVideo {
    /// Creates a video with the given URL and nothing else set.
    pub fn new(url: &str) -> (r: Self)
        ensures
            r.url@ == url@,
            r.proxy_url is None,
            r.height is None,
            r.width is None,
    {
        EmbedVideo { url: url.to_owned(), proxy_url: None, height: None, width: None }
    }

    /// Sets the proxied URL of the video.
    pub fn proxy_url(self, proxy_url: &str) -> (r: Self)
        ensures
            holds_text(r.proxy_url, proxy_url@),
            r == (EmbedVideo { proxy_url: r.proxy_url, ..self }),
    {
        let mut s = self;
        s.proxy_url = Some(proxy_url.to_owned());
        s
    }

    /// Sets the height of the video, in pixels.
    pub fn height(self, height: u64) -> (r: Self)
        ensures
            r == (EmbedVideo { height: Some(height), ..self }),
    {
        let mut s = self;
        s.height = Some(height);
        s
    }

    /// Sets the width of the video, in pixels.
    pub fn width(self, width: u64) -> (r: Self)
        ensures
            r == (EmbedVideo { width: Some(width), ..self }),
    {
        let mut s = self;
        s.width = Some(width);
        s
    }
}

/// Converts a value into an [`EmbedVideo`]: a builder stays as it is, a string becomes the
/// video's URL.
pub trait IntoEmbedVideo: Sized {
    /// Whether `r` is what this value converts to.
    spec fn converts_to(&self, r: EmbedVideo) -> bool;

    /// Converts this value into an [`EmbedVideo`].
    fn into_embed_video(self) -> (r: EmbedVideo)
        ensures
            self.converts_to(r),
    ;
}

impl IntoEmbedVideo for EmbedVideo {
    open spec fn converts_to(&self, r: EmbedVideo) -> bool {
        r == *self
    }

    fn into_embed_video(self) -> (r: EmbedVideo) {
        self
    }
}

impl IntoEmbedVideo for String {
    open spec fn converts_to(&self, r: EmbedVideo) -> bool {
        &&& r.url == *self
        &&& r.proxy_url is None
        &&& r.height is None
        &&& r.width is None
    }

    fn into_embed_video(self) -> (r: EmbedVideo) {
        EmbedVideo { url: self, proxy_url: None, height: None, width: None }
    }
}

impl<'a> IntoEmbedVideo for &'a str {
    open spec fn converts_to(&self, r: EmbedVideo) -> bool {
        &&& r.url@ == self@
        &&& r.proxy_url is None
        &&& r.height is None
        &&& r.width is None
    }

    fn into_embed_video(self) -> (r: EmbedVideo) {
        EmbedVideo::new(self)
    }
}

/// An embed field builder: a name and a value shown in the body of an embed.
pub struct EmbedField {
    /// The field's name.
    pub name: String,
    /// The field's value.
    pub value: String,
    /// Whether the field is shown inline with other fields.
    pub is_inline: bool,
}

impl EmbedField {
    /// Creates a field with the given name and value, not inline.
    pub fn new(name: &str, value: &str) -> (r: Self)
        ensures
            r.name@ == name@,
            r.value@ == value@,
            !r.is_inline,
    {
        EmbedField { name: name.to_owned(), value: value.to_owned(), is_inline: false }
    }

    /// Sets whether the field is shown inline with other fields.
    pub fn inline(self, is_inline: bool) -> (r: Self)
        ensures
            r == (EmbedField { is_inline, ..self }),
    {
        let mut s = self;
        s.is_inline = is_inline;
        s
    }
}

/// Converts a value into an [`EmbedField`].
pub trait IntoEmbedField: Sized {
    /// Whether `r` is what this value converts to.
    spec fn converts_to(&self, r: EmbedField) -> bool;

    /// Converts this value into an [`EmbedField`].
    fn into_embed_field(self) -> (r: EmbedField)
        ensures
            self.converts_to(r),
    ;
}

impl IntoEmbedField for EmbedField {
    open spec fn converts_to(&self, r: EmbedField) -> bool {
        r == *self
    }

    fn into_embed_field(self) -> (r: EmbedField) {
        self
    }
}

/// An embed provider builder: the name of the service that provided an embed's content.
pub struct EmbedProvider {
    /// The provider's name.
    pub name: String,
    /// The URL the provider's name links to.
    pub url: Option<String>,
}

impl EmbedProvider {
    /// Creates a provider with the given name and no URL.
    pub fn new(name: &str) -> (r: Self)
        ensures
            r.name@ == name@,
            r.url is None,
    {
        EmbedProvider { name: name.to_owned(), url: None }
    }

    /// Sets the URL the provider's name links to.
    pub fn url(self, url: &str) -> (r: Self)
        ensures
            holds_text(r.url, url@),
            r == (EmbedProvider { url: r.url, ..self }),
    {
        let mut s = self;
        s.url = Some(url.to_owned());
        s
    }
}

/// Converts a value into an [`EmbedProvider`]: a builder stays as it is, a string becomes the
/// provider's name.
pub trait IntoEmbedProvider: Sized {
    /// Whether `r` is what this value converts to.
    spec fn converts_to(&self, r: EmbedProvider) -> bool;

    /// Converts this value into an [`EmbedProvider`].
    fn into_embed_provider(self) -> (r: EmbedProvider)
        ensures
            self.converts_to(r),
    ;
}

impl IntoEmbedProvider for EmbedProvider {
    open spec fn converts_to(&self, r: EmbedProvider) -> bool {
        r == *self
    }

    fn into_embed_provider(self) -> (r: EmbedProvider) {
        self
    }
}

impl IntoEmbedProvider for String {
    open spec fn converts_to(&self, r: EmbedProvider) -> bool {
        &&& r.name == *self
        &&& r.url is None
    }

    fn into_embed_provider(self) -> (r: EmbedProvider) {
        EmbedProvider { name: self, url: None }
    }
}

impl<'a> IntoEmbedProvider for &'a str {
    open spec fn converts_to(&self, r: EmbedProvider) -> bool {
        &&& r.name@ == self@
        &&& r.url is None
    }

    fn into_embed_provider(self) -> (r: EmbedProvider) {
        EmbedProvider::new(self)
    }
}

} // verus!
