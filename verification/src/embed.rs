//! Rich embeds as a message carries them.

use vstd::prelude::*;
use vstd::std_specs::convert::IntoSpec;

verus! {

/// A colour, as a 24-bit RGB value.
#[derive(Clone, Copy, Debug, PartialEq, Eq, Hash, Structural)]
pub struct Colour(pub u32);

/// A rich embed: titled, structured content shown with a message.
#[derive(Clone, Debug, PartialEq)]
pub struct Embed {
    /// Information about the author of the embed.
    pub author: Option<EmbedAuthor>,
    /// The colour code of the embed.
    pub colour: Colour,
    /// The description of the embed.
    pub description: Option<String>,
    /// The fields of the embed, in order.
    pub fields: Vec<EmbedField>,
    /// Footer information for the embed.
    pub footer: Option<EmbedFooter>,
    /// Image information of the embed.
    pub image: Option<EmbedImage>,
    /// The type of the embed; "rich" for embeds that users make.
    pub kind: String,
    /// Provider information for the embed.
    pub provider: Option<EmbedProvider>,
    /// Thumbnail information of the embed.
    pub thumbnail: Option<EmbedThumbnail>,
    /// Timestamp information.
    pub timestamp: Option<String>,
    /// The title of the embed.
    pub title: Option<String>,
    /// The URL of the embed.
    pub url: Option<String>,
    /// The video of the embed, where its type is "video".
    pub video: Option<EmbedVideo>,
}

/// An author object in an embed.
#[derive(Clone, Debug, PartialEq)]
pub struct EmbedAuthor {
    /// The URL of the author icon.
    pub icon_url: Option<String>,
    /// The name of the author.
    pub name: String,
    /// A proxied URL of the author icon.
    pub proxy_icon_url: Option<String>,
    /// The URL of the author.
    pub url: Option<String>,
}

/// A field object in an embed.
#[derive(Clone, Debug, PartialEq)]
pub struct EmbedField {
    /// Whether the field is shown inline.
    pub inline: bool,
    /// The name of the field.
    pub name: String,
    /// The value of the field.
    pub value: String,
}

impl EmbedField {
    /// Creates a new embed field from anything that converts into its name
    /// and its value: the name and the value are what the conversions give.
    pub fn new<T, U>(name: T, value: U, inline: bool) -> (r: Self) where
        T: Into<String>,
        U: Into<String>,

        ensures
            r.inline == inline,
            call_ensures(T::into, (name,), r.name),
            call_ensures(U::into, (value,), r.value),
            T::obeys_into_spec() ==> r.name == name.into_spec(),
            U::obeys_into_spec() ==> r.value == value.into_spec(),
    {
        Self::_new(name.into(), value.into(), inline)
    }

    /// Creates a new embed field with the given name and value.
    pub fn _new(name: String, value: String, inline: bool) -> (r: Self)
        ensures
            r == (EmbedField { inline, name, value }),
    {
        Self { inline, name, value }
    }
}

/// Footer information for an embed.
#[derive(Clone, Debug, PartialEq)]
pub struct EmbedFooter {
    /// The URL of the footer icon.
    pub icon_url: Option<String>,
    /// A proxied URL of the footer icon.
    pub proxy_icon_url: Option<String>,
    /// The text of the footer.
    pub text: String,
}

/// An image object in an embed.
#[derive(Clone, Debug, PartialEq)]
pub struct EmbedImage {
    /// The height of the image.
    pub height: u64,
    /// A proxied URL of the image.
    pub proxy_url: String,
    /// Source URL of the image.
    pub url: String,
    /// The width of the image.
    pub width: u64,
}

/// The provider of an embed.
#[derive(Clone, Debug, PartialEq)]
pub struct EmbedProvider {
    /// The name of the provider.
    pub name: String,
    /// The URL of the provider.
    pub url: Option<String>,
}

/// The dimensions and URL of an embed thumbnail.
#[derive(Clone, Debug, PartialEq)]
pub struct EmbedThumbnail {
    /// The height of the thumbnail in pixels.
    pub height: u64,
    /// A proxied URL of the thumbnail.
    pub proxy_url: String,
    /// The source URL of the thumbnail.
    pub url: String,
    /// The width of the thumbnail in pixels.
    pub width: u64,
}

/// Video information for an embed.
#[derive(Clone, Debug, PartialEq)]
pub struct EmbedVideo {
    /// The height of the video in pixels.
    pub height: u64,
    /// The source URL of the video.
    pub url: String,
    /// The width of the video in pixels.
    pub width: u64,
}

} // verus!
