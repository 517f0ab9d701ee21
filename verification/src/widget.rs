use vstd::prelude::*;
use crate::decimal::{decimal, push_decimal};
use crate::id::GuildId;

verus! {

/// The look of a guild's widget image.
#[derive(Clone, Copy, Debug, PartialEq, Eq, Structural, Hash)]
#[non_exhaustive]
pub enum GuildWidgetStyle {
    Shield,
    Banner1,
    Banner2,
    Banner3,
    Banner4,
}

/// The name of a widget style, as the API spells it.
pub open spec fn style_name(style: GuildWidgetStyle) -> Seq<char> {
    match style {
        GuildWidgetStyle::Shield => "shield"@,
        GuildWidgetStyle::Banner1 => "banner1"@,
        GuildWidgetStyle::Banner2 => "banner2"@,
        GuildWidgetStyle::Banner3 => "banner3"@,
        GuildWidgetStyle::Banner4 => "banner4"@,
    }
}

/// The root of every address of the Discord REST API.
pub open spec fn api_base() -> Seq<char> {
    "https://discord.com/api/v10"@
}

/// The address of the widget image of guild `guild_id` in style `style`.
pub open spec fn widget_image_address(guild_id: u64, style: GuildWidgetStyle) -> Seq<char> {
    api_base() + "/guilds/"@ + decimal(guild_id as nat) + "/widget.png?style="@ + style_name(style)
}

impl GuildWidgetStyle {
    fn name(&self) -> (s: &'static str)
        ensures
            s@ == style_name(*self),
    {
        match self {
            GuildWidgetStyle::Shield => "shield",
            GuildWidgetStyle::Banner1 => "banner1",
            GuildWidgetStyle::Banner2 => "banner2",
            GuildWidgetStyle::Banner3 => "banner3",
            GuildWidgetStyle::Banner4 => "banner4",
        }
    }

    /// The name of the style, as the API spells it.
    pub fn to_string(&self) -> (s: String)
        ensures
            s@ == style_name(*self),
    {
        String::from_str(self.name())
    }
}

impl GuildId {
    /// The address of the guild's widget image in style `style`.
    pub fn widget_image_url(&self, style: GuildWidgetStyle) -> (url: String)
        ensures
            url@ == widget_image_address(self.0, style),
    {
        let mut url = String::from_str("https://discord.com/api/v10");
        url.append("/guilds/");
        push_decimal(&mut url, self.0);
        url.append("/widget.png?style=");
        url.append(style.name());
        url
    }
}

} // verus!
