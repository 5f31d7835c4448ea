use dyncord::wrappers::actions::{InteractionDeferReply, InteractionMessageReply, MessageCreate};
use dyncord::builders::embeds::{
    Embed, EmbedAuthor, EmbedField, EmbedFooter, EmbedImage, EmbedProvider, EmbedThumbnail,
    EmbedVideo,
};
use dyncord::wrappers::types::component::{
    ActionRow, ButtonStyle, Component, Container, DangerButton, IntoTwilightMessageComponent,
    MentionableSelect, PrimaryButton, SecondaryButton, SelectDefaultValue, SelectMenuType,
    Separator, SeparatorSpacingSize, SuccessButton, TextDisplay, TextSelect, TextSelectOption,
    UserSelect,
};

#[test]
fn embed_setters_set_one_field_each() {
    let e = Embed::build()
        .title("Hello world!")
        .description("desc")
        .color(0xFF0000)
        .url("https://example.com")
        .author("Author Name")
        .footer(EmbedFooter::new("foot").icon_url("icon"))
        .image("https://img")
        .thumbnail(EmbedThumbnail::new("t").width(10).height(20))
        .video("https://vid")
        .field(EmbedField::new("n1", "v1"))
        .field(EmbedField::new("n2", "v2").inline(true))
        .timestamp(1_700_000_000_000_000)
        .provider("YouTube");
    assert_eq!(e.title.as_deref(), Some("Hello world!"));
    assert_eq!(e.description.as_deref(), Some("desc"));
    assert_eq!(e.color, Some(0xFF0000));
    assert_eq!(e.url.as_deref(), Some("https://example.com"));
    let author = e.author.as_ref().unwrap();
    assert_eq!(author.name, "Author Name");
    assert!(author.url.is_none() && author.icon_url.is_none() && author.proxy_icon_url.is_none());
    let footer = e.footer.as_ref().unwrap();
    assert_eq!(footer.text, "foot");
    assert_eq!(footer.icon_url.as_deref(), Some("icon"));
    assert_eq!(e.image.as_ref().unwrap().url, "https://img");
    let thumb = e.thumbnail.as_ref().unwrap();
    assert_eq!((thumb.width, thumb.height), (Some(10), Some(20)));
    assert_eq!(e.video.as_ref().unwrap().url, "https://vid");
    assert_eq!(e.fields.len(), 2);
    assert_eq!(e.fields[0].name, "n1");
    assert!(!e.fields[0].is_inline);
    assert!(e.fields[1].is_inline);
    assert_eq!(e.timestamp, Some(1_700_000_000_000_000));
    let provider = e.provider.as_ref().unwrap();
    assert_eq!(provider.name, "YouTube");
    assert!(provider.url.is_none());
}

#[test]
fn embed_starts_empty() {
    let e = Embed::build();
    assert!(e.title.is_none() && e.author.is_none() && e.fields.is_empty() && e.timestamp.is_none());
}

#[test]
fn part_builders() {
    let a = EmbedAuthor::new("me").url("u").icon_url("i").proxy_icon_url("p");
    assert_eq!((a.url.as_deref(), a.icon_url.as_deref(), a.proxy_icon_url.as_deref()), (Some("u"), Some("i"), Some("p")));
    let f = EmbedFooter::new("f").proxy_icon_url("pp");
    assert_eq!(f.proxy_icon_url.as_deref(), Some("pp"));
    assert!(f.icon_url.is_none());
    let i = EmbedImage::new("x").proxy_url("y").height(1).width(2);
    assert_eq!((i.url.as_str(), i.proxy_url.as_deref(), i.height, i.width), ("x", Some("y"), Some(1), Some(2)));
    let v = EmbedVideo::new("v").proxy_url("pv").height(3).width(4);
    assert_eq!((v.proxy_url.as_deref(), v.height, v.width), (Some("pv"), Some(3), Some(4)));
    let t = EmbedThumbnail::new("t").proxy_url("pt");
    assert_eq!(t.proxy_url.as_deref(), Some("pt"));
    let p = EmbedProvider::new("prov").url("https://prov");
    assert_eq!(p.url.as_deref(), Some("https://prov"));
    let e = Embed::build().author(String::from("owned")).author(EmbedAuthor::new("second"));
    assert_eq!(e.author.unwrap().name, "second");
}

#[test]
fn action_row_of_buttons() {
    let row = ActionRow::build()
        .button(PrimaryButton::new("One", "one"))
        .button(SecondaryButton::new("Two", "two").disabled())
        .button(SuccessButton::new("Three", "three"))
        .button(DangerButton::new("Four", "four"));
    assert_eq!(row.components.len(), 4);
    match &row.components[1] {
        Component::Button(b) => {
            assert_eq!(b.label.as_deref(), Some("Two"));
            assert_eq!(b.custom_id.as_deref(), Some("two"));
            assert!(b.disabled);
            assert_eq!(b.style, ButtonStyle::Secondary);
        }
        _ => panic!("expected a button"),
    }
    match &row.components[3] {
        Component::Button(b) => assert_eq!(b.style, ButtonStyle::Danger),
        _ => panic!("expected a button"),
    }
    match row.into_component() {
        Component::ActionRow(children) => assert_eq!(children.len(), 4),
        _ => panic!("expected an action row"),
    }
}

#[test]
fn action_row_with_a_select() {
    let select = TextSelect::new("pick")
        .option("plain")
        .option(("Label", "value"))
        .option(TextSelectOption::new("L", "V").description("d").default())
        .placeholder("choose")
        .min_values(1)
        .max_values(2)
        .required();
    let row = ActionRow::build().select(select);
    assert_eq!(row.components.len(), 1);
    match &row.components[0] {
        Component::SelectMenu(m) => {
            assert_eq!(m.kind, SelectMenuType::Text);
            assert_eq!(m.custom_id, "pick");
            assert_eq!(m.required, Some(true));
            assert_eq!((m.min_values, m.max_values), (Some(1), Some(2)));
            let options = m.options.as_ref().unwrap();
            assert_eq!(options.len(), 3);
            assert_eq!((options[0].label.as_str(), options[0].value.as_str()), ("plain", "plain"));
            assert_eq!((options[1].label.as_str(), options[1].value.as_str()), ("Label", "value"));
            assert!(options[2].default);
            assert_eq!(options[2].description.as_deref(), Some("d"));
            assert!(m.default_values.is_none());
        }
        _ => panic!("expected a select menu"),
    }
}

#[test]
fn user_and_mentionable_selects() {
    let row = ActionRow::build().select(UserSelect::new("u").default_user(5).disabled());
    match &row.components[0] {
        Component::SelectMenu(m) => {
            assert_eq!(m.kind, SelectMenuType::User);
            assert_eq!(m.default_values.as_ref().unwrap(), &vec![SelectDefaultValue::User(5)]);
            assert!(m.disabled);
            assert!(m.options.is_none());
            assert_eq!(m.required, Some(false));
        }
        _ => panic!("expected a select menu"),
    }
    let s = MentionableSelect::new("m").default_user(1).default_role(2);
    assert_eq!(s.default_values, vec![SelectDefaultValue::User(1), SelectDefaultValue::Role(2)]);
}

#[test]
fn text_display_separator_container() {
    let t = TextDisplay::new("Hello").push(", ").push("world");
    assert_eq!(t.content, "Hello, world");
    assert_eq!(TextDisplay::build().push("x").content, "x");
    let s = Separator::build();
    assert!(s.divider);
    assert_eq!(s.spacing, SeparatorSpacingSize::Small);
    let s = Separator::build().divider(false).spacing(SeparatorSpacingSize::Large);
    assert!(!s.divider);
    let c = Container::build().accent_color(0x00FF00).spoiler(true).component(t).component(s);
    assert_eq!(c.components.len(), 2);
    match c.into_component() {
        Component::Container { accent_color, spoiler, components } => {
            assert_eq!(accent_color, Some(Some(0x00FF00)));
            assert_eq!(spoiler, Some(true));
            assert!(matches!(&components[0], Component::TextDisplay(text) if text == "Hello, world"));
            assert!(matches!(&components[1], Component::Separator { divider: Some(false), spacing: Some(SeparatorSpacingSize::Large) }));
        }
        _ => panic!("expected a container"),
    }
}

#[test]
fn replies_and_messages() {
    let r = InteractionMessageReply::new();
    assert_eq!(r.flags(), None);
    assert!(r.into_components().is_none());
    let r = InteractionMessageReply::new().component(Component::TextDisplay("hi".to_string())).ephemeral();
    assert_eq!(r.flags(), Some(64 | 32768));
    assert_eq!(r.into_components().unwrap().len(), 1);
    assert_eq!(InteractionDeferReply::new().flags(), None);
    assert_eq!(InteractionDeferReply::new().ephemeral().flags(), Some(64));
    let m = MessageCreate::new(5, "hi").reply(7).component(Component::TextDisplay("x".to_string()));
    assert_eq!((m.channel_id, m.replying_to, m.components.len()), (5, Some(7), 1));
    assert_eq!(m.content, "hi");
}
