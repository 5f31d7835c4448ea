use dyncord::builtin::permissions::{is_in_dms, is_in_server};
use dyncord::commands::errors::ArgumentError;
use dyncord::commands::message::find_target_message;
use dyncord::commands::permissions::{PermissionContext, PermissionEvent};
use dyncord::commands::prefixed::arguments::{
    channel_argument, role_argument, user_argument, user_mention_argument,
};
use dyncord::commands::slash::arguments::{Argument, ArgumentMeta, CommandDataOption, OptionValue};
use dyncord::commands::slash::parse_arg;
use dyncord::localizations::Localizations;
use dyncord::wrappers::types::channels::ChannelMention;
use dyncord::wrappers::types::users::{User, UserMention};

fn user(id: u64, name: &str, global: Option<&str>) -> User {
    User {
        id,
        name: name.to_string(),
        name_global: global.map(|g| g.to_string()),
        discriminator: 0,
        is_app: false,
        is_verified: true,
        is_system: false,
    }
}

fn mention(id: u64, name: &str) -> UserMention {
    UserMention { id, name: name.to_string(), discriminator: 0, is_app: false }
}

#[test]
fn dms_and_servers() {
    let dm = PermissionContext {
        event: PermissionEvent::Message { author: user(1, "a", None), channel_id: 2, guild_id: None },
    };
    let server = PermissionContext {
        event: PermissionEvent::Interaction {
            user: None,
            member: Some(Some(user(1, "a", None))),
            channel_id: Some(3),
            guild_id: Some(4),
        },
    };
    assert!(is_in_dms(&dm).is_ok());
    assert!(is_in_server(&dm).is_err());
    assert!(is_in_dms(&server).is_err());
    assert!(is_in_server(&server).is_ok());
    assert_eq!(server.server_id(), Some(4));
    assert_eq!(server.channel_id(), Some(3));
    assert_eq!(server.user().unwrap().id, 1);
    assert_eq!(dm.user().unwrap().name, "a");
}

#[test]
fn display_name_falls_back_to_username() {
    assert_eq!(user(1, "name", Some("Shown")).name_display(), "Shown");
    assert_eq!(user(1, "name", None).name_display(), "name");
}

#[test]
fn user_mentions_are_read_and_resolved() {
    let mentions = vec![mention(123, "mike"), mention(456, "sully")];
    let (id, rest) = user_argument("<@456> more", &mentions).unwrap();
    assert_eq!(id, 456);
    assert_eq!(rest, " more");
    let (m, _) = user_mention_argument("<@123>", &mentions).unwrap();
    assert_eq!(m.name, "mike");
    assert!(matches!(user_argument("<@789>", &mentions), Err(ArgumentError::MissingResolved)));
    assert!(matches!(user_argument("mike", &mentions), Err(ArgumentError::Misformatted)));
    assert!(matches!(user_argument("<#123>", &mentions), Err(ArgumentError::Misformatted)));
    assert!(matches!(user_argument("  ", &mentions), Err(ArgumentError::Missing)));
}

#[test]
fn channel_and_role_mentions() {
    let channels = vec![ChannelMention { id: 99, guild_id: 1, name: "general".to_string() }];
    assert_eq!(channel_argument("<#99>", &channels).unwrap().0, 99);
    assert!(matches!(channel_argument("<@99>", &channels), Err(ArgumentError::Misformatted)));
    let roles = vec![5u64, 6];
    assert_eq!(role_argument("<@&6> x", Some(1), &roles).unwrap(), (6, " x".to_string()));
    assert!(matches!(role_argument("<@&6>", None, &roles), Err(ArgumentError::WrongContext)));
    assert!(matches!(role_argument("<@&7>", Some(1), &roles), Err(ArgumentError::MissingResolved)));
}

#[test]
fn target_message_lookup() {
    let ids = vec![10u64, 20, 20];
    assert_eq!(find_target_message(Some(20), Some(&ids)), Ok(1));
    assert!(matches!(find_target_message(Some(30), Some(&ids)), Err(ArgumentError::MissingResolved)));
    assert!(matches!(find_target_message(None, Some(&ids)), Err(ArgumentError::MissingResolved)));
    assert!(matches!(find_target_message(Some(10), None), Err(ArgumentError::MissingResolved)));
}

#[test]
fn slash_options_are_matched_by_name() {
    let metas = vec![ArgumentMeta::from(Argument::string("first")), ArgumentMeta::from(Argument::string("second").optional())];
    let options = vec![
        CommandDataOption { name: "second".to_string(), value: OptionValue::String("b".to_string()) },
        CommandDataOption { name: "first".to_string(), value: OptionValue::String("a".to_string()) },
        CommandDataOption { name: "first".to_string(), value: OptionValue::Other },
    ];
    let found = parse_arg(&metas, &options, 0).unwrap().unwrap();
    assert!(matches!(found.value, OptionValue::String(ref v) if v == "a"));
    let found = parse_arg(&metas, &options, 1).unwrap().unwrap();
    assert_eq!(found.name, "second");
    assert!(parse_arg(&metas, &options[..0].to_vec(), 0).unwrap().is_none());
    assert!(matches!(parse_arg(&metas, &options, 2), Err(ArgumentError::MissingMeta)));
}

#[test]
fn localizations_keep_the_last_value() {
    let mut l = Localizations::new();
    l.insert("fr".to_string(), "bonjour".to_string());
    l.insert("de".to_string(), "hallo".to_string());
    l.insert("fr".to_string(), "salut".to_string());
    let fr: Vec<&(String, String)> = l.entries().iter().filter(|(k, _)| k == "fr").collect();
    assert_eq!(fr.len(), 1);
    assert_eq!(fr[0].1, "salut");
    assert_eq!(l.entries().len(), 2);
}
