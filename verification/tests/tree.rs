use dyncord::commands::errors::{ArgumentError, CommandError};
use dyncord::commands::prefixed::arguments::{
    channel_mention_argument, i128_argument, i16_argument, i64_argument, isize_argument,
    optional_argument, role_mention_argument, u128_argument, u16_argument, u32_argument,
    usize_argument,
};
use dyncord::commands::prefixed::PrefixedCommandGroup;
use dyncord::commands::slash::SlashCommandHandlerWrapper;
use dyncord::commands::{
    flatten_message, flatten_prefixed, get_message_commands, get_message_groups,
    get_prefixed_commands, get_prefixed_groups, get_slash_commands, get_slash_groups, Command,
    CommandGroup, CommandNode,
};
use dyncord::wrappers::types::channels::ChannelMention;

fn tree() -> Vec<CommandNode> {
    vec![
        CommandNode::PrefixedCommand(Command::prefixed("top", 0).build()),
        CommandNode::PrefixedCommandGroup(
            PrefixedCommandGroup::build("g").command(Command::prefixed("inner", 1)).build(),
        ),
        CommandNode::SlashCommand(Command::slash("s", SlashCommandHandlerWrapper::new(0, vec![])).build()),
        CommandNode::SlashCommandGroup(CommandGroup::slash("sg").build()),
        CommandNode::MessageCommand(Command::message("M", 0).build()),
        CommandNode::MessageCommandGroup(
            CommandGroup::message("mg").command(Command::message("N", 1).build()).build(),
        ),
    ]
}

#[test]
fn top_level_lookups_do_not_descend() {
    let nodes = tree();
    assert_eq!(get_prefixed_commands(&nodes).len(), 1);
    assert_eq!(get_prefixed_groups(&nodes)[0].name, "g");
    assert_eq!(get_slash_commands(&nodes)[0].name, "s");
    assert_eq!(get_slash_groups(&nodes)[0].name, "sg");
    assert_eq!(get_message_commands(&nodes)[0].name, "M");
    assert_eq!(get_message_groups(&nodes)[0].name, "mg");
}

#[test]
fn flattening_descends_into_groups() {
    let nodes = tree();
    let prefixed: Vec<&str> = flatten_prefixed(&nodes).iter().map(|c| c.name.as_str()).collect();
    assert_eq!(prefixed, vec!["top", "inner"]);
    let message: Vec<&str> = flatten_message(&nodes).iter().map(|c| c.name.as_str()).collect();
    assert_eq!(message, vec!["M", "N"]);
}

#[test]
fn wider_integers() {
    assert_eq!(i16_argument("-300").unwrap().0, -300);
    assert_eq!(i64_argument("-9223372036854775808").unwrap().0, i64::MIN);
    assert_eq!(i128_argument("170141183460469231731687303715884105727").unwrap().0, i128::MAX);
    assert!(matches!(i128_argument("170141183460469231731687303715884105728"), Err(ArgumentError::Misformatted)));
    assert_eq!(isize_argument("-1").unwrap().0, -1);
    assert_eq!(u16_argument("65535").unwrap().0, u16::MAX);
    assert!(matches!(u16_argument("65536"), Err(ArgumentError::Misformatted)));
    assert_eq!(u32_argument("4294967295 x").unwrap(), (u32::MAX, " x".to_string()));
    assert_eq!(u128_argument("340282366920938463463374607431768211455").unwrap().0, u128::MAX);
    assert_eq!(usize_argument("0").unwrap().0, 0);
}

#[test]
fn optional_arguments_leave_the_text_on_failure() {
    let (value, rest) = optional_argument(u16_argument("nope rest"), "nope rest".to_string());
    assert_eq!(value, None);
    assert_eq!(rest, "nope rest");
    let (value, rest) = optional_argument(u16_argument("12 rest"), "12 rest".to_string());
    assert_eq!(value, Some(12));
    assert_eq!(rest, " rest");
}

#[test]
fn mention_arguments_return_the_mentioned_objects() {
    let channels = vec![ChannelMention { id: 42, guild_id: 7, name: "general".to_string() }];
    let (channel, rest) = channel_mention_argument("<#42> more", &channels).unwrap();
    assert_eq!((channel.id, channel.guild_id, channel.name.as_str()), (42, 7, "general"));
    assert_eq!(rest, " more");
    let (role, _) = role_mention_argument("<@&9>", &vec![9]).unwrap();
    assert_eq!(role.id, 9);
    assert!(matches!(role_mention_argument("<@&8>", &vec![9]), Err(ArgumentError::MissingResolved)));
}

#[test]
fn argument_errors_become_command_errors() {
    assert_eq!(
        CommandError::from_argument_error(ArgumentError::Missing),
        CommandError::Arguments(ArgumentError::Missing)
    );
}
