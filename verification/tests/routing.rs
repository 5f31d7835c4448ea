use dyncord::commands::message::routing::route_message_command;
use dyncord::commands::message::MessageCommandGroup;
use dyncord::commands::errors::{CommandError, RuntimeError};
use dyncord::commands::prefixed::routing::{
    dispatch_prefixed, route_prefixed_command, with_bot_layer, PrefixedDispatch,
};
use dyncord::errors::DyncordError;
use dyncord::commands::prefixed::{PrefixedCommand, PrefixedCommandGroup};
use dyncord::commands::slash::routing::route_slash_command;
use dyncord::commands::slash::SlashCommandHandlerWrapper;
use dyncord::commands::{Command, CommandGroup, CommandNode};
use dyncord::interactions::ButtonComponentBuilder;

fn prefixed_tree() -> Vec<CommandNode> {
    let ping = PrefixedCommand::build("ping", 1)
        .aliases(vec!["p".to_string(), "pong".to_string()])
        .on_error(10)
        .build();
    let group = PrefixedCommandGroup::build("admin")
        .command(PrefixedCommand::build("ban", 2).on_error(20))
        .nest(PrefixedCommandGroup::build("deep").command(Command::prefixed("kick", 3)).on_error(30))
        .on_error(40)
        .build();
    vec![CommandNode::PrefixedCommand(ping), CommandNode::PrefixedCommandGroup(group)]
}

#[test]
fn routes_by_name_and_alias() {
    let nodes = prefixed_tree();
    let prefixes = vec!["!".to_string()];
    let route = route_prefixed_command(&prefixes, "!ping a b", &nodes).unwrap();
    assert_eq!(route.command.handler, 1);
    assert_eq!(route.command_name, "ping");
    assert_eq!(route.command_args, "a b");
    assert_eq!(route.error_layers, vec![vec![10]]);
    let route = route_prefixed_command(&prefixes, "!pong", &nodes).unwrap();
    assert_eq!(route.command.handler, 1);
    assert_eq!(route.command_name, "pong");
}

#[test]
fn routes_into_groups_with_error_layers() {
    let nodes = prefixed_tree();
    let prefixes = vec!["!".to_string()];
    let route = route_prefixed_command(&prefixes, "!ban someone", &nodes).unwrap();
    assert_eq!(route.command.handler, 2);
    assert_eq!(route.error_layers, vec![vec![20], vec![40]]);
    let route = route_prefixed_command(&prefixes, "!kick", &nodes).unwrap();
    assert_eq!(route.command.handler, 3);
    assert_eq!(route.error_layers, vec![vec![], vec![30], vec![40]]);
}

#[test]
fn unknown_command_or_prefix_is_not_routed() {
    let nodes = prefixed_tree();
    let prefixes = vec!["!".to_string()];
    assert!(route_prefixed_command(&prefixes, "!unknown", &nodes).is_none());
    assert!(route_prefixed_command(&prefixes, "?ping", &nodes).is_none());
    assert!(route_prefixed_command(&prefixes, "ping", &nodes).is_none());
}

#[test]
fn first_prefix_that_invokes_a_command_wins() {
    let nodes = prefixed_tree();
    let prefixes = vec!["!p".to_string(), "!".to_string()];
    // With "!p" the name would be "ing", which invokes nothing; "!" then gives "ping".
    let route = route_prefixed_command(&prefixes, "!ping", &nodes).unwrap();
    assert_eq!(route.prefix, "!");
    assert_eq!(route.command_name, "ping");
    // With "!p" the name is empty, which invokes nothing; "!" then gives the alias "p".
    let route = route_prefixed_command(&prefixes, "!p", &nodes).unwrap();
    assert_eq!(route.prefix, "!");
    assert_eq!(route.command_name, "p");
}

fn handler(types: Vec<dyncord::commands::slash::arguments::ArgumentType>) -> SlashCommandHandlerWrapper {
    SlashCommandHandlerWrapper::new(7, types)
}

#[test]
fn routes_slash_commands_including_those_in_groups() {
    let hello = Command::slash("hello", handler(vec![])).build();
    let nested = Command::slash("nested", handler(vec![])).build();
    let group = CommandGroup::slash("grp").command(nested).build();
    let nodes = vec![CommandNode::SlashCommand(hello), CommandNode::SlashCommandGroup(group)];
    assert_eq!(route_slash_command("hello", &nodes).unwrap().name, "hello");
    assert_eq!(route_slash_command("nested", &nodes).unwrap().name, "nested");
    assert!(route_slash_command("other", &nodes).is_none());
}

#[test]
fn slash_commands_inside_prefixed_groups_are_routed() {
    let inner = Command::slash("inner", handler(vec![])).build();
    let mut group = PrefixedCommandGroup::build("pg").build();
    group.children.push(CommandNode::SlashCommand(inner));
    let nodes = vec![CommandNode::PrefixedCommandGroup(group)];
    assert_eq!(route_slash_command("inner", &nodes).unwrap().name, "inner");
}

#[test]
fn routes_message_commands_with_layers() {
    let quote = Command::message("Quote", 5).on_error(1).build();
    let group = MessageCommandGroup::build("tools")
        .command(Command::message("Translate", 6).build())
        .on_error(2)
        .build();
    let nodes = vec![CommandNode::MessageCommand(quote), CommandNode::MessageCommandGroup(group)];
    let (cmd, layers) = route_message_command("Quote", &nodes).unwrap();
    assert_eq!(cmd.handler, 5);
    assert_eq!(layers, vec![vec![1]]);
    let (cmd, layers) = route_message_command("Translate", &nodes).unwrap();
    assert_eq!(cmd.handler, 6);
    assert_eq!(layers, vec![vec![], vec![2]]);
    assert!(route_message_command("Nope", &nodes).is_none());
}

#[test]
fn routes_buttons_by_custom_id() {
    let a = ButtonComponentBuilder::new("a", 1).on_error(9).build();
    let b = ButtonComponentBuilder::new("b", 2).build();
    let nodes = vec![CommandNode::ButtonComponent(a), CommandNode::ButtonComponent(b)];
    let (button, layers) = dyncord::interactions::route_button_component("b", &nodes).unwrap();
    assert_eq!(button.handler, 2);
    assert_eq!(layers, vec![Vec::<usize>::new()]);
    let (button, layers) = dyncord::interactions::route_button_component("a", &nodes).unwrap();
    assert_eq!(button.handler, 1);
    assert_eq!(layers, vec![vec![9]]);
    assert!(dyncord::interactions::route_button_component("c", &nodes).is_none());
}

#[test]
fn aliases_are_added_after_those_set_before() {
    let command = PrefixedCommand::build("ping", 1)
        .aliases("p")
        .aliases(vec!["pong", "pp"])
        .aliases(&["x"][..])
        .aliases(String::from("y"))
        .build();
    assert_eq!(command.identifiers(), vec!["ping", "p", "pong", "pp", "x", "y"]);
    assert!(command.is_identified_by("pp"));
    assert!(!command.is_identified_by("z"));
}

#[test]
fn dispatched_command_gets_the_bot_layer_last() {
    let nodes = prefixed_tree();
    let prefixes = Ok(vec!["!".to_string()]);
    match dispatch_prefixed(prefixes, "!kick now", &nodes, &vec![99]) {
        PrefixedDispatch::Run(route, layers) => {
            assert_eq!(route.command.handler, 3);
            assert_eq!(route.command_args, "now");
            assert_eq!(layers, vec![vec![], vec![30], vec![40], vec![99]]);
        }
        _ => panic!("the command was not routed"),
    }
}

#[test]
fn failing_prefix_getter_reaches_only_the_bot_layer() {
    let nodes = prefixed_tree();
    let error = RuntimeError { kind: "Db".to_string(), message: "down".to_string() };
    match dispatch_prefixed(Err(error), "!ping", &nodes, &vec![7, 8]) {
        PrefixedDispatch::PrefixesFailed(e, layers) => {
            assert_eq!(
                e,
                DyncordError::Command(CommandError::Prefixes(RuntimeError {
                    kind: "Db".to_string(),
                    message: "down".to_string(),
                }))
            );
            assert_eq!(layers, vec![vec![7, 8]]);
        }
        _ => panic!("the prefix getter's failure was not reported"),
    }
}

#[test]
fn message_invoking_nothing_is_not_dispatched() {
    let nodes = prefixed_tree();
    let prefixes = Ok(vec!["!".to_string()]);
    assert!(matches!(dispatch_prefixed(prefixes, "!nope", &nodes, &vec![1]), PrefixedDispatch::Nothing));
}

#[test]
fn bot_layer_is_appended() {
    assert_eq!(with_bot_layer(vec![vec![1], vec![]], &vec![5]), vec![vec![1], vec![], vec![5]]);
    assert_eq!(with_bot_layer(vec![], &vec![]), vec![Vec::<usize>::new()]);
}
