use dyncord::bot::{builtin_handlers, BuiltinHandler};
use dyncord::commands::slash::SlashCommandHandlerWrapper;
use dyncord::commands::{Command, CommandGroup, CommandNode};
use dyncord::events::{handlers_for_event, EventFilter, On};
use dyncord::interactions::ButtonComponentBuilder;

#[test]
fn no_commands_no_builtin_handlers() {
    assert!(builtin_handlers(&[]).is_empty());
}

#[test]
fn prefixed_commands_only_register() {
    let nodes = vec![CommandNode::PrefixedCommand(Command::prefixed("ping", 0).build())];
    assert_eq!(builtin_handlers(&nodes), vec![BuiltinHandler::Registration]);
}

#[test]
fn every_kind_of_command_gets_its_router() {
    let nodes = vec![
        CommandNode::SlashCommand(Command::slash("a", SlashCommandHandlerWrapper::new(0, vec![])).build()),
        CommandNode::MessageCommandGroup(CommandGroup::message("g").command(Command::message("M", 1).build()).build()),
        CommandNode::ButtonComponent(ButtonComponentBuilder::new("btn", 2).build()),
    ];
    assert_eq!(
        builtin_handlers(&nodes),
        vec![
            BuiltinHandler::SlashRouter,
            BuiltinHandler::MessageRouter,
            BuiltinHandler::ButtonRouter,
            BuiltinHandler::Registration,
        ]
    );
}

#[test]
fn empty_message_group_has_no_router() {
    let nodes = vec![CommandNode::MessageCommandGroup(CommandGroup::message("g").build())];
    assert_eq!(builtin_handlers(&nodes), vec![BuiltinHandler::Registration]);
}

#[test]
fn events_reach_matching_handlers_in_order() {
    let filters = vec![
        On::message_create(0).build().filter,
        On::event(1).build().filter,
        On::ready(2).build().filter,
        On::kind("MESSAGE_CREATE", 3).build().filter,
    ];
    assert_eq!(handlers_for_event(&filters, "MESSAGE_CREATE"), vec![0, 1, 3]);
    assert_eq!(handlers_for_event(&filters, "READY"), vec![1, 2]);
    assert_eq!(handlers_for_event(&filters, "TYPING_START"), vec![1]);
    assert!(EventFilter::All.is_handler_for_type("ANYTHING"));
}

#[test]
fn event_handler_builder_keeps_error_handlers() {
    let h = On::interaction_create(4).on_error(7).on_error(8).build();
    assert_eq!(h.handler, 4);
    assert_eq!(h.on_errors, vec![7, 8]);
    assert!(matches!(h.filter, EventFilter::Kind(ref k) if k == "INTERACTION_CREATE"));
}

#[test]
fn slash_group_commands_need_the_slash_router() {
    let group = CommandGroup::slash("admin")
        .command(Command::slash("ban", SlashCommandHandlerWrapper::new(0, vec![])).build())
        .build();
    let nodes = vec![CommandNode::SlashCommandGroup(group)];
    assert_eq!(builtin_handlers(&nodes), vec![BuiltinHandler::SlashRouter, BuiltinHandler::Registration]);
}
