use dyncord::bot::{builtins_for_event, BotBuilder, BuiltinHandler};
use dyncord::builtin::cache::{user_id_key, user_name_key};
use dyncord::commands::errors::{CommandError, RuntimeError};
use dyncord::commands::event::route_message;
use dyncord::commands::permissions::{after_check, first_check_step, CheckStep};
use dyncord::commands::prefixed::prefixes::{static_prefixes, IntoPrefixesResult};
use dyncord::commands::slash::SlashCommandHandlerWrapper;
use dyncord::commands::{flatten_slash, Command, CommandNode};
use dyncord::events::{IntoEventResult, On};
use dyncord::handle::{user_lookup_step, UserLookupAction, UserLookupEvent};
use dyncord::wrappers::types::users::User;

fn runtime(kind: &str) -> RuntimeError {
    RuntimeError { kind: kind.to_string(), message: String::new() }
}

#[test]
fn checks_gate_the_handler() {
    assert!(matches!(first_check_step(0), CheckStep::RunHandler));
    assert!(matches!(first_check_step(2), CheckStep::RunCheck(0)));
    assert!(matches!(after_check(0, 2, Ok(())), CheckStep::RunCheck(1)));
    assert!(matches!(after_check(1, 2, Ok(())), CheckStep::RunHandler));
    match after_check(0, 2, Err(runtime("NotInDms"))) {
        CheckStep::Refuse(CommandError::Permissions(e)) => assert_eq!(e.kind, "NotInDms"),
        _ => panic!("expected a refusal"),
    }
}

fn user(id: u64) -> User {
    User {
        id,
        name: "n".to_string(),
        name_global: None,
        discriminator: 0,
        is_app: false,
        is_verified: false,
        is_system: false,
    }
}

#[test]
fn user_lookup_with_cache() {
    assert!(matches!(user_lookup_step(5, true, UserLookupEvent::Start), UserLookupAction::QueryCache(5)));
    assert!(matches!(
        user_lookup_step(5, true, UserLookupEvent::CacheAnswered(Some(user(5)))),
        UserLookupAction::Done(u) if u.id == 5
    ));
    assert!(matches!(user_lookup_step(5, true, UserLookupEvent::CacheAnswered(None)), UserLookupAction::Fetch(5)));
    assert!(matches!(user_lookup_step(5, true, UserLookupEvent::Fetched(user(5))), UserLookupAction::Store(u) if u.id == 5));
    assert!(matches!(user_lookup_step(5, true, UserLookupEvent::Stored(user(5))), UserLookupAction::Done(_)));
}

#[test]
fn user_lookup_without_cache() {
    assert!(matches!(user_lookup_step(7, false, UserLookupEvent::Start), UserLookupAction::Fetch(7)));
    assert!(matches!(user_lookup_step(7, false, UserLookupEvent::Fetched(user(7))), UserLookupAction::Done(u) if u.id == 7));
}

#[test]
fn first_generation_message_routing() {
    let prefixes = vec!["!".to_string(), "?".to_string()];
    let names = vec!["ping".to_string(), "echo".to_string(), "echo".to_string()];
    assert_eq!(route_message(&prefixes, "?echo hi", &names), Some((1, 1)));
    assert_eq!(route_message(&prefixes, "!ping", &names), Some((0, 0)));
    assert_eq!(route_message(&prefixes, "!nope", &names), None);
    assert_eq!(route_message(&prefixes, "ping", &names), None);
}

#[test]
fn cache_keys() {
    assert_eq!(user_id_key(0), "user:id:0");
    assert_eq!(user_id_key(1234567890123), "user:id:1234567890123");
    assert_eq!(user_id_key(u64::MAX), format!("user:id:{}", u64::MAX));
    assert_eq!(user_name_key("mike"), "user:name:mike");
}

#[test]
fn bot_builder_collects_everything() {
    let bot = BotBuilder::new(42u32)
        .command(CommandNode::SlashCommand(
            Command::slash("hi", SlashCommandHandlerWrapper::new(0, vec![])).build(),
        ))
        .on_event(On::message_create(3))
        .intents(0b01)
        .intents(0b10)
        .on_error(9)
        .build();
    assert_eq!(bot.state, 42);
    assert_eq!(bot.intents, 0b11);
    assert_eq!(bot.on_errors, vec![9]);
    assert_eq!(bot.builtins, vec![BuiltinHandler::SlashRouter, BuiltinHandler::Registration]);
    assert_eq!(bot.handlers_for_event("MESSAGE_CREATE"), vec![0]);
    assert!(bot.handlers_for_event("READY").is_empty());
    assert_eq!(builtins_for_event(&bot.builtins, "INTERACTION_CREATE"), vec![BuiltinHandler::SlashRouter]);
    assert_eq!(builtins_for_event(&bot.builtins, "READY"), vec![BuiltinHandler::Registration]);
    assert!(builtins_for_event(&bot.builtins, "MESSAGE_CREATE").is_empty());
}

#[test]
fn results_are_normalized() {
    assert_eq!(().into_event_result(), Ok(()));
    let r: Result<i32, RuntimeError> = Err(runtime("E"));
    assert_eq!(r.into_event_result().unwrap_err().kind, "E");
    let p = static_prefixes(&["!", "?"]);
    assert_eq!(p, vec!["!".to_string(), "?".to_string()]);
    assert_eq!(p.clone().into_prefixes_result().unwrap(), p);
}

#[test]
fn distinct_users_get_distinct_keys() {
    assert_ne!(user_id_key(1), user_id_key(10));
    assert_ne!(user_id_key(12), user_name_key("12"));
    assert_ne!(user_name_key("a"), user_name_key("b"));
}

#[test]
fn adding_commands_appends_slash_commands() {
    let a = vec![CommandNode::SlashCommand(
        Command::slash("first", SlashCommandHandlerWrapper::new(0, vec![])).build(),
    )];
    let b = vec![
        CommandNode::PrefixedCommand(Command::prefixed("p", 0).build()),
        CommandNode::SlashCommand(Command::slash("second", SlashCommandHandlerWrapper::new(1, vec![])).build()),
    ];
    let mut both = Vec::new();
    both.extend(a);
    both.extend(b);
    let names: Vec<&str> = flatten_slash(&both).iter().map(|c| c.name.as_str()).collect();
    assert_eq!(names, vec!["first", "second"]);
}
