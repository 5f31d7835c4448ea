use dyncord::commands::slash::arguments::{Argument, ArgumentMeta, ArgumentType};
use dyncord::commands::slash::{validate_commands, InvalidCommandError, SlashCommandHandlerWrapper};
use dyncord::commands::Command;

fn meta(name: &str, optional: bool) -> ArgumentMeta {
    if optional {
        ArgumentMeta::from(Argument::string(name).optional())
    } else {
        ArgumentMeta::from(Argument::string(name))
    }
}

#[test]
fn valid_command_passes() {
    let cmd = Command::slash("greet", SlashCommandHandlerWrapper::new(0, vec![ArgumentType::String]))
        .argument(meta("name", false))
        .build();
    assert!(validate_commands(&[&cmd]).is_ok());
}

#[test]
fn too_few_and_too_many_arguments() {
    let few = Command::slash("few", SlashCommandHandlerWrapper::new(0, vec![ArgumentType::String]))
        .build();
    let many = Command::slash("many", SlashCommandHandlerWrapper::new(0, vec![]))
        .argument(meta("x", false))
        .build();
    let errors = validate_commands(&[&few, &many]).unwrap_err();
    assert_eq!(errors.len(), 2);
    assert!(matches!(&errors[0], InvalidCommandError::TooFewArguments(n) if n == "few"));
    assert!(matches!(&errors[1], InvalidCommandError::TooManyArguments(n) if n == "many"));
}

#[test]
fn argument_names_are_checked() {
    let long = "a".repeat(33);
    let ok_long = "é".repeat(16);
    let cmd = Command::slash(
        "names",
        SlashCommandHandlerWrapper::new(0, vec![ArgumentType::String, ArgumentType::String, ArgumentType::String]),
    )
    .argument(meta(&long, false))
    .argument(meta("", false))
    .argument(meta(&ok_long, false))
    .build();
    let errors = validate_commands(&[&cmd]).unwrap_err();
    assert_eq!(errors.len(), 2);
    assert!(matches!(&errors[0], InvalidCommandError::ArgumentNameTooLong(c, a) if c == "names" && *a == long));
    assert!(matches!(&errors[1], InvalidCommandError::ArgumentNameTooShort(c) if c == "names"));
}

#[test]
fn multibyte_names_count_characters() {
    let fits = "é".repeat(32);
    let cmd = Command::slash("chars", SlashCommandHandlerWrapper::new(0, vec![ArgumentType::String]))
        .argument(meta(&fits, false))
        .build();
    assert!(validate_commands(&[&cmd]).is_ok());
    let name = "é".repeat(33);
    let cmd = Command::slash("chars", SlashCommandHandlerWrapper::new(0, vec![ArgumentType::String]))
        .argument(meta(&name, false))
        .build();
    let errors = validate_commands(&[&cmd]).unwrap_err();
    assert_eq!(errors.len(), 1);
    assert!(matches!(&errors[0], InvalidCommandError::ArgumentNameTooLong(_, a) if *a == name));
}

#[test]
fn empty_command_name_is_too_short() {
    let cmd = Command::slash("", SlashCommandHandlerWrapper::new(0, vec![])).build();
    let errors = validate_commands(&[&cmd]).unwrap_err();
    assert_eq!(errors.len(), 1);
    assert!(matches!(&errors[0], InvalidCommandError::CommandNameTooShort));
}

#[test]
fn long_command_name_is_too_long() {
    let long = "c".repeat(33);
    let cmd = Command::slash(&long, SlashCommandHandlerWrapper::new(0, vec![])).build();
    let errors = validate_commands(&[&cmd]).unwrap_err();
    assert_eq!(errors.len(), 1);
    assert!(matches!(&errors[0], InvalidCommandError::CommandNameTooLong(n) if *n == long));
    let fits = "ü".repeat(32);
    let cmd = Command::slash(&fits, SlashCommandHandlerWrapper::new(0, vec![])).build();
    assert!(validate_commands(&[&cmd]).is_ok());
}

#[test]
fn command_name_error_comes_first() {
    let cmd = Command::slash("", SlashCommandHandlerWrapper::new(0, vec![ArgumentType::String])).build();
    let errors = validate_commands(&[&cmd]).unwrap_err();
    assert_eq!(errors.len(), 2);
    assert!(matches!(&errors[0], InvalidCommandError::CommandNameTooShort));
    assert!(matches!(&errors[1], InvalidCommandError::TooFewArguments(n) if n.is_empty()));
}

#[test]
fn mismatching_types() {
    let cmd = Command::slash(
        "types",
        SlashCommandHandlerWrapper::new(0, vec![ArgumentType::String, ArgumentType::OptionalString]),
    )
    .argument(meta("a", true))
    .argument(meta("b", true))
    .build();
    let errors = validate_commands(&[&cmd]).unwrap_err();
    assert_eq!(errors.len(), 1);
    assert!(matches!(
        &errors[0],
        InvalidCommandError::MismatchingArgumentTypes(c, ArgumentType::String, ArgumentType::OptionalString) if c == "types"
    ));
}

#[test]
fn errors_come_in_order() {
    let cmd = Command::slash("all", SlashCommandHandlerWrapper::new(0, vec![ArgumentType::OptionalString, ArgumentType::String]))
        .argument(meta("", false))
        .build();
    let errors = validate_commands(&[&cmd]).unwrap_err();
    assert_eq!(errors.len(), 3);
    assert!(matches!(&errors[0], InvalidCommandError::TooFewArguments(_)));
    assert!(matches!(&errors[1], InvalidCommandError::ArgumentNameTooShort(_)));
    assert!(matches!(&errors[2], InvalidCommandError::MismatchingArgumentTypes(_, ArgumentType::OptionalString, ArgumentType::String)));
}
