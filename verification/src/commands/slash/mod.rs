//! Slash commands, e.g. `/help`.

pub mod arguments;
pub mod routing;

use vstd::prelude::*;

use crate::commands::errors::ArgumentError;
use crate::commands::slash::arguments::{ArgumentMeta, ArgumentType, CommandDataOption};
use crate::commands::CommandNode;
use crate::localizations::Localizations;

verus! {

/// A slash command handler together with the types of the arguments it takes.
pub struct SlashCommandHandlerWrapper {
    /// The position of the handler in the bot's handler table.
    pub handler: usize,
    /// The types of the handler's arguments, in order.
    pub argument_types: Vec<ArgumentType>,
}

impl SlashCommandHandlerWrapper {
    /// Wraps a handler that takes arguments of the given types.
    pub fn new(handler: usize, argument_types: Vec<ArgumentType>) -> (r: SlashCommandHandlerWrapper)
        ensures
            r.handler == handler,
            r.argument_types == argument_types,
    {
        SlashCommandHandlerWrapper { handler, argument_types }
    }
}

/// The description commands get when none is set.
pub open spec fn default_command_description() -> Seq<char> {
    seq![
        'A', ' ', 'D', 'y', 'n', 'c', 'o', 'r', 'd', ' ', 'c', 'o', 'm', 'm', 'a', 'n', 'd', '.',
    ]
}

/// A slash command.
pub struct SlashCommand {
    /// The command's name.
    pub name: String,
    /// The command's name per locale.
    pub name_i18n: Localizations,
    /// The command's description.
    pub description: String,
    /// The command's description per locale.
    pub description_i18n: Localizations,
    /// The command's handler.
    pub handler: SlashCommandHandlerWrapper,
    /// The metadata of the command's arguments, in the order the handler takes them.
    pub arguments: Vec<ArgumentMeta>,
}

/// A builder of slash commands.
pub struct SlashCommandBuilder {
    /// The command's name.
    pub name: String,
    /// The command's name per locale.
    pub name_i18n: Localizations,
    /// The command's description.
    pub description: String,
    /// The command's description per locale.
    pub description_i18n: Localizations,
    /// The command's handler.
    pub handler: SlashCommandHandlerWrapper,
    /// The metadata of the command's arguments.
    pub arguments: Vec<ArgumentMeta>,
}

impl SlashCommandBuilder {
    /// A builder with the given name and handler, the default description and no arguments.
    pub fn new(name: &str, handler: SlashCommandHandlerWrapper) -> (r: SlashCommandBuilder)
        ensures
            r.name@ == name@,
            r.name_i18n@ == Map::<Seq<char>, Seq<char>>::empty(),
            r.description@ == default_command_description(),
            r.description_i18n@ == Map::<Seq<char>, Seq<char>>::empty(),
            r.handler == handler,
            r.arguments@.len() == 0,
    {
        let description = "A Dyncord command.";
        proof {
            reveal_strlit("A Dyncord command.");
        }
        assert(description@ =~= default_command_description());
        SlashCommandBuilder {
            name: name.to_owned(),
            name_i18n: Localizations::new(),
            description: description.to_owned(),
            description_i18n: Localizations::new(),
            handler,
            arguments: Vec::new(),
        }
    }

    /// Sets the command's default description.
    pub fn description(self, description: &str) -> (r: Self)
        ensures
            r.description@ == description@,
            r == (SlashCommandBuilder { description: r.description, ..self }),
    {
        SlashCommandBuilder { description: description.to_owned(), ..self }
    }

    /// Adds an argument's metadata; arguments must be added in the order the handler
    /// takes them.
    pub fn argument(self, argument: ArgumentMeta) -> (r: Self)
        ensures
            r.arguments@ == self.arguments@.push(argument),
            r == (SlashCommandBuilder { arguments: r.arguments, ..self }),
    {
        let mut s = self;
        s.arguments.push(argument);
        s
    }

    /// The command this builder builds.
    pub open spec fn spec_build(self) -> SlashCommand {
        SlashCommand {
            name: self.name,
            name_i18n: self.name_i18n,
            description: self.description,
            description_i18n: self.description_i18n,
            handler: self.handler,
            arguments: self.arguments,
        }
    }

    /// Builds the command.
    pub fn build(self) -> (r: SlashCommand)
        ensures
            r == self.spec_build(),
    {
        SlashCommand {
            name: self.name,
            name_i18n: self.name_i18n,
            description: self.description,
            description_i18n: self.description_i18n,
            handler: self.handler,
            arguments: self.arguments,
        }
    }
}

/// A group of slash commands.
pub struct SlashCommandGroup {
    /// The group's name.
    pub name: String,
    /// The group's subcommands and subgroups.
    pub children: Vec<CommandNode>,
}

impl SlashCommandGroup {
    /// Starts building a group with the given name.
    pub fn build(name: &str) -> (r: SlashCommandGroupBuilder)
        ensures
            r.name@ == name@,
            r.children@.len() == 0,
    {
        SlashCommandGroupBuilder::new(name)
    }
}

/// A builder of slash command groups.
pub struct SlashCommandGroupBuilder {
    /// The group's name.
    pub name: String,
    /// The group's subcommands and subgroups.
    pub children: Vec<CommandNode>,
}

impl SlashCommandGroupBuilder {
    /// A builder of an empty group with the given name.
    pub fn new(name: &str) -> (r: SlashCommandGroupBuilder)
        ensures
            r.name@ == name@,
            r.children@.len() == 0,
    {
        SlashCommandGroupBuilder { name: name.to_owned(), children: Vec::new() }
    }

    /// Adds a command as the group's last child.
    pub fn command(self, command: SlashCommand) -> (r: Self)
        ensures
            r.children@ == self.children@.push(CommandNode::SlashCommand(command)),
            r.name == self.name,
    {
        let mut s = self;
        s.children.push(CommandNode::SlashCommand(command));
        s
    }

    /// Adds a subgroup as the group's last child.
    pub fn nest(self, group: SlashCommandGroup) -> (r: Self)
        ensures
            r.children@ == self.children@.push(CommandNode::SlashCommandGroup(group)),
            r.name == self.name,
    {
        let mut s = self;
        s.children.push(CommandNode::SlashCommandGroup(group));
        s
    }

    /// Builds the group.
    pub fn build(self) -> (r: SlashCommandGroup)
        ensures
            r == (SlashCommandGroup { name: self.name, children: self.children }),
    {
        SlashCommandGroup { name: self.name, children: self.children }
    }
}

/// The option Discord sent for the argument at `index` of the command's metadata: the
/// first received option with the argument's name, or `None` when none has it;
/// [`ArgumentError::MissingMeta`] when the command has no argument at `index`.
pub fn parse_arg(arguments: &Vec<ArgumentMeta>, options: &Vec<CommandDataOption>, index: usize) -> (r:
    Result<Option<CommandDataOption>, ArgumentError>)
    ensures
        index >= arguments@.len() ==> r == Err::<Option<CommandDataOption>, ArgumentError>(
            ArgumentError::MissingMeta,
        ),
        index < arguments@.len() ==> {
            let name = arguments@[index as int].spec_name();
            &&& r is Ok
            &&& (r->Ok_0 is None <==> forall|j: int|
                0 <= j < options@.len() ==> options@[j].name@ != name@)
            &&& r->Ok_0 matches Some(o) ==> exists|k: int|
                0 <= k < options@.len() && options@[k] == o && o.name@ == name@ && forall|j: int|
                    0 <= j < k ==> options@[j].name@ != name@
        },
{
    if index >= arguments.len() {
        return Err(ArgumentError::MissingMeta);
    }
    let name = arguments[index].name();
    let mut k: usize = 0;
    while k < options.len()
        invariant
            k <= options.len(),
            index < arguments@.len(),
            *name == arguments@[index as int].spec_name(),
            forall|j: int| 0 <= j < k ==> options@[j].name@ != name@,
        decreases options.len() - k,
    {
        if options[k].name == *name {
            return Ok(Some(options[k].clone()));
        }
        k += 1;
    }
    Ok(None)
}

/// An error found while validating the configured slash commands.
pub enum InvalidCommandError {
    /// The command's handler takes more arguments than the command's metadata defines.
    TooFewArguments(String),
    /// The command's handler takes fewer arguments than the command's metadata defines.
    TooManyArguments(String),
    /// The handler takes an argument of the first type where the metadata defines one of
    /// the second type.
    MismatchingArgumentTypes(String, ArgumentType, ArgumentType),
    /// A slash command has an empty name.
    CommandNameTooShort,
    /// A command's name is longer than 32 characters.
    CommandNameTooLong(String),
    /// The command has an argument whose name is empty.
    ArgumentNameTooShort(String),
    /// The command has an argument whose name is longer than 32 characters.
    ArgumentNameTooLong(String, String),
}

/// The error about a command's own name, if any: an empty name, or one longer than 32
/// characters.
pub open spec fn command_name_errors(command: SlashCommand) -> Seq<InvalidCommandError> {
    if command.name@.len() == 0 {
        seq![InvalidCommandError::CommandNameTooShort]
    } else if command.name@.len() > 32 {
        seq![InvalidCommandError::CommandNameTooLong(command.name)]
    } else {
        seq![]
    }
}

/// The error about the number of arguments of a command, if any.
pub open spec fn arity_errors(command: SlashCommand) -> Seq<InvalidCommandError> {
    let handler = command.handler.argument_types@.len();
    let declared = command.arguments@.len();
    if handler > declared {
        seq![InvalidCommandError::TooFewArguments(command.name)]
    } else if handler < declared {
        seq![InvalidCommandError::TooManyArguments(command.name)]
    } else {
        seq![]
    }
}

/// The errors about the names of a command's arguments, in order: a name longer than 32
/// characters or an empty one.
pub open spec fn argument_name_errors(command_name: String, arguments: Seq<ArgumentMeta>) -> Seq<
    InvalidCommandError,
>
    decreases arguments.len(),
{
    if arguments.len() == 0 {
        seq![]
    } else {
        let name = arguments.last().spec_name();
        argument_name_errors(command_name, arguments.drop_last()) + if name@.len() > 32 {
            seq![InvalidCommandError::ArgumentNameTooLong(command_name, name)]
        } else if name@.len() == 0 {
            seq![InvalidCommandError::ArgumentNameTooShort(command_name)]
        } else {
            seq![]
        }
    }
}

/// The errors about the first `k` pairs of handler and metadata argument types whose
/// types differ, in order.
pub open spec fn type_errors(
    command_name: String,
    handler: Seq<ArgumentType>,
    arguments: Seq<ArgumentMeta>,
    k: int,
) -> Seq<InvalidCommandError>
    decreases k,
{
    if k <= 0 {
        seq![]
    } else {
        type_errors(command_name, handler, arguments, k - 1) + if handler[k - 1]
            != arguments[k - 1].spec_argument_type() {
            seq![
                InvalidCommandError::MismatchingArgumentTypes(
                    command_name,
                    handler[k - 1],
                    arguments[k - 1].spec_argument_type(),
                ),
            ]
        } else {
            seq![]
        }
    }
}

/// All the errors of one command: the error about its name, then the arity error, then
/// the argument name errors, then the type mismatches of the argument pairs the handler
/// and the metadata both have.
pub open spec fn command_errors(command: SlashCommand) -> Seq<InvalidCommandError> {
    let h = command.handler.argument_types@;
    let a = command.arguments@;
    command_name_errors(command) + arity_errors(command) + argument_name_errors(command.name, a) + type_errors(
        command.name,
        h,
        a,
        if h.len() < a.len() {
            h.len() as int
        } else {
            a.len() as int
        },
    )
}

/// All the errors of a list of commands, command by command.
pub open spec fn all_command_errors(commands: Seq<&SlashCommand>) -> Seq<InvalidCommandError>
    decreases commands.len(),
{
    if commands.len() == 0 {
        seq![]
    } else {
        all_command_errors(commands.drop_last()) + command_errors(*commands.last())
    }
}

fn push_errors_of(command: &SlashCommand, errors: &mut Vec<InvalidCommandError>)
    ensures
        final(errors)@ == old(errors)@ + command_errors(*command),
{
    let ghost start = errors@;
    let name_len = command.name.as_str().unicode_len();
    if name_len == 0 {
        errors.push(InvalidCommandError::CommandNameTooShort);
    } else if name_len > 32 {
        errors.push(InvalidCommandError::CommandNameTooLong(command.name.clone()));
    }
    let ghost after_name = errors@;
    assert(after_name == start + command_name_errors(*command));
    let handler_count = command.handler.argument_types.len();
    let declared_count = command.arguments.len();
    if handler_count > declared_count {
        errors.push(InvalidCommandError::TooFewArguments(command.name.clone()));
    } else if handler_count < declared_count {
        errors.push(InvalidCommandError::TooManyArguments(command.name.clone()));
    }
    let ghost after_arity = errors@;
    assert(after_arity == after_name + arity_errors(*command));
    let mut k: usize = 0;
    while k < command.arguments.len()
        invariant
            k <= command.arguments.len(),
            errors@ == after_arity + argument_name_errors(
                command.name,
                command.arguments@.take(k as int),
            ),
        decreases command.arguments.len() - k,
    {
        let ghost before = errors@;
        assert(command.arguments@.take(k + 1).drop_last() =~= command.arguments@.take(k as int));
        let name = command.arguments[k].name();
        assert(command.arguments@.take(k + 1).last() == command.arguments@[k as int]);
        if name.as_str().unicode_len() > 32 {
            errors.push(InvalidCommandError::ArgumentNameTooLong(command.name.clone(), name.clone()));
        } else if name.as_str().is_empty() {
            errors.push(InvalidCommandError::ArgumentNameTooShort(command.name.clone()));
        }
        k += 1;
        assert(errors@ =~= after_arity + argument_name_errors(
            command.name,
            command.arguments@.take(k as int),
        ));
    }
    assert(command.arguments@.take(command.arguments@.len() as int) =~= command.arguments@);
    let ghost after_names = errors@;
    let pairs = if handler_count < declared_count {
        handler_count
    } else {
        declared_count
    };
    let mut k: usize = 0;
    while k < pairs
        invariant
            k <= pairs,
            pairs <= command.handler.argument_types@.len(),
            pairs <= command.arguments@.len(),
            errors@ == after_names + type_errors(
                command.name,
                command.handler.argument_types@,
                command.arguments@,
                k as int,
            ),
        decreases pairs - k,
    {
        let handler_type = command.handler.argument_types[k];
        let declared_type = command.arguments[k].argument_type();
        if handler_type != declared_type {
            errors.push(
                InvalidCommandError::MismatchingArgumentTypes(
                    command.name.clone(),
                    handler_type,
                    declared_type,
                ),
            );
        }
        k += 1;
        assert(errors@ =~= after_names + type_errors(
            command.name,
            command.handler.argument_types@,
            command.arguments@,
            k as int,
        ));
    }
    assert(errors@ =~= start + command_errors(*command));
}

/// Validates slash commands: each handler must take as many arguments as the command's
/// metadata defines, of the same types in the same order, and the command's name and
/// each argument's name must be 1 to 32 characters long. All errors are reported, command by command.
pub fn validate_commands(commands: &[&SlashCommand]) -> (r: Result<(), Vec<InvalidCommandError>>)
    ensures
        all_command_errors(commands@).len() == 0 ==> r is Ok,
        all_command_errors(commands@).len() > 0 ==> (r matches Err(errors) && errors@
            == all_command_errors(commands@)),
{
    let mut errors: Vec<InvalidCommandError> = Vec::new();
    let mut i: usize = 0;
    while i < commands.len()
        invariant
            i <= commands.len(),
            errors@ == all_command_errors(commands@.take(i as int)),
        decreases commands.len() - i,
    {
        assert(commands@.take(i + 1).drop_last() =~= commands@.take(i as int));
        push_errors_of(commands[i], &mut errors);
        i += 1;
    }
    assert(commands@.take(commands@.len() as int) =~= commands@);
    if errors.len() == 0 {
        Ok(())
    } else {
        Err(errors)
    }
}

/// Each violation found in a command is among the command's errors: a handler argument
/// type that differs from the declared one at the same position (for positions both
/// have), an empty or overlong command name, a handler with more or fewer arguments than
/// declared, and an empty or overlong argument name.
pub proof fn law_each_violation_is_reported(command: SlashCommand, i: int)
    ensures
        0 <= i < command.handler.argument_types@.len() && i < command.arguments@.len()
            && command.handler.argument_types@[i] != command.arguments@[i].spec_argument_type()
            ==> command_errors(command).contains(
            InvalidCommandError::MismatchingArgumentTypes(
                command.name,
                command.handler.argument_types@[i],
                command.arguments@[i].spec_argument_type(),
            ),
        ),
        command.name@.len() == 0 ==> command_errors(command).contains(
            InvalidCommandError::CommandNameTooShort,
        ),
        command.name@.len() > 32 ==> command_errors(command).contains(
            InvalidCommandError::CommandNameTooLong(command.name),
        ),
        command.handler.argument_types@.len() > command.arguments@.len() ==> command_errors(
            command,
        ).contains(InvalidCommandError::TooFewArguments(command.name)),
        command.handler.argument_types@.len() < command.arguments@.len() ==> command_errors(
            command,
        ).contains(InvalidCommandError::TooManyArguments(command.name)),
        0 <= i < command.arguments@.len() && command.arguments@[i].spec_name()@.len() == 0
            ==> command_errors(command).contains(
            InvalidCommandError::ArgumentNameTooShort(command.name),
        ),
        0 <= i < command.arguments@.len() && command.arguments@[i].spec_name()@.len() > 32
            ==> command_errors(command).contains(
            InvalidCommandError::ArgumentNameTooLong(
                command.name,
                command.arguments@[i].spec_name(),
            ),
        ),
{
    let h = command.handler.argument_types@;
    let a = command.arguments@;
    let k = if h.len() < a.len() {
        h.len() as int
    } else {
        a.len() as int
    };
    let n = command_name_errors(command);
    let ar = arity_errors(command);
    let an = argument_name_errors(command.name, a);
    let t = type_errors(command.name, h, a, k);
    assert(command_errors(command) == n + ar + an + t);
    if 0 <= i < a.len() {
        lemma_argument_name_error_listed(command.name, a, i);
    }
    if 0 <= i < k && h[i] != a[i].spec_argument_type() {
        lemma_type_error_listed(command.name, h, a, k, i);
    }
    lemma_contains_in_concat(n, ar);
    lemma_contains_in_concat(n + ar, an);
    lemma_contains_in_concat(n + ar + an, t);
    assert(n.len() > 0 ==> n.contains(n[0]));
    assert(ar.len() > 0 ==> ar.contains(ar[0]));
}

/// An error of one of the commands is among the errors of the whole list, so validation
/// fails.
pub proof fn law_command_errors_are_reported(
    commands: Seq<&SlashCommand>,
    j: int,
    error: InvalidCommandError,
)
    requires
        0 <= j < commands.len(),
        command_errors(*commands[j]).contains(error),
    ensures
        all_command_errors(commands).contains(error),
        all_command_errors(commands).len() > 0,
    decreases commands.len(),
{
    let prefix = all_command_errors(commands.drop_last());
    let last = command_errors(*commands.last());
    lemma_contains_in_concat(prefix, last);
    if j < commands.len() - 1 {
        assert(commands.drop_last()[j] == commands[j]);
        law_command_errors_are_reported(commands.drop_last(), j, error);
    }
}

proof fn lemma_contains_in_concat(a: Seq<InvalidCommandError>, b: Seq<InvalidCommandError>)
    ensures
        forall|x: InvalidCommandError| #[trigger] a.contains(x) ==> (a + b).contains(x),
        forall|x: InvalidCommandError| #[trigger] b.contains(x) ==> (a + b).contains(x),
{
    assert forall|x: InvalidCommandError| #[trigger] a.contains(x) implies (a + b).contains(x) by {
        let k = choose|k: int| 0 <= k < a.len() && a[k] == x;
        assert((a + b)[k] == x);
    }
    assert forall|x: InvalidCommandError| #[trigger] b.contains(x) implies (a + b).contains(x) by {
        let k = choose|k: int| 0 <= k < b.len() && b[k] == x;
        assert((a + b)[a.len() + k] == x);
    }
}

proof fn lemma_type_error_listed(
    command_name: String,
    handler: Seq<ArgumentType>,
    arguments: Seq<ArgumentMeta>,
    k: int,
    i: int,
)
    requires
        0 <= i < k,
        k <= handler.len(),
        k <= arguments.len(),
        handler[i] != arguments[i].spec_argument_type(),
    ensures
        type_errors(command_name, handler, arguments, k).contains(
            InvalidCommandError::MismatchingArgumentTypes(
                command_name,
                handler[i],
                arguments[i].spec_argument_type(),
            ),
        ),
    decreases k,
{
    let before = type_errors(command_name, handler, arguments, k - 1);
    let here = if handler[k - 1] != arguments[k - 1].spec_argument_type() {
        seq![
            InvalidCommandError::MismatchingArgumentTypes(
                command_name,
                handler[k - 1],
                arguments[k - 1].spec_argument_type(),
            ),
        ]
    } else {
        seq![]
    };
    assert(type_errors(command_name, handler, arguments, k) == before + here);
    lemma_contains_in_concat(before, here);
    if i < k - 1 {
        lemma_type_error_listed(command_name, handler, arguments, k - 1, i);
    } else {
        assert(here.contains(here[0]));
    }
}

proof fn lemma_argument_name_error_listed(
    command_name: String,
    arguments: Seq<ArgumentMeta>,
    i: int,
)
    requires
        0 <= i < arguments.len(),
    ensures
        arguments[i].spec_name()@.len() == 0 ==> argument_name_errors(
            command_name,
            arguments,
        ).contains(InvalidCommandError::ArgumentNameTooShort(command_name)),
        arguments[i].spec_name()@.len() > 32 ==> argument_name_errors(
            command_name,
            arguments,
        ).contains(InvalidCommandError::ArgumentNameTooLong(command_name, arguments[i].spec_name())),
    decreases arguments.len(),
{
    let before = argument_name_errors(command_name, arguments.drop_last());
    let name = arguments.last().spec_name();
    let here = if name@.len() > 32 {
        seq![InvalidCommandError::ArgumentNameTooLong(command_name, name)]
    } else if name@.len() == 0 {
        seq![InvalidCommandError::ArgumentNameTooShort(command_name)]
    } else {
        seq![]
    };
    assert(argument_name_errors(command_name, arguments) == before + here);
    lemma_contains_in_concat(before, here);
    if i < arguments.len() - 1 {
        assert(arguments.drop_last()[i] == arguments[i]);
        lemma_argument_name_error_listed(command_name, arguments.drop_last(), i);
    } else {
        assert(arguments[i] == arguments.last());
        assert(here.len() > 0 ==> here.contains(here[0]));
    }
}

/// A list of commands passes validation exactly when each of its commands has no error.
pub proof fn law_valid_when_each_command_is(commands: Seq<&SlashCommand>)
    ensures
        (all_command_errors(commands).len() == 0) == (forall|i: int|
            0 <= i < commands.len() ==> (#[trigger] command_errors(*commands[i])).len() == 0),
    decreases commands.len(),
{
    if commands.len() > 0 {
        law_valid_when_each_command_is(commands.drop_last());
        if all_command_errors(commands).len() == 0 {
            assert forall|i: int| 0 <= i < commands.len() implies (#[trigger] command_errors(
                *commands[i],
            )).len() == 0 by {
                if i < commands.len() - 1 {
                    assert(commands.drop_last()[i] == commands[i]);
                }
            }
        } else {
            if command_errors(*commands.last()).len() == 0 {
                let i = choose|i: int|
                    0 <= i < commands.drop_last().len() && (#[trigger] command_errors(
                        *commands.drop_last()[i],
                    )).len() != 0;
                assert(commands[i] == commands.drop_last()[i]);
            } else {
                assert(command_errors(*commands[commands.len() - 1]).len() != 0);
            }
        }
    }
}

/// A command is valid when its name is 1 to 32 characters long, its handler takes exactly
/// the argument types it declares, in order, and each argument's name is 1 to 32
/// characters long.
pub proof fn law_well_declared_command_is_valid(command: SlashCommand)
    requires
        0 < command.name@.len() <= 32,
        command.handler.argument_types@.len() == command.arguments@.len(),
        forall|i: int|
            0 <= i < command.arguments@.len() ==> command.handler.argument_types@[i]
                == (#[trigger] command.arguments@[i]).spec_argument_type(),
        forall|i: int|
            0 <= i < command.arguments@.len() ==> 0 < (#[trigger] command.arguments@[i]).spec_name()@.len()
                && command.arguments@[i].spec_name()@.len() <= 32,
    ensures
        command_errors(command).len() == 0,
{
    let h = command.handler.argument_types@;
    let a = command.arguments@;
    lemma_no_name_errors(command.name, a);
    lemma_no_type_errors(command.name, h, a, a.len() as int);
}

proof fn lemma_no_name_errors(command_name: String, arguments: Seq<ArgumentMeta>)
    requires
        forall|i: int|
            0 <= i < arguments.len() ==> 0 < (#[trigger] arguments[i]).spec_name()@.len()
                && arguments[i].spec_name()@.len() <= 32,
    ensures
        argument_name_errors(command_name, arguments).len() == 0,
    decreases arguments.len(),
{
    if arguments.len() > 0 {
        assert forall|i: int| 0 <= i < arguments.drop_last().len() implies 0 < (
        #[trigger] arguments.drop_last()[i]).spec_name()@.len()
            && arguments.drop_last()[i].spec_name()@.len() <= 32 by {
            assert(arguments.drop_last()[i] == arguments[i]);
        }
        lemma_no_name_errors(command_name, arguments.drop_last());
        assert(arguments[arguments.len() - 1] == arguments.last());
    }
}

proof fn lemma_no_type_errors(
    command_name: String,
    handler: Seq<ArgumentType>,
    arguments: Seq<ArgumentMeta>,
    k: int,
)
    requires
        k <= handler.len(),
        k <= arguments.len(),
        forall|i: int| 0 <= i < k ==> handler[i] == (#[trigger] arguments[i]).spec_argument_type(),
    ensures
        type_errors(command_name, handler, arguments, k).len() == 0,
    decreases k,
{
    if k > 0 {
        lemma_no_type_errors(command_name, handler, arguments, k - 1);
        assert(handler[k - 1] == arguments[k - 1].spec_argument_type());
    }
}

} // verus!
