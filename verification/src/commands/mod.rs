//! Prefixed, slash and message commands, and the tree they are organized in.

pub mod arguments;
pub mod errors;
pub mod event;
pub mod message;
pub mod permissions;
pub mod prefixed;
pub mod slash;

use vstd::prelude::*;

use crate::commands::message::{
    MessageCommand, MessageCommandBuilder, MessageCommandGroup, MessageCommandGroupBuilder,
};
use crate::commands::prefixed::{
    PrefixedCommand, PrefixedCommandBuilder, PrefixedCommandGroup, PrefixedCommandGroupBuilder,
};
use crate::commands::slash::{
    SlashCommand, SlashCommandBuilder, SlashCommandGroup, SlashCommandGroupBuilder,
    SlashCommandHandlerWrapper, default_command_description,
};
use crate::interactions::ButtonComponent;

verus! {

/// A command, a command group or an interactive component: a node of the bot's tree of
/// interactions.
pub enum CommandNode {
    /// A prefixed command.
    PrefixedCommand(PrefixedCommand),
    /// A group of prefixed commands.
    PrefixedCommandGroup(PrefixedCommandGroup),
    /// A slash command.
    SlashCommand(SlashCommand),
    /// A group of slash commands.
    SlashCommandGroup(SlashCommandGroup),
    /// A message command.
    MessageCommand(MessageCommand),
    /// A group of message commands.
    MessageCommandGroup(MessageCommandGroup),
    /// A button component.
    ButtonComponent(ButtonComponent),
}


/// The prefixed commands of a tree of nodes, in order, with those found inside
/// prefixed command groups at any depth in place of the groups.
pub open spec fn spec_flatten_prefixed(nodes: Seq<CommandNode>) -> Seq<PrefixedCommand>
    decreases nodes,
{
    if nodes.len() == 0 {
        seq![]
    } else {
        let last = nodes[nodes.len() - 1];
        spec_flatten_prefixed(nodes.drop_last()) + match last {
            CommandNode::PrefixedCommand(c) => seq![c],
            CommandNode::PrefixedCommandGroup(g) => {
                proof {
                    assert(decreases_to!(nodes => g.children@));
                }
                spec_flatten_prefixed(g.children@)
            },
            _ => seq![],
        }
    }
}

/// Flattens a tree of nodes into the list of its prefixed commands, in order: commands
/// found inside prefixed command groups stand in place of their groups.
pub fn flatten_prefixed(nodes: &[CommandNode]) -> (r: Vec<&PrefixedCommand>)
    ensures
        r@.map_values(|c: &PrefixedCommand| *c) == spec_flatten_prefixed(nodes@),
    decreases nodes@,
{
    let mut commands: Vec<&PrefixedCommand> = Vec::new();
    let mut i: usize = 0;
    while i < nodes.len()
        invariant
            i <= nodes.len(),
            commands@.map_values(|c: &PrefixedCommand| *c) == spec_flatten_prefixed(nodes@.take(i as int)),
        decreases nodes.len() - i,
    {
        let ghost before = commands@;
        assert(nodes@.take(i + 1).drop_last() =~= nodes@.take(i as int));
        match &nodes[i] {
            CommandNode::PrefixedCommand(command) => {
                commands.push(command);
                assert(commands@.map_values(|c: &PrefixedCommand| *c) =~= before.map_values(
                    |c: &PrefixedCommand| *c,
                ) + seq![*command]);
            },
            CommandNode::PrefixedCommandGroup(group) => {
                proof {
                    assert(decreases_to!(nodes@ => group.children@));
                }
                let mut sub = flatten_prefixed(group.children.as_slice());
                let ghost sub_view = sub@;
                commands.append(&mut sub);
                assert(commands@.map_values(|c: &PrefixedCommand| *c) =~= before.map_values(
                    |c: &PrefixedCommand| *c,
                ) + sub_view.map_values(|c: &PrefixedCommand| *c));
            },
            _ => {
                assert(commands@.map_values(|c: &PrefixedCommand| *c) =~= before.map_values(
                    |c: &PrefixedCommand| *c,
                ) + Seq::<PrefixedCommand>::empty());
            },
        }
        i += 1;
    }
    assert(nodes@.take(nodes@.len() as int) =~= nodes@);
    commands
}

/// The slash commands of a tree of nodes, in order, with those found inside slash and
/// prefixed command groups at any depth in place of the groups.
pub open spec fn spec_flatten_slash(nodes: Seq<CommandNode>) -> Seq<SlashCommand>
    decreases nodes,
{
    if nodes.len() == 0 {
        seq![]
    } else {
        let last = nodes[nodes.len() - 1];
        spec_flatten_slash(nodes.drop_last()) + match last {
            CommandNode::SlashCommand(c) => seq![c],
            CommandNode::SlashCommandGroup(g) => {
                proof {
                    assert(decreases_to!(nodes => g.children@));
                }
                spec_flatten_slash(g.children@)
            },
            CommandNode::PrefixedCommandGroup(g) => {
                proof {
                    assert(decreases_to!(nodes => g.children@));
                }
                spec_flatten_slash(g.children@)
            },
            _ => seq![],
        }
    }
}

/// Flattens a tree of nodes into the list of all its slash commands, in order: commands
/// found inside slash and prefixed command groups stand in place of their groups.
pub fn flatten_slash(nodes: &[CommandNode]) -> (r: Vec<&SlashCommand>)
    ensures
        r@.map_values(|c: &SlashCommand| *c) == spec_flatten_slash(nodes@),
    decreases nodes@,
{
    let mut commands: Vec<&SlashCommand> = Vec::new();
    let mut i: usize = 0;
    while i < nodes.len()
        invariant
            i <= nodes.len(),
            commands@.map_values(|c: &SlashCommand| *c) == spec_flatten_slash(nodes@.take(i as int)),
        decreases nodes.len() - i,
    {
        let ghost before = commands@;
        assert(nodes@.take(i + 1).drop_last() =~= nodes@.take(i as int));
        match &nodes[i] {
            CommandNode::SlashCommand(command) => {
                commands.push(command);
                assert(commands@.map_values(|c: &SlashCommand| *c) =~= before.map_values(
                    |c: &SlashCommand| *c,
                ) + seq![*command]);
            },
            CommandNode::SlashCommandGroup(group) => {
                proof {
                    assert(decreases_to!(nodes@ => group.children@));
                }
                let mut sub = flatten_slash(group.children.as_slice());
                let ghost sub_view = sub@;
                commands.append(&mut sub);
                assert(commands@.map_values(|c: &SlashCommand| *c) =~= before.map_values(
                    |c: &SlashCommand| *c,
                ) + sub_view.map_values(|c: &SlashCommand| *c));
            },
            CommandNode::PrefixedCommandGroup(group) => {
                proof {
                    assert(decreases_to!(nodes@ => group.children@));
                }
                let mut sub = flatten_slash(group.children.as_slice());
                let ghost sub_view = sub@;
                commands.append(&mut sub);
                assert(commands@.map_values(|c: &SlashCommand| *c) =~= before.map_values(
                    |c: &SlashCommand| *c,
                ) + sub_view.map_values(|c: &SlashCommand| *c));
            },
            _ => {
                assert(commands@.map_values(|c: &SlashCommand| *c) =~= before.map_values(
                    |c: &SlashCommand| *c,
                ) + Seq::<SlashCommand>::empty());
            },
        }
        i += 1;
    }
    assert(nodes@.take(nodes@.len() as int) =~= nodes@);
    commands
}

/// The message commands of a tree of nodes, in order, with those found inside
/// message command groups at any depth in place of the groups.
pub open spec fn spec_flatten_message(nodes: Seq<CommandNode>) -> Seq<MessageCommand>
    decreases nodes,
{
    if nodes.len() == 0 {
        seq![]
    } else {
        let last = nodes[nodes.len() - 1];
        spec_flatten_message(nodes.drop_last()) + match last {
            CommandNode::MessageCommand(c) => seq![c],
            CommandNode::MessageCommandGroup(g) => {
                proof {
                    assert(decreases_to!(nodes => g.children@));
                }
                spec_flatten_message(g.children@)
            },
            _ => seq![],
        }
    }
}

/// Flattens a tree of nodes into the list of its message commands, in order: commands
/// found inside message command groups stand in place of their groups.
pub fn flatten_message(nodes: &[CommandNode]) -> (r: Vec<&MessageCommand>)
    ensures
        r@.map_values(|c: &MessageCommand| *c) == spec_flatten_message(nodes@),
    decreases nodes@,
{
    let mut commands: Vec<&MessageCommand> = Vec::new();
    let mut i: usize = 0;
    while i < nodes.len()
        invariant
            i <= nodes.len(),
            commands@.map_values(|c: &MessageCommand| *c) == spec_flatten_message(nodes@.take(i as int)),
        decreases nodes.len() - i,
    {
        let ghost before = commands@;
        assert(nodes@.take(i + 1).drop_last() =~= nodes@.take(i as int));
        match &nodes[i] {
            CommandNode::MessageCommand(command) => {
                commands.push(command);
                assert(commands@.map_values(|c: &MessageCommand| *c) =~= before.map_values(
                    |c: &MessageCommand| *c,
                ) + seq![*command]);
            },
            CommandNode::MessageCommandGroup(group) => {
                proof {
                    assert(decreases_to!(nodes@ => group.children@));
                }
                let mut sub = flatten_message(group.children.as_slice());
                let ghost sub_view = sub@;
                commands.append(&mut sub);
                assert(commands@.map_values(|c: &MessageCommand| *c) =~= before.map_values(
                    |c: &MessageCommand| *c,
                ) + sub_view.map_values(|c: &MessageCommand| *c));
            },
            _ => {
                assert(commands@.map_values(|c: &MessageCommand| *c) =~= before.map_values(
                    |c: &MessageCommand| *c,
                ) + Seq::<MessageCommand>::empty());
            },
        }
        i += 1;
    }
    assert(nodes@.take(nodes@.len() as int) =~= nodes@);
    commands
}

/// The prefixed commands among the top-level nodes, in order (those inside groups are not included).
pub open spec fn spec_get_prefixed_commands(nodes: Seq<CommandNode>) -> Seq<PrefixedCommand>
    decreases nodes.len(),
{
    if nodes.len() == 0 {
        seq![]
    } else {
        spec_get_prefixed_commands(nodes.drop_last()) + match nodes.last() {
            CommandNode::PrefixedCommand(c) => seq![c],
            _ => seq![],
        }
    }
}

/// Returns the prefixed commands among the top-level nodes, in order; those inside groups are not
/// included.
pub fn get_prefixed_commands(nodes: &[CommandNode]) -> (r: Vec<&PrefixedCommand>)
    ensures
        r@.map_values(|c: &PrefixedCommand| *c) == spec_get_prefixed_commands(nodes@),
{
    let mut found: Vec<&PrefixedCommand> = Vec::new();
    let mut i: usize = 0;
    while i < nodes.len()
        invariant
            i <= nodes.len(),
            found@.map_values(|c: &PrefixedCommand| *c) == spec_get_prefixed_commands(nodes@.take(i as int)),
        decreases nodes.len() - i,
    {
        let ghost before = found@;
        assert(nodes@.take(i + 1).drop_last() =~= nodes@.take(i as int));
        if let CommandNode::PrefixedCommand(c) = &nodes[i] {
            found.push(c);
            assert(found@.map_values(|c: &PrefixedCommand| *c) =~= before.map_values(|c: &PrefixedCommand| *c)
                + seq![*c]);
        } else {
            assert(found@.map_values(|c: &PrefixedCommand| *c) =~= before.map_values(|c: &PrefixedCommand| *c)
                + Seq::<PrefixedCommand>::empty());
        }
        i += 1;
    }
    assert(nodes@.take(nodes@.len() as int) =~= nodes@);
    found
}

/// The slash commands among the top-level nodes, in order (those inside groups are not included).
pub open spec fn spec_get_slash_commands(nodes: Seq<CommandNode>) -> Seq<SlashCommand>
    decreases nodes.len(),
{
    if nodes.len() == 0 {
        seq![]
    } else {
        spec_get_slash_commands(nodes.drop_last()) + match nodes.last() {
            CommandNode::SlashCommand(c) => seq![c],
            _ => seq![],
        }
    }
}

/// Returns the slash commands among the top-level nodes, in order; those inside groups are not
/// included.
pub fn get_slash_commands(nodes: &[CommandNode]) -> (r: Vec<&SlashCommand>)
    ensures
        r@.map_values(|c: &SlashCommand| *c) == spec_get_slash_commands(nodes@),
{
    let mut found: Vec<&SlashCommand> = Vec::new();
    let mut i: usize = 0;
    while i < nodes.len()
        invariant
            i <= nodes.len(),
            found@.map_values(|c: &SlashCommand| *c) == spec_get_slash_commands(nodes@.take(i as int)),
        decreases nodes.len() - i,
    {
        let ghost before = found@;
        assert(nodes@.take(i + 1).drop_last() =~= nodes@.take(i as int));
        if let CommandNode::SlashCommand(c) = &nodes[i] {
            found.push(c);
            assert(found@.map_values(|c: &SlashCommand| *c) =~= before.map_values(|c: &SlashCommand| *c)
                + seq![*c]);
        } else {
            assert(found@.map_values(|c: &SlashCommand| *c) =~= before.map_values(|c: &SlashCommand| *c)
                + Seq::<SlashCommand>::empty());
        }
        i += 1;
    }
    assert(nodes@.take(nodes@.len() as int) =~= nodes@);
    found
}

/// The message commands among the top-level nodes, in order (those inside groups are not included).
pub open spec fn spec_get_message_commands(nodes: Seq<CommandNode>) -> Seq<MessageCommand>
    decreases nodes.len(),
{
    if nodes.len() == 0 {
        seq![]
    } else {
        spec_get_message_commands(nodes.drop_last()) + match nodes.last() {
            CommandNode::MessageCommand(c) => seq![c],
            _ => seq![],
        }
    }
}

/// Returns the message commands among the top-level nodes, in order; those inside groups are not
/// included.
pub fn get_message_commands(nodes: &[CommandNode]) -> (r: Vec<&MessageCommand>)
    ensures
        r@.map_values(|c: &MessageCommand| *c) == spec_get_message_commands(nodes@),
{
    let mut found: Vec<&MessageCommand> = Vec::new();
    let mut i: usize = 0;
    while i < nodes.len()
        invariant
            i <= nodes.len(),
            found@.map_values(|c: &MessageCommand| *c) == spec_get_message_commands(nodes@.take(i as int)),
        decreases nodes.len() - i,
    {
        let ghost before = found@;
        assert(nodes@.take(i + 1).drop_last() =~= nodes@.take(i as int));
        if let CommandNode::MessageCommand(c) = &nodes[i] {
            found.push(c);
            assert(found@.map_values(|c: &MessageCommand| *c) =~= before.map_values(|c: &MessageCommand| *c)
                + seq![*c]);
        } else {
            assert(found@.map_values(|c: &MessageCommand| *c) =~= before.map_values(|c: &MessageCommand| *c)
                + Seq::<MessageCommand>::empty());
        }
        i += 1;
    }
    assert(nodes@.take(nodes@.len() as int) =~= nodes@);
    found
}

/// The prefixed command groups among the top-level nodes, in order (those inside groups are not included).
pub open spec fn spec_get_prefixed_groups(nodes: Seq<CommandNode>) -> Seq<PrefixedCommandGroup>
    decreases nodes.len(),
{
    if nodes.len() == 0 {
        seq![]
    } else {
        spec_get_prefixed_groups(nodes.drop_last()) + match nodes.last() {
            CommandNode::PrefixedCommandGroup(c) => seq![c],
            _ => seq![],
        }
    }
}

/// Returns the prefixed command groups among the top-level nodes, in order; those inside groups are not
/// included.
pub fn get_prefixed_groups(nodes: &[CommandNode]) -> (r: Vec<&PrefixedCommandGroup>)
    ensures
        r@.map_values(|c: &PrefixedCommandGroup| *c) == spec_get_prefixed_groups(nodes@),
{
    let mut found: Vec<&PrefixedCommandGroup> = Vec::new();
    let mut i: usize = 0;
    while i < nodes.len()
        invariant
            i <= nodes.len(),
            found@.map_values(|c: &PrefixedCommandGroup| *c) == spec_get_prefixed_groups(nodes@.take(i as int)),
        decreases nodes.len() - i,
    {
        let ghost before = found@;
        assert(nodes@.take(i + 1).drop_last() =~= nodes@.take(i as int));
        if let CommandNode::PrefixedCommandGroup(c) = &nodes[i] {
            found.push(c);
            assert(found@.map_values(|c: &PrefixedCommandGroup| *c) =~= before.map_values(|c: &PrefixedCommandGroup| *c)
                + seq![*c]);
        } else {
            assert(found@.map_values(|c: &PrefixedCommandGroup| *c) =~= before.map_values(|c: &PrefixedCommandGroup| *c)
                + Seq::<PrefixedCommandGroup>::empty());
        }
        i += 1;
    }
    assert(nodes@.take(nodes@.len() as int) =~= nodes@);
    found
}

/// The slash command groups among the top-level nodes, in order (those inside groups are not included).
pub open spec fn spec_get_slash_groups(nodes: Seq<CommandNode>) -> Seq<SlashCommandGroup>
    decreases nodes.len(),
{
    if nodes.len() == 0 {
        seq![]
    } else {
        spec_get_slash_groups(nodes.drop_last()) + match nodes.last() {
            CommandNode::SlashCommandGroup(c) => seq![c],
            _ => seq![],
        }
    }
}

/// Returns the slash command groups among the top-level nodes, in order; those inside groups are not
/// included.
pub fn get_slash_groups(nodes: &[CommandNode]) -> (r: Vec<&SlashCommandGroup>)
    ensures
        r@.map_values(|c: &SlashCommandGroup| *c) == spec_get_slash_groups(nodes@),
{
    let mut found: Vec<&SlashCommandGroup> = Vec::new();
    let mut i: usize = 0;
    while i < nodes.len()
        invariant
            i <= nodes.len(),
            found@.map_values(|c: &SlashCommandGroup| *c) == spec_get_slash_groups(nodes@.take(i as int)),
        decreases nodes.len() - i,
    {
        let ghost before = found@;
        assert(nodes@.take(i + 1).drop_last() =~= nodes@.take(i as int));
        if let CommandNode::SlashCommandGroup(c) = &nodes[i] {
            found.push(c);
            assert(found@.map_values(|c: &SlashCommandGroup| *c) =~= before.map_values(|c: &SlashCommandGroup| *c)
                + seq![*c]);
        } else {
            assert(found@.map_values(|c: &SlashCommandGroup| *c) =~= before.map_values(|c: &SlashCommandGroup| *c)
                + Seq::<SlashCommandGroup>::empty());
        }
        i += 1;
    }
    assert(nodes@.take(nodes@.len() as int) =~= nodes@);
    found
}

/// The message command groups among the top-level nodes, in order (those inside groups are not included).
pub open spec fn spec_get_message_groups(nodes: Seq<CommandNode>) -> Seq<MessageCommandGroup>
    decreases nodes.len(),
{
    if nodes.len() == 0 {
        seq![]
    } else {
        spec_get_message_groups(nodes.drop_last()) + match nodes.last() {
            CommandNode::MessageCommandGroup(c) => seq![c],
            _ => seq![],
        }
    }
}

/// Returns the message command groups among the top-level nodes, in order; those inside groups are not
/// included.
pub fn get_message_groups(nodes: &[CommandNode]) -> (r: Vec<&MessageCommandGroup>)
    ensures
        r@.map_values(|c: &MessageCommandGroup| *c) == spec_get_message_groups(nodes@),
{
    let mut found: Vec<&MessageCommandGroup> = Vec::new();
    let mut i: usize = 0;
    while i < nodes.len()
        invariant
            i <= nodes.len(),
            found@.map_values(|c: &MessageCommandGroup| *c) == spec_get_message_groups(nodes@.take(i as int)),
        decreases nodes.len() - i,
    {
        let ghost before = found@;
        assert(nodes@.take(i + 1).drop_last() =~= nodes@.take(i as int));
        if let CommandNode::MessageCommandGroup(c) = &nodes[i] {
            found.push(c);
            assert(found@.map_values(|c: &MessageCommandGroup| *c) =~= before.map_values(|c: &MessageCommandGroup| *c)
                + seq![*c]);
        } else {
            assert(found@.map_values(|c: &MessageCommandGroup| *c) =~= before.map_values(|c: &MessageCommandGroup| *c)
                + Seq::<MessageCommandGroup>::empty());
        }
        i += 1;
    }
    assert(nodes@.take(nodes@.len() as int) =~= nodes@);
    found
}

/// The button components among the top-level nodes, in order (those inside groups are not included).
pub open spec fn spec_get_button_components(nodes: Seq<CommandNode>) -> Seq<ButtonComponent>
    decreases nodes.len(),
{
    if nodes.len() == 0 {
        seq![]
    } else {
        spec_get_button_components(nodes.drop_last()) + match nodes.last() {
            CommandNode::ButtonComponent(c) => seq![c],
            _ => seq![],
        }
    }
}

/// Returns the button components among the top-level nodes, in order; those inside groups are not
/// included.
pub fn get_button_components(nodes: &[CommandNode]) -> (r: Vec<&ButtonComponent>)
    ensures
        r@.map_values(|c: &ButtonComponent| *c) == spec_get_button_components(nodes@),
{
    let mut found: Vec<&ButtonComponent> = Vec::new();
    let mut i: usize = 0;
    while i < nodes.len()
        invariant
            i <= nodes.len(),
            found@.map_values(|c: &ButtonComponent| *c) == spec_get_button_components(nodes@.take(i as int)),
        decreases nodes.len() - i,
    {
        let ghost before = found@;
        assert(nodes@.take(i + 1).drop_last() =~= nodes@.take(i as int));
        if let CommandNode::ButtonComponent(c) = &nodes[i] {
            found.push(c);
            assert(found@.map_values(|c: &ButtonComponent| *c) =~= before.map_values(|c: &ButtonComponent| *c)
                + seq![*c]);
        } else {
            assert(found@.map_values(|c: &ButtonComponent| *c) =~= before.map_values(|c: &ButtonComponent| *c)
                + Seq::<ButtonComponent>::empty());
        }
        i += 1;
    }
    assert(nodes@.take(nodes@.len() as int) =~= nodes@);
    found
}

/// A unified API to build commands of every kind.
pub struct Command;

impl Command {
    /// Starts building a prefixed command with the given name and handler.
    pub fn prefixed(name: &str, handler: usize) -> (r: PrefixedCommandBuilder)
        ensures
            r.name@ == name@,
            r.aliases@.len() == 0,
            r.summary is None,
            r.description is None,
            r.handler == handler,
            r.on_errors@.len() == 0,
    {
        PrefixedCommandBuilder::new(name, handler)
    }

    /// Starts building a slash command with the given name and handler.
    pub fn slash(name: &str, handler: SlashCommandHandlerWrapper) -> (r: SlashCommandBuilder)
        ensures
            r.name@ == name@,
            r.name_i18n@ == Map::<Seq<char>, Seq<char>>::empty(),
            r.description@ == default_command_description(),
            r.description_i18n@ == Map::<Seq<char>, Seq<char>>::empty(),
            r.handler == handler,
            r.arguments@.len() == 0,
    {
        SlashCommandBuilder::new(name, handler)
    }

    /// Starts building a message command with the given name and handler.
    pub fn message(name: &str, handler: usize) -> (r: MessageCommandBuilder)
        ensures
            r.name@ == name@,
            r.name_i18n@ == Map::<Seq<char>, Seq<char>>::empty(),
            r.handler == handler,
            r.on_errors@.len() == 0,
            r.checks@.len() == 0,
    {
        MessageCommandBuilder::new(name, handler)
    }
}

/// A unified API to build command groups of every kind.
pub struct CommandGroup;

impl CommandGroup {
    /// Starts building a prefixed command group with the given name.
    pub fn prefixed(name: &str) -> (r: PrefixedCommandGroupBuilder)
        ensures
            r.name@ == name@,
            r.summary is None,
            r.description is None,
            r.children@.len() == 0,
            r.on_errors@.len() == 0,
    {
        PrefixedCommandGroupBuilder::new(name)
    }

    /// Starts building a slash command group with the given name.
    pub fn slash(name: &str) -> (r: SlashCommandGroupBuilder)
        ensures
            r.name@ == name@,
            r.children@.len() == 0,
    {
        SlashCommandGroupBuilder::new(name)
    }

    /// Starts building a message command group with the given name.
    pub fn message(name: &str) -> (r: MessageCommandGroupBuilder)
        ensures
            r.name@ == name@,
            r.children@.len() == 0,
            r.on_errors@.len() == 0,
    {
        MessageCommandGroupBuilder::new(name)
    }
}

/// Adding commands to a bot keeps the slash commands it already had, in order, and puts
/// those of the added nodes after them.
pub proof fn law_flatten_slash_appends(a: Seq<CommandNode>, b: Seq<CommandNode>)
    ensures
        spec_flatten_slash(a + b) == spec_flatten_slash(a) + spec_flatten_slash(b),
    decreases b.len(),
{
    if b.len() == 0 {
        assert(a + b =~= a);
        assert(spec_flatten_slash(a) + spec_flatten_slash(b) =~= spec_flatten_slash(a));
    } else {
        assert((a + b).drop_last() =~= a + b.drop_last());
        assert((a + b).last() == b.last());
        law_flatten_slash_appends(a, b.drop_last());
        assert(spec_flatten_slash(a + b) =~= spec_flatten_slash(a) + spec_flatten_slash(b));
    }
}

/// Adding commands to a bot keeps the message commands it already had, in order, and puts
/// those of the added nodes after them.
pub proof fn law_flatten_message_appends(a: Seq<CommandNode>, b: Seq<CommandNode>)
    ensures
        spec_flatten_message(a + b) == spec_flatten_message(a) + spec_flatten_message(b),
    decreases b.len(),
{
    if b.len() == 0 {
        assert(a + b =~= a);
        assert(spec_flatten_message(a) + spec_flatten_message(b) =~= spec_flatten_message(a));
    } else {
        assert((a + b).drop_last() =~= a + b.drop_last());
        assert((a + b).last() == b.last());
        law_flatten_message_appends(a, b.drop_last());
        assert(spec_flatten_message(a + b) =~= spec_flatten_message(a) + spec_flatten_message(
            b,
        ));
    }
}

} // verus!
