//! Message commands: entries of a message's context menu (right click > Apps).

pub mod routing;

use vstd::prelude::*;

use crate::commands::errors::ArgumentError;
use crate::commands::CommandNode;
use crate::localizations::Localizations;

verus! {

/// A message command.
pub struct MessageCommand {
    /// The command's name, shown to the user.
    pub name: String,
    /// The command's name per locale.
    pub name_i18n: Localizations,
    /// The position of the command's handler in the bot's handler table.
    pub handler: usize,
    /// The positions of the command's error handlers.
    pub on_errors: Vec<usize>,
    /// The positions of the command's permission checks.
    pub checks: Vec<usize>,
}

/// A builder of message commands.
pub struct MessageCommandBuilder {
    /// The command's name.
    pub name: String,
    /// The command's name per locale.
    pub name_i18n: Localizations,
    /// The position of the command's handler.
    pub handler: usize,
    /// The positions of the command's error handlers.
    pub on_errors: Vec<usize>,
    /// The positions of the command's permission checks.
    pub checks: Vec<usize>,
}

impl MessageCommandBuilder {
    /// A builder with the given name and handler and nothing else set.
    pub fn new(name: &str, handler: usize) -> (r: MessageCommandBuilder)
        ensures
            r.name@ == name@,
            r.name_i18n@ == Map::<Seq<char>, Seq<char>>::empty(),
            r.handler == handler,
            r.on_errors@.len() == 0,
            r.checks@.len() == 0,
    {
        MessageCommandBuilder {
            name: name.to_owned(),
            name_i18n: Localizations::new(),
            handler,
            on_errors: Vec::new(),
            checks: Vec::new(),
        }
    }

    /// Sets the command's name in a locale.
    pub fn name_i18n(self, lang: &str, name: &str) -> (r: Self)
        ensures
            r.name_i18n@ == self.name_i18n@.insert(lang@, name@),
            r.name == self.name,
            r.handler == self.handler,
            r.on_errors == self.on_errors,
            r.checks == self.checks,
    {
        let mut s = self;
        s.name_i18n.insert(lang.to_owned(), name.to_owned());
        s
    }

    /// Adds an error handler, run when the command fails.
    pub fn on_error(self, handler: usize) -> (r: Self)
        ensures
            r.on_errors@ == self.on_errors@.push(handler),
            r == (MessageCommandBuilder { on_errors: r.on_errors, ..self }),
    {
        let mut s = self;
        s.on_errors.push(handler);
        s
    }

    /// Adds a permission check, run before the command's handler.
    pub fn check(self, checker: usize) -> (r: Self)
        ensures
            r.checks@ == self.checks@.push(checker),
            r == (MessageCommandBuilder { checks: r.checks, ..self }),
    {
        let mut s = self;
        s.checks.push(checker);
        s
    }

    /// The command this builder builds.
    pub open spec fn spec_build(self) -> MessageCommand {
        MessageCommand {
            name: self.name,
            name_i18n: self.name_i18n,
            handler: self.handler,
            on_errors: self.on_errors,
            checks: self.checks,
        }
    }

    /// Builds the command.
    pub fn build(self) -> (r: MessageCommand)
        ensures
            r == self.spec_build(),
    {
        MessageCommand {
            name: self.name,
            name_i18n: self.name_i18n,
            handler: self.handler,
            on_errors: self.on_errors,
            checks: self.checks,
        }
    }
}

/// A group of message commands.
pub struct MessageCommandGroup {
    /// The group's name.
    pub name: String,
    /// The group's subcommands and subgroups.
    pub children: Vec<CommandNode>,
    /// The positions of the group's error handlers.
    pub on_errors: Vec<usize>,
}

impl MessageCommandGroup {
    /// Starts building a group with the given name.
    pub fn build(name: &str) -> (r: MessageCommandGroupBuilder)
        ensures
            r.name@ == name@,
            r.children@.len() == 0,
            r.on_errors@.len() == 0,
    {
        MessageCommandGroupBuilder::new(name)
    }
}

/// A builder of message command groups.
pub struct MessageCommandGroupBuilder {
    /// The group's name.
    pub name: String,
    /// The group's subcommands and subgroups.
    pub children: Vec<CommandNode>,
    /// The positions of the group's error handlers.
    pub on_errors: Vec<usize>,
}

impl MessageCommandGroupBuilder {
    /// A builder of an empty group with the given name.
    pub fn new(name: &str) -> (r: MessageCommandGroupBuilder)
        ensures
            r.name@ == name@,
            r.children@.len() == 0,
            r.on_errors@.len() == 0,
    {
        MessageCommandGroupBuilder { name: name.to_owned(), children: Vec::new(), on_errors: Vec::new() }
    }

    /// Adds a command as the group's last child.
    pub fn command(self, command: MessageCommand) -> (r: Self)
        ensures
            r.children@ == self.children@.push(CommandNode::MessageCommand(command)),
            r == (MessageCommandGroupBuilder { children: r.children, ..self }),
    {
        let mut s = self;
        s.children.push(CommandNode::MessageCommand(command));
        s
    }

    /// Adds a subgroup as the group's last child.
    pub fn nest(self, group: MessageCommandGroup) -> (r: Self)
        ensures
            r.children@ == self.children@.push(CommandNode::MessageCommandGroup(group)),
            r == (MessageCommandGroupBuilder { children: r.children, ..self }),
    {
        let mut s = self;
        s.children.push(CommandNode::MessageCommandGroup(group));
        s
    }

    /// Adds an error handler, run when a command of the group fails.
    pub fn on_error(self, handler: usize) -> (r: Self)
        ensures
            r.on_errors@ == self.on_errors@.push(handler),
            r == (MessageCommandGroupBuilder { on_errors: r.on_errors, ..self }),
    {
        let mut s = self;
        s.on_errors.push(handler);
        s
    }

    /// Builds the group.
    pub fn build(self) -> (r: MessageCommandGroup)
        ensures
            r == (MessageCommandGroup {
                name: self.name,
                children: self.children,
                on_errors: self.on_errors,
            }),
    {
        MessageCommandGroup { name: self.name, children: self.children, on_errors: self.on_errors }
    }
}

/// Finds the message a message command was run on among the messages Discord resolved
/// for the interaction: the position of the first resolved message whose ID is the
/// interaction's target.
///
/// A missing target, a missing set of resolved messages, or a target that is not among
/// them is [`ArgumentError::MissingResolved`].
pub fn find_target_message(target_id: Option<u64>, resolved_message_ids: Option<&Vec<u64>>) -> (r:
    Result<usize, ArgumentError>)
    ensures
        match (target_id, resolved_message_ids) {
            (Some(t), Some(ids)) => if ids@.contains(t) {
                r matches Ok(k) && k < ids@.len() && ids@[k as int] == t && forall|j: int|
                    0 <= j < k ==> ids@[j] != t
            } else {
                r == Err::<usize, ArgumentError>(ArgumentError::MissingResolved)
            },
            _ => r == Err::<usize, ArgumentError>(ArgumentError::MissingResolved),
        },
{
    let t = match target_id {
        Some(t) => t,
        None => {
            return Err(ArgumentError::MissingResolved);
        },
    };
    let ids = match resolved_message_ids {
        Some(ids) => ids,
        None => {
            return Err(ArgumentError::MissingResolved);
        },
    };
    let mut k: usize = 0;
    while k < ids.len()
        invariant
            k <= ids.len(),
            target_id == Some(t),
            resolved_message_ids == Some(ids),
            forall|j: int| 0 <= j < k ==> ids@[j] != t,
        decreases ids.len() - k,
    {
        if ids[k] == t {
            return Ok(k);
        }
        k += 1;
    }
    Err(ArgumentError::MissingResolved)
}

} // verus!
