//! Message-based (prefixed) commands, e.g. `!help`.

pub mod arguments;
pub mod parsing;
pub mod prefixes;
pub mod routing;

use vstd::prelude::*;

use crate::commands::CommandNode;
use crate::text::str_eq;

verus! {

/// The texts of a list of strings.
pub open spec fn strings_view(strings: Seq<String>) -> Seq<Seq<char>> {
    strings.map_values(|s: String| s@)
}

/// Types that can be turned into a list of command aliases: one alias, or several.
pub trait IntoAliases: Sized {
    /// The aliases this value stands for, in order.
    spec fn spec_aliases(&self) -> Seq<Seq<char>>;

    /// The aliases.
    fn into_aliases(self) -> (r: Vec<String>)
        ensures
            strings_view(r@) == self.spec_aliases(),
    ;
}

impl IntoAliases for String {
    open spec fn spec_aliases(&self) -> Seq<Seq<char>> {
        seq![self@]
    }

    fn into_aliases(self) -> (r: Vec<String>) {
        let mut v = Vec::new();
        v.push(self);
        assert(strings_view(v@) =~= seq![v@[0]@]);
        v
    }
}

impl<'a> IntoAliases for &'a str {
    open spec fn spec_aliases(&self) -> Seq<Seq<char>> {
        seq![self@]
    }

    fn into_aliases(self) -> (r: Vec<String>) {
        let mut v = Vec::new();
        v.push(self.to_owned());
        assert(strings_view(v@) =~= seq![v@[0]@]);
        v
    }
}

impl IntoAliases for Vec<String> {
    open spec fn spec_aliases(&self) -> Seq<Seq<char>> {
        strings_view(self@)
    }

    fn into_aliases(self) -> (r: Vec<String>) {
        self
    }
}

impl<'a> IntoAliases for Vec<&'a str> {
    open spec fn spec_aliases(&self) -> Seq<Seq<char>> {
        self@.map_values(|s: &str| s@)
    }

    fn into_aliases(self) -> (r: Vec<String>) {
        let r = strs_to_strings(self.as_slice());
        assert(strings_view(r@) =~= self@.map_values(|s: &str| s@));
        r
    }
}

impl<'a, 'b> IntoAliases for &'b [&'a str] {
    open spec fn spec_aliases(&self) -> Seq<Seq<char>> {
        self@.map_values(|s: &str| s@)
    }

    fn into_aliases(self) -> (r: Vec<String>) {
        let r = strs_to_strings(self);
        assert(strings_view(r@) =~= self@.map_values(|s: &str| s@));
        r
    }
}

/// Copies string slices into owned strings, in order.
fn strs_to_strings(strs: &[&str]) -> (r: Vec<String>)
    ensures
        r@.len() == strs@.len(),
        forall|i: int| 0 <= i < r@.len() ==> #[trigger] r@[i]@ == strs@[i]@,
{
    let mut r: Vec<String> = Vec::new();
    let mut k: usize = 0;
    while k < strs.len()
        invariant
            k <= strs.len(),
            r@.len() == k,
            forall|i: int| 0 <= i < k ==> #[trigger] r@[i]@ == strs@[i]@,
        decreases strs.len() - k,
    {
        r.push(strs[k].to_owned());
        k += 1;
    }
    r
}

/// A prefixed command.
pub struct PrefixedCommand {
    /// The command's name, used to invoke the command.
    pub name: String,
    /// Secondary names that can also be used to invoke the command.
    pub aliases: Vec<String>,
    /// The command's summary, ideally one line.
    pub summary: Option<String>,
    /// The command's description.
    pub description: Option<String>,
    /// The position of the command's handler in the bot's handler table.
    pub handler: usize,
    /// The positions of the command's error handlers in the bot's error handler table.
    pub on_errors: Vec<usize>,
}

/// Whether `name` is the command's name or one of its aliases.
pub open spec fn identifies(command: PrefixedCommand, name: Seq<char>) -> bool {
    command.name@ == name || exists|i: int|
        0 <= i < command.aliases@.len() && (#[trigger] command.aliases@[i])@ == name
}

impl PrefixedCommand {
    /// Starts building a command with the given name and handler.
    pub fn build(name: &str, handler: usize) -> (r: PrefixedCommandBuilder)
        ensures
            r.name@ == name@,
            r.aliases@.len() == 0,
            r.summary is None,
            r.description is None,
            r.handler == handler,
            r.on_errors@.len() == 0,
    {
        PrefixedCommandBuilder::new(name, handler)
    }

    /// All the command's identifiers: its name followed by its aliases.
    pub fn identifiers(&self) -> (r: Vec<String>)
        ensures
            r@ == seq![self.name] + self.aliases@,
    {
        let mut identifiers = Vec::new();
        identifiers.push(self.name.clone());
        let mut k: usize = 0;
        while k < self.aliases.len()
            invariant
                k <= self.aliases.len(),
                identifiers@ == seq![self.name] + self.aliases@.take(k as int),
            decreases self.aliases.len() - k,
        {
            identifiers.push(self.aliases[k].clone());
            k += 1;
            assert(identifiers@ =~= seq![self.name] + self.aliases@.take(k as int));
        }
        assert(self.aliases@.take(self.aliases@.len() as int) =~= self.aliases@);
        identifiers
    }

    /// Whether `name` invokes this command: it is the command's name or one of its aliases.
    pub fn is_identified_by(&self, name: &str) -> (r: bool)
        ensures
            r == identifies(*self, name@),
    {
        if str_eq(self.name.as_str(), name) {
            return true;
        }
        let mut k: usize = 0;
        while k < self.aliases.len()
            invariant
                k <= self.aliases.len(),
                forall|i: int| 0 <= i < k ==> (#[trigger] self.aliases@[i])@ != name@,
            decreases self.aliases.len() - k,
        {
            if str_eq(self.aliases[k].as_str(), name) {
                return true;
            }
            k += 1;
        }
        false
    }
}

/// A builder of prefixed commands.
pub struct PrefixedCommandBuilder {
    /// The command's name.
    pub name: String,
    /// The command's aliases.
    pub aliases: Vec<String>,
    /// The command's summary.
    pub summary: Option<String>,
    /// The command's description.
    pub description: Option<String>,
    /// The position of the command's handler in the bot's handler table.
    pub handler: usize,
    /// The positions of the command's error handlers.
    pub on_errors: Vec<usize>,
}

impl PrefixedCommandBuilder {
    /// A builder with the given name and handler and nothing else set.
    pub fn new(name: &str, handler: usize) -> (r: PrefixedCommandBuilder)
        ensures
            r.name@ == name@,
            r.aliases@.len() == 0,
            r.summary is None,
            r.description is None,
            r.handler == handler,
            r.on_errors@.len() == 0,
    {
        PrefixedCommandBuilder {
            name: name.to_owned(),
            aliases: Vec::new(),
            summary: None,
            description: None,
            handler,
            on_errors: Vec::new(),
        }
    }

    /// Adds one or more aliases to the command, after those it already has.
    pub fn aliases<A: IntoAliases>(self, aliases: A) -> (r: Self)
        ensures
            strings_view(r.aliases@) == strings_view(self.aliases@) + aliases.spec_aliases(),
            r == (PrefixedCommandBuilder { aliases: r.aliases, ..self }),
    {
        let mut s = self;
        let mut added = aliases.into_aliases();
        let ghost before = s.aliases@;
        let ghost new = added@;
        s.aliases.append(&mut added);
        assert(strings_view(s.aliases@) =~= strings_view(before) + strings_view(new));
        s
    }

    /// Sets the command's summary.
    pub fn summary(self, summary: &str) -> (r: Self)
        ensures
            r.summary matches Some(s) && s@ == summary@,
            r == (PrefixedCommandBuilder { summary: r.summary, ..self }),
    {
        PrefixedCommandBuilder { summary: Some(summary.to_owned()), ..self }
    }

    /// Sets the command's description.
    pub fn description(self, description: &str) -> (r: Self)
        ensures
            r.description matches Some(s) && s@ == description@,
            r == (PrefixedCommandBuilder { description: r.description, ..self }),
    {
        PrefixedCommandBuilder { description: Some(description.to_owned()), ..self }
    }

    /// Adds an error handler, run when the command fails.
    pub fn on_error(self, handler: usize) -> (r: Self)
        ensures
            r.on_errors@ == self.on_errors@.push(handler),
            r == (PrefixedCommandBuilder { on_errors: r.on_errors, ..self }),
    {
        let mut s = self;
        s.on_errors.push(handler);
        s
    }

    /// The command this builder builds.
    pub open spec fn spec_build(self) -> PrefixedCommand {
        PrefixedCommand {
            name: self.name,
            aliases: self.aliases,
            summary: self.summary,
            description: self.description,
            handler: self.handler,
            on_errors: self.on_errors,
        }
    }

    /// Builds the command.
    pub fn build(self) -> (r: PrefixedCommand)
        ensures
            r == self.spec_build(),
    {
        PrefixedCommand {
            name: self.name,
            aliases: self.aliases,
            summary: self.summary,
            description: self.description,
            handler: self.handler,
            on_errors: self.on_errors,
        }
    }
}

/// A group of prefixed commands, used to organize commands into categories.
pub struct PrefixedCommandGroup {
    /// The group's name.
    pub name: String,
    /// The group's summary.
    pub summary: Option<String>,
    /// The group's description.
    pub description: Option<String>,
    /// The group's subcommands and subgroups.
    pub children: Vec<CommandNode>,
    /// The positions of the group's error handlers.
    pub on_errors: Vec<usize>,
}

impl PrefixedCommandGroup {
    /// Starts building a group with the given name.
    pub fn build(name: &str) -> (r: PrefixedCommandGroupBuilder)
        ensures
            r.name@ == name@,
            r.summary is None,
            r.description is None,
            r.children@.len() == 0,
            r.on_errors@.len() == 0,
    {
        PrefixedCommandGroupBuilder::new(name)
    }
}

/// A builder of prefixed command groups.
pub struct PrefixedCommandGroupBuilder {
    /// The group's name.
    pub name: String,
    /// The group's summary.
    pub summary: Option<String>,
    /// The group's description.
    pub description: Option<String>,
    /// The group's subcommands and subgroups.
    pub children: Vec<CommandNode>,
    /// The positions of the group's error handlers.
    pub on_errors: Vec<usize>,
}

impl PrefixedCommandGroupBuilder {
    /// A builder of an empty group with the given name.
    pub fn new(name: &str) -> (r: PrefixedCommandGroupBuilder)
        ensures
            r.name@ == name@,
            r.summary is None,
            r.description is None,
            r.children@.len() == 0,
            r.on_errors@.len() == 0,
    {
        PrefixedCommandGroupBuilder {
            name: name.to_owned(),
            summary: None,
            description: None,
            children: Vec::new(),
            on_errors: Vec::new(),
        }
    }

    /// Sets the group's summary.
    pub fn summary(self, summary: &str) -> (r: Self)
        ensures
            r.summary matches Some(s) && s@ == summary@,
            r == (PrefixedCommandGroupBuilder { summary: r.summary, ..self }),
    {
        PrefixedCommandGroupBuilder { summary: Some(summary.to_owned()), ..self }
    }

    /// Sets the group's description.
    pub fn description(self, description: &str) -> (r: Self)
        ensures
            r.description matches Some(s) && s@ == description@,
            r == (PrefixedCommandGroupBuilder { description: r.description, ..self }),
    {
        PrefixedCommandGroupBuilder { description: Some(description.to_owned()), ..self }
    }

    /// Adds a command as the group's last child.
    pub fn command(self, command: PrefixedCommandBuilder) -> (r: Self)
        ensures
            r.children@ == self.children@.push(CommandNode::PrefixedCommand(command.spec_build())),
            r == (PrefixedCommandGroupBuilder { children: r.children, ..self }),
    {
        let mut s = self;
        s.children.push(CommandNode::PrefixedCommand(command.build()));
        s
    }

    /// Adds a subgroup as the group's last child.
    pub fn nest(self, group: PrefixedCommandGroupBuilder) -> (r: Self)
        ensures
            r.children@ == self.children@.push(
                CommandNode::PrefixedCommandGroup(group.spec_build()),
            ),
            r == (PrefixedCommandGroupBuilder { children: r.children, ..self }),
    {
        let mut s = self;
        s.children.push(CommandNode::PrefixedCommandGroup(group.build()));
        s
    }

    /// Adds an error handler, run when a command of the group fails.
    pub fn on_error(self, handler: usize) -> (r: Self)
        ensures
            r.on_errors@ == self.on_errors@.push(handler),
            r == (PrefixedCommandGroupBuilder { on_errors: r.on_errors, ..self }),
    {
        let mut s = self;
        s.on_errors.push(handler);
        s
    }

    /// The group this builder builds.
    pub open spec fn spec_build(self) -> PrefixedCommandGroup {
        PrefixedCommandGroup {
            name: self.name,
            summary: self.summary,
            description: self.description,
            children: self.children,
            on_errors: self.on_errors,
        }
    }

    /// Builds the group.
    pub fn build(self) -> (r: PrefixedCommandGroup)
        ensures
            r == self.spec_build(),
    {
        PrefixedCommandGroup {
            name: self.name,
            summary: self.summary,
            description: self.description,
            children: self.children,
            on_errors: self.on_errors,
        }
    }
}

} // verus!
