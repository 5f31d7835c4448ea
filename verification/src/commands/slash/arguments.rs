//! Slash-command argument metadata and the reading of received argument values.

use vstd::prelude::*;

use crate::commands::errors::ArgumentError;
use crate::localizations::Localizations;

verus! {

/// A unified API to build slash-command argument metadata.
pub struct Argument;

impl Argument {
    /// Starts building a string argument with the given name (1 to 32 characters long).
    pub fn string(name: &str) -> (r: StringArgumentBuilder)
        ensures
            r.name@ == name@,
            r.name_i18n@ == Map::<Seq<char>, Seq<char>>::empty(),
            r.description@ == default_argument_description(),
            r.description_i18n@ == Map::<Seq<char>, Seq<char>>::empty(),
            r.min_length is None,
            r.max_length is None,
    {
        StringArgumentBuilder::new(name)
    }
}

/// The description arguments get when none is set.
pub open spec fn default_argument_description() -> Seq<char> {
    seq![
        'A', ' ', 'D', 'y', 'n', 'c', 'o', 'r', 'd', ' ', 'a', 'r', 'g', 'u', 'm', 'e', 'n', 't',
        '.',
    ]
}

/// Slash-command argument types.
#[derive(Debug, Clone, Copy, PartialEq, Eq, Structural)]
pub enum ArgumentType {
    /// A required string.
    String,
    /// An optional string.
    OptionalString,
}

/// Slash-command argument metadata.
pub enum ArgumentMeta {
    /// A required string argument.
    String(StringArgument),
    /// An optional string argument.
    OptionalString(OptionalStringArgument),
}

impl ArgumentMeta {
    /// The argument's name.
    pub open spec fn spec_name(&self) -> String {
        match self {
            ArgumentMeta::String(inner) => inner.name,
            ArgumentMeta::OptionalString(inner) => inner.name,
        }
    }

    /// The argument's type.
    pub open spec fn spec_argument_type(&self) -> ArgumentType {
        match self {
            ArgumentMeta::String(_) => ArgumentType::String,
            ArgumentMeta::OptionalString(_) => ArgumentType::OptionalString,
        }
    }

    /// Returns the argument's name.
    pub fn name(&self) -> (r: &String)
        ensures
            *r == self.spec_name(),
    {
        match self {
            ArgumentMeta::String(inner) => &inner.name,
            ArgumentMeta::OptionalString(inner) => &inner.name,
        }
    }

    /// Returns the argument's type.
    pub fn argument_type(&self) -> (r: ArgumentType)
        ensures
            r == self.spec_argument_type(),
    {
        match self {
            ArgumentMeta::String(_) => ArgumentType::String,
            ArgumentMeta::OptionalString(_) => ArgumentType::OptionalString,
        }
    }
}

/// The metadata of a required string argument.
pub struct StringArgument {
    /// The argument's name.
    pub name: String,
    /// The argument's name per locale.
    pub name_i18n: Localizations,
    /// The argument's description.
    pub description: String,
    /// The argument's description per locale.
    pub description_i18n: Localizations,
    /// The smallest length a value may have.
    pub min_length: Option<u16>,
    /// The largest length a value may have.
    pub max_length: Option<u16>,
}

/// The metadata of an optional string argument.
pub struct OptionalStringArgument {
    /// The argument's name.
    pub name: String,
    /// The argument's name per locale.
    pub name_i18n: Localizations,
    /// The argument's description.
    pub description: String,
    /// The argument's description per locale.
    pub description_i18n: Localizations,
    /// The smallest length a value may have.
    pub min_length: Option<u16>,
    /// The largest length a value may have.
    pub max_length: Option<u16>,
}

/// A builder of string argument metadata.
pub struct StringArgumentBuilder {
    /// The argument's name.
    pub name: String,
    /// The argument's name per locale.
    pub name_i18n: Localizations,
    /// The argument's description.
    pub description: String,
    /// The argument's description per locale.
    pub description_i18n: Localizations,
    /// The smallest length a value may have.
    pub min_length: Option<u16>,
    /// The largest length a value may have.
    pub max_length: Option<u16>,
}

/// A builder of optional string argument metadata.
pub struct OptionalStringArgumentBuilder {
    /// The argument's name.
    pub name: String,
    /// The argument's name per locale.
    pub name_i18n: Localizations,
    /// The argument's description.
    pub description: String,
    /// The argument's description per locale.
    pub description_i18n: Localizations,
    /// The smallest length a value may have.
    pub min_length: Option<u16>,
    /// The largest length a value may have.
    pub max_length: Option<u16>,
}

impl StringArgumentBuilder {
    fn new(name: &str) -> (r: StringArgumentBuilder)
        ensures
            r.name@ == name@,
            r.name_i18n@ == Map::<Seq<char>, Seq<char>>::empty(),
            r.description@ == default_argument_description(),
            r.description_i18n@ == Map::<Seq<char>, Seq<char>>::empty(),
            r.min_length is None,
            r.max_length is None,
    {
        let description = "A Dyncord argument.";
        proof {
            reveal_strlit("A Dyncord argument.");
        }
        assert(description@ =~= default_argument_description());
        StringArgumentBuilder {
            name: name.to_owned(),
            name_i18n: Localizations::new(),
            description: description.to_owned(),
            description_i18n: Localizations::new(),
            min_length: None,
            max_length: None,
        }
    }

    /// Sets the argument's name in a locale.
    pub fn name_i18n(self, lang: &str, name: &str) -> (r: Self)
        ensures
            r.name_i18n@ == self.name_i18n@.insert(lang@, name@),
            r.name == self.name,
            r.description == self.description,
            r.description_i18n@ == self.description_i18n@,
            r.min_length == self.min_length,
            r.max_length == self.max_length,
    {
        let mut s = self;
        s.name_i18n.insert(lang.to_owned(), name.to_owned());
        s
    }

    /// Sets the argument's default description.
    pub fn description(self, description: &str) -> (r: Self)
        ensures
            r.description@ == description@,
            r.name == self.name,
            r.name_i18n@ == self.name_i18n@,
            r.description_i18n@ == self.description_i18n@,
            r.min_length == self.min_length,
            r.max_length == self.max_length,
    {
        let mut s = self;
        s.description = description.to_owned();
        s
    }

    /// Sets the argument's description in a locale.
    pub fn description_i18n(self, lang: &str, description: &str) -> (r: Self)
        ensures
            r.description_i18n@ == self.description_i18n@.insert(lang@, description@),
            r.name == self.name,
            r.name_i18n@ == self.name_i18n@,
            r.description == self.description,
            r.min_length == self.min_length,
            r.max_length == self.max_length,
    {
        let mut s = self;
        s.description_i18n.insert(lang.to_owned(), description.to_owned());
        s
    }

    /// Sets the smallest length a value may have.
    pub fn min_length(self, length: u16) -> (r: Self)
        ensures
            r.min_length == Some(length),
            r.name == self.name,
            r.name_i18n@ == self.name_i18n@,
            r.description == self.description,
            r.description_i18n@ == self.description_i18n@,
            r.max_length == self.max_length,
    {
        let mut s = self;
        s.min_length = Some(length);
        s
    }

    /// Sets the largest length a value may have.
    pub fn max_length(self, length: u16) -> (r: Self)
        ensures
            r.max_length == Some(length),
            r.name == self.name,
            r.name_i18n@ == self.name_i18n@,
            r.description == self.description,
            r.description_i18n@ == self.description_i18n@,
            r.min_length == self.min_length,
    {
        let mut s = self;
        s.max_length = Some(length);
        s
    }

    /// Makes the argument optional, keeping everything set so far.
    pub fn optional(self) -> (r: OptionalStringArgumentBuilder)
        ensures
            r.name == self.name,
            r.name_i18n@ == self.name_i18n@,
            r.description == self.description,
            r.description_i18n@ == self.description_i18n@,
            r.min_length == self.min_length,
            r.max_length == self.max_length,
    {
        OptionalStringArgumentBuilder {
            name: self.name,
            name_i18n: self.name_i18n,
            description: self.description,
            description_i18n: self.description_i18n,
            min_length: self.min_length,
            max_length: self.max_length,
        }
    }

    /// The metadata this builder builds.
    pub open spec fn spec_build(self) -> StringArgument {
        StringArgument {
            name: self.name,
            name_i18n: self.name_i18n,
            description: self.description,
            description_i18n: self.description_i18n,
            min_length: self.min_length,
            max_length: self.max_length,
        }
    }

    /// Builds the argument's metadata.
    pub fn build(self) -> (r: StringArgument)
        ensures
            r == self.spec_build(),
    {
        StringArgument {
            name: self.name,
            name_i18n: self.name_i18n,
            description: self.description,
            description_i18n: self.description_i18n,
            min_length: self.min_length,
            max_length: self.max_length,
        }
    }
}

impl OptionalStringArgumentBuilder {
    /// Sets the argument's name in a locale.
    pub fn name_i18n(self, lang: &str, name: &str) -> (r: Self)
        ensures
            r.name_i18n@ == self.name_i18n@.insert(lang@, name@),
            r.name == self.name,
            r.description == self.description,
            r.description_i18n@ == self.description_i18n@,
            r.min_length == self.min_length,
            r.max_length == self.max_length,
    {
        let mut s = self;
        s.name_i18n.insert(lang.to_owned(), name.to_owned());
        s
    }

    /// Sets the argument's default description.
    pub fn description(self, description: &str) -> (r: Self)
        ensures
            r.description@ == description@,
            r.name == self.name,
            r.name_i18n@ == self.name_i18n@,
            r.description_i18n@ == self.description_i18n@,
            r.min_length == self.min_length,
            r.max_length == self.max_length,
    {
        let mut s = self;
        s.description = description.to_owned();
        s
    }

    /// Sets the argument's description in a locale.
    pub fn description_i18n(self, lang: &str, description: &str) -> (r: Self)
        ensures
            r.description_i18n@ == self.description_i18n@.insert(lang@, description@),
            r.name == self.name,
            r.name_i18n@ == self.name_i18n@,
            r.description == self.description,
            r.min_length == self.min_length,
            r.max_length == self.max_length,
    {
        let mut s = self;
        s.description_i18n.insert(lang.to_owned(), description.to_owned());
        s
    }

    /// Sets the smallest length a value may have.
    pub fn min_length(self, length: u16) -> (r: Self)
        ensures
            r.min_length == Some(length),
            r.name == self.name,
            r.name_i18n@ == self.name_i18n@,
            r.description == self.description,
            r.description_i18n@ == self.description_i18n@,
            r.max_length == self.max_length,
    {
        let mut s = self;
        s.min_length = Some(length);
        s
    }

    /// Sets the largest length a value may have.
    pub fn max_length(self, length: u16) -> (r: Self)
        ensures
            r.max_length == Some(length),
            r.name == self.name,
            r.name_i18n@ == self.name_i18n@,
            r.description == self.description,
            r.description_i18n@ == self.description_i18n@,
            r.min_length == self.min_length,
    {
        let mut s = self;
        s.max_length = Some(length);
        s
    }

    /// The metadata this builder builds.
    pub open spec fn spec_build(self) -> OptionalStringArgument {
        OptionalStringArgument {
            name: self.name,
            name_i18n: self.name_i18n,
            description: self.description,
            description_i18n: self.description_i18n,
            min_length: self.min_length,
            max_length: self.max_length,
        }
    }

    /// Builds the argument's metadata.
    pub fn build(self) -> (r: OptionalStringArgument)
        ensures
            r == self.spec_build(),
    {
        OptionalStringArgument {
            name: self.name,
            name_i18n: self.name_i18n,
            description: self.description,
            description_i18n: self.description_i18n,
            min_length: self.min_length,
            max_length: self.max_length,
        }
    }
}

impl From<StringArgumentBuilder> for ArgumentMeta {
    fn from(value: StringArgumentBuilder) -> (r: ArgumentMeta) {
        ArgumentMeta::String(value.build())
    }
}

impl vstd::std_specs::convert::FromSpecImpl<StringArgumentBuilder> for ArgumentMeta {
    open spec fn obeys_from_spec() -> bool {
        true
    }

    open spec fn from_spec(v: StringArgumentBuilder) -> ArgumentMeta {
        ArgumentMeta::String(v.spec_build())
    }
}

impl From<OptionalStringArgumentBuilder> for ArgumentMeta {
    fn from(value: OptionalStringArgumentBuilder) -> (r: ArgumentMeta) {
        ArgumentMeta::OptionalString(value.build())
    }
}

impl vstd::std_specs::convert::FromSpecImpl<OptionalStringArgumentBuilder> for ArgumentMeta {
    open spec fn obeys_from_spec() -> bool {
        true
    }

    open spec fn from_spec(v: OptionalStringArgumentBuilder) -> ArgumentMeta {
        ArgumentMeta::OptionalString(v.spec_build())
    }
}

impl From<StringArgument> for ArgumentMeta {
    fn from(value: StringArgument) -> (r: ArgumentMeta) {
        ArgumentMeta::String(value)
    }
}

impl vstd::std_specs::convert::FromSpecImpl<StringArgument> for ArgumentMeta {
    open spec fn obeys_from_spec() -> bool {
        true
    }

    open spec fn from_spec(v: StringArgument) -> ArgumentMeta {
        ArgumentMeta::String(v)
    }
}

impl From<OptionalStringArgument> for ArgumentMeta {
    fn from(value: OptionalStringArgument) -> (r: ArgumentMeta) {
        ArgumentMeta::OptionalString(value)
    }
}

impl vstd::std_specs::convert::FromSpecImpl<OptionalStringArgument> for ArgumentMeta {
    open spec fn obeys_from_spec() -> bool {
        true
    }

    open spec fn from_spec(v: OptionalStringArgument) -> ArgumentMeta {
        ArgumentMeta::OptionalString(v)
    }
}

impl From<StringArgumentBuilder> for StringArgument {
    fn from(value: StringArgumentBuilder) -> (r: StringArgument) {
        value.build()
    }
}

impl vstd::std_specs::convert::FromSpecImpl<StringArgumentBuilder> for StringArgument {
    open spec fn obeys_from_spec() -> bool {
        true
    }

    open spec fn from_spec(v: StringArgumentBuilder) -> StringArgument {
        v.spec_build()
    }
}

impl From<OptionalStringArgumentBuilder> for OptionalStringArgument {
    fn from(value: OptionalStringArgumentBuilder) -> (r: OptionalStringArgument) {
        value.build()
    }
}

impl vstd::std_specs::convert::FromSpecImpl<OptionalStringArgumentBuilder> for OptionalStringArgument {
    open spec fn obeys_from_spec() -> bool {
        true
    }

    open spec fn from_spec(v: OptionalStringArgumentBuilder) -> OptionalStringArgument {
        v.spec_build()
    }
}

/// A value Discord sent for a slash command's option.
pub enum OptionValue {
    /// A string value.
    String(String),
    /// A value of any other type.
    Other,
}

/// An option Discord sent with a slash command call: the argument's name and value.
pub struct CommandDataOption {
    /// The name of the argument.
    pub name: String,
    /// The value received.
    pub value: OptionValue,
}

impl Clone for CommandDataOption {
    fn clone(&self) -> (r: Self)
        ensures
            r == *self,
    {
        CommandDataOption {
            name: self.name.clone(),
            value: match &self.value {
                OptionValue::String(v) => OptionValue::String(v.clone()),
                OptionValue::Other => OptionValue::Other,
            },
        }
    }
}

/// Types that slash command handlers take as arguments.
pub trait IntoArgument: Sized {
    /// Converts the option received for the argument (`None` when the argument was
    /// declared but not received) into the handler's argument.
    fn into_argument_primitive(argument: Option<CommandDataOption>) -> Result<Self, ArgumentError>;

    /// The Discord-native type of the argument this type is read from.
    fn argument_type() -> ArgumentType;
}

impl IntoArgument for String {
    /// A required string: the received string; [`ArgumentError::Mistyped`] for a value of
    /// another type and [`ArgumentError::Missing`] when nothing was received.
    fn into_argument_primitive(argument: Option<CommandDataOption>) -> (r: Result<
        String,
        ArgumentError,
    >)
        ensures
            match argument {
                Some(option) => match option.value {
                    OptionValue::String(v) => r == Ok::<String, ArgumentError>(v),
                    OptionValue::Other => r == Err::<String, ArgumentError>(
                        ArgumentError::Mistyped,
                    ),
                },
                None => r == Err::<String, ArgumentError>(ArgumentError::Missing),
            },
    {
        match argument {
            Some(option) => match option.value {
                OptionValue::String(value) => Ok(value),
                OptionValue::Other => Err(ArgumentError::Mistyped),
            },
            None => Err(ArgumentError::Missing),
        }
    }

    fn argument_type() -> (r: ArgumentType)
        ensures
            r == ArgumentType::String,
    {
        ArgumentType::String
    }
}

impl IntoArgument for Option<String> {
    /// An optional string: the received string, or `None` when nothing was received;
    /// [`ArgumentError::Mistyped`] for a value of another type.
    fn into_argument_primitive(argument: Option<CommandDataOption>) -> (r: Result<
        Option<String>,
        ArgumentError,
    >)
        ensures
            match argument {
                Some(option) => match option.value {
                    OptionValue::String(v) => r == Ok::<Option<String>, ArgumentError>(Some(v)),
                    OptionValue::Other => r == Err::<Option<String>, ArgumentError>(
                        ArgumentError::Mistyped,
                    ),
                },
                None => r == Ok::<Option<String>, ArgumentError>(None),
            },
    {
        match argument {
            Some(option) => match option.value {
                OptionValue::String(value) => Ok(Some(value)),
                OptionValue::Other => Err(ArgumentError::Mistyped),
            },
            None => Ok(None),
        }
    }

    fn argument_type() -> (r: ArgumentType)
        ensures
            r == ArgumentType::OptionalString,
    {
        ArgumentType::OptionalString
    }
}

} // verus!
