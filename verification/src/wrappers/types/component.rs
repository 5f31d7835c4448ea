//! Message components: buttons, select menus, action rows, text displays, separators and
//! containers.

use vstd::prelude::*;

use crate::text::push_char;

verus! {

/// Button styles.
#[derive(Debug, Clone, Copy, PartialEq, Eq, Structural)]
pub enum ButtonStyle {
    /// A blurple button.
    Primary,
    /// A grey button.
    Secondary,
    /// A green button.
    Success,
    /// A red button.
    Danger,
}

/// The kind of a select menu.
#[derive(Debug, Clone, Copy, PartialEq, Eq, Structural)]
pub enum SelectMenuType {
    /// A menu of text options.
    Text,
    /// A menu of users.
    User,
    /// A menu of roles.
    Role,
    /// A menu of users and roles.
    Mentionable,
}

/// How much space a separator takes.
#[derive(Debug, Clone, Copy, PartialEq, Eq, Structural)]
pub enum SeparatorSpacingSize {
    /// A small padding.
    Small,
    /// A large padding.
    Large,
}

/// A value selected by default in a user, role or mentionable select menu.
#[derive(Debug, Clone, Copy, PartialEq, Eq, Structural)]
pub enum SelectDefaultValue {
    /// The user with this ID.
    User(u64),
    /// The role with this ID.
    Role(u64),
}

/// A button, as sent to Discord.
pub struct Button {
    /// The ID the bot receives when the button is clicked.
    pub custom_id: Option<String>,
    /// Whether the button is disabled.
    pub disabled: bool,
    /// The text on the button.
    pub label: Option<String>,
    /// The button's style.
    pub style: ButtonStyle,
}

/// An option of a text select menu, as sent to Discord.
pub struct SelectMenuOption {
    /// Whether the option is selected by default.
    pub default: bool,
    /// The option's description.
    pub description: Option<String>,
    /// The text shown for the option.
    pub label: String,
    /// The value the bot receives when the option is selected.
    pub value: String,
}

/// A select menu, as sent to Discord.
pub struct SelectMenu {
    /// The ID the bot receives when a value is selected.
    pub custom_id: String,
    /// The values selected by default (user, role and mentionable menus).
    pub default_values: Option<Vec<SelectDefaultValue>>,
    /// Whether the menu is disabled.
    pub disabled: bool,
    /// The kind of menu.
    pub kind: SelectMenuType,
    /// The largest number of values that can be selected.
    pub max_values: Option<u8>,
    /// The smallest number of values that must be selected.
    pub min_values: Option<u8>,
    /// The options of a text menu.
    pub options: Option<Vec<SelectMenuOption>>,
    /// The text shown while nothing is selected.
    pub placeholder: Option<String>,
    /// Whether a value must be selected.
    pub required: Option<bool>,
}

/// A message component, as sent to Discord.
pub enum Component {
    /// A row of buttons, or a single select menu.
    ActionRow(Vec<Component>),
    /// A button.
    Button(Button),
    /// A select menu.
    SelectMenu(SelectMenu),
    /// A block of markdown text.
    TextDisplay(String),
    /// A separator between components.
    Separator {
        /// Whether a line is drawn.
        divider: Option<bool>,
        /// The padding around the separator.
        spacing: Option<SeparatorSpacingSize>,
    },
    /// A box around other components.
    Container {
        /// The color of the box's edge, if set.
        accent_color: Option<Option<u32>>,
        /// Whether the content is hidden behind a spoiler.
        spoiler: Option<bool>,
        /// The components inside.
        components: Vec<Component>,
    },
}

/// Converts a value into a top-level message component.
pub trait IntoTwilightMessageComponent: Sized {
    /// Whether `c` is what this value converts to.
    spec fn converts_to(&self, c: Component) -> bool;

    /// Converts this value into a component.
    fn into_component(self) -> (r: Component)
        ensures
            self.converts_to(r),
    ;
}

/// Converts a value into a button component.
pub trait IntoTwilightButtonComponent: Sized {
    /// Whether `c` is what this value converts to.
    spec fn converts_to(&self, c: Component) -> bool;

    /// Converts this value into a button component.
    fn into_button_component(self) -> (r: Component)
        ensures
            self.converts_to(r),
            r is Button,
    ;
}

/// Converts a value into a select-menu component.
pub trait IntoTwilightSelectComponent: Sized {
    /// Whether `c` is what this value converts to.
    spec fn converts_to(&self, c: Component) -> bool;

    /// Converts this value into a select-menu component.
    fn into_select_component(self) -> (r: Component)
        ensures
            self.converts_to(r),
            r is SelectMenu,
    ;
}

/// A row of up to five buttons, or of a single select menu.
pub struct ActionRow {
    /// The components of the row, in order.
    pub components: Vec<Component>,
}

/// Whether every component of `s` is a button.
pub open spec fn all_buttons(s: Seq<Component>) -> bool {
    forall|i: int| 0 <= i < s.len() ==> #[trigger] s[i] is Button
}

impl ActionRow {
    /// Whether the row holds at most five buttons, or exactly one select menu.
    pub open spec fn well_formed(&self) -> bool {
        ||| (self.components@.len() <= 5 && all_buttons(self.components@))
        ||| (self.components@.len() == 1 && self.components@[0] is SelectMenu)
    }

    /// Creates an empty row.
    pub fn build() -> (r: Self)
        ensures
            r.components@.len() == 0,
            r.well_formed(),
    {
        ActionRow { components: Vec::new() }
    }

    /// Adds a button after the components already in the row. The row must hold fewer than
    /// five components, and no select menu.
    pub fn button<B: IntoTwilightButtonComponent>(self, component: B) -> (r: Self)
        requires
            self.components@.len() < 5,
            self.components@.len() == 0 || self.components@[0] is Button,
        ensures
            r.components@.len() == self.components@.len() + 1,
            r.components@.drop_last() == self.components@,
            component.converts_to(r.components@.last()),
            r.components@.last() is Button,
            self.well_formed() ==> r.well_formed(),
    {
        let mut s = self;
        let c = component.into_button_component();
        s.components.push(c);
        proof {
            if self.well_formed() {
                assert forall|i: int| 0 <= i < s.components@.len() implies #[trigger]
                    s.components@[i] is Button by {
                    if i < self.components@.len() {
                        assert(s.components@[i] == self.components@[i]);
                    }
                }
            }
        }
        s
    }

    /// Adds a select menu to the row, which must be empty.
    pub fn select<S: IntoTwilightSelectComponent>(self, component: S) -> (r: Self)
        requires
            self.components@.len() == 0,
        ensures
            r.components@.len() == 1,
            component.converts_to(r.components@[0]),
            r.well_formed(),
    {
        let mut s = self;
        s.components.push(component.into_select_component());
        s
    }
}

impl IntoTwilightMessageComponent for ActionRow {
    open spec fn converts_to(&self, c: Component) -> bool {
        c == Component::ActionRow(self.components)
    }

    fn into_component(self) -> (r: Component) {
        Component::ActionRow(self.components)
    }
}

/// A blurple button.
pub struct PrimaryButton {
    /// The text on the button.
    pub label: String,
    /// The ID the bot receives when the button is clicked.
    pub custom_id: String,
    /// Whether the button is disabled.
    pub disabled: bool,
}

impl PrimaryButton {
    /// Creates an enabled button with the given label and custom ID.
    pub fn new(label: &str, custom_id: &str) -> (r: Self)
        ensures
            r.label@ == label@,
            r.custom_id@ == custom_id@,
            !r.disabled,
    {
        PrimaryButton { label: label.to_owned(), custom_id: custom_id.to_owned(), disabled: false }
    }

    /// Disables the button.
    pub fn disabled(self) -> (r: Self)
        ensures
            r == (PrimaryButton { disabled: true, ..self }),
    {
        let mut s = self;
        s.disabled = true;
        s
    }
}

impl IntoTwilightButtonComponent for PrimaryButton {
    open spec fn converts_to(&self, c: Component) -> bool {
        c == Component::Button(
            Button {
                custom_id: Some(self.custom_id),
                disabled: self.disabled,
                label: Some(self.label),
                style: ButtonStyle::Primary,
            },
        )
    }

    fn into_button_component(self) -> (r: Component) {
        Component::Button(
            Button {
                custom_id: Some(self.custom_id),
                disabled: self.disabled,
                label: Some(self.label),
                style: ButtonStyle::Primary,
            },
        )
    }
}

/// A grey button.
pub struct SecondaryButton {
    /// The text on the button.
    pub label: String,
    /// The ID the bot receives when the button is clicked.
    pub custom_id: String,
    /// Whether the button is disabled.
    pub disabled: bool,
}

impl SecondaryButton {
    /// Creates an enabled button with the given label and custom ID.
    pub fn new(label: &str, custom_id: &str) -> (r: Self)
        ensures
            r.label@ == label@,
            r.custom_id@ == custom_id@,
            !r.disabled,
    {
        SecondaryButton { label: label.to_owned(), custom_id: custom_id.to_owned(), disabled: false }
    }

    /// Disables the button.
    pub fn disabled(self) -> (r: Self)
        ensures
            r == (SecondaryButton { disabled: true, ..self }),
    {
        let mut s = self;
        s.disabled = true;
        s
    }
}

impl IntoTwilightButtonComponent for SecondaryButton {
    open spec fn converts_to(&self, c: Component) -> bool {
        c == Component::Button(
            Button {
                custom_id: Some(self.custom_id),
                disabled: self.disabled,
                label: Some(self.label),
                style: ButtonStyle::Secondary,
            },
        )
    }

    fn into_button_component(self) -> (r: Component) {
        Component::Button(
            Button {
                custom_id: Some(self.custom_id),
                disabled: self.disabled,
                label: Some(self.label),
                style: ButtonStyle::Secondary,
            },
        )
    }
}

/// A green button.
pub struct SuccessButton {
    /// The text on the button.
    pub label: String,
    /// The ID the bot receives when the button is clicked.
    pub custom_id: String,
    /// Whether the button is disabled.
    pub disabled: bool,
}

impl SuccessButton {
    /// Creates an enabled button with the given label and custom ID.
    pub fn new(label: &str, custom_id: &str) -> (r: Self)
        ensures
            r.label@ == label@,
            r.custom_id@ == custom_id@,
            !r.disabled,
    {
        SuccessButton { label: label.to_owned(), custom_id: custom_id.to_owned(), disabled: false }
    }

    /// Disables the button.
    pub fn disabled(self) -> (r: Self)
        ensures
            r == (SuccessButton { disabled: true, ..self }),
    {
        let mut s = self;
        s.disabled = true;
        s
    }
}

impl IntoTwilightButtonComponent for SuccessButton {
    open spec fn converts_to(&self, c: Component) -> bool {
        c == Component::Button(
            Button {
                custom_id: Some(self.custom_id),
                disabled: self.disabled,
                label: Some(self.label),
                style: ButtonStyle::Success,
            },
        )
    }

    fn into_button_component(self) -> (r: Component) {
        Component::Button(
            Button {
                custom_id: Some(self.custom_id),
                disabled: self.disabled,
                label: Some(self.label),
                style: ButtonStyle::Success,
            },
        )
    }
}

/// A red button.
pub struct DangerButton {
    /// The text on the button.
    pub label: String,
    /// The ID the bot receives when the button is clicked.
    pub custom_id: String,
    /// Whether the button is disabled.
    pub disabled: bool,
}

impl DangerButton {
    /// Creates an enabled button with the given label and custom ID.
    pub fn new(label: &str, custom_id: &str) -> (r: Self)
        ensures
            r.label@ == label@,
            r.custom_id@ == custom_id@,
            !r.disabled,
    {
        DangerButton { label: label.to_owned(), custom_id: custom_id.to_owned(), disabled: false }
    }

    /// Disables the button.
    pub fn disabled(self) -> (r: Self)
        ensures
            r == (DangerButton { disabled: true, ..self }),
    {
        let mut s = self;
        s.disabled = true;
        s
    }
}

impl IntoTwilightButtonComponent for DangerButton {
    open spec fn converts_to(&self, c: Component) -> bool {
        c == Component::Button(
            Button {
                custom_id: Some(self.custom_id),
                disabled: self.disabled,
                label: Some(self.label),
                style: ButtonStyle::Danger,
            },
        )
    }

    fn into_button_component(self) -> (r: Component) {
        Component::Button(
            Button {
                custom_id: Some(self.custom_id),
                disabled: self.disabled,
                label: Some(self.label),
                style: ButtonStyle::Danger,
            },
        )
    }
}

/// Converts a value into an option of a text select menu.
pub trait IntoTwilightSelectOption: Sized {
    /// Whether `o` is what this value converts to.
    spec fn converts_to(&self, o: SelectMenuOption) -> bool;

    /// Converts this value into a select-menu option.
    fn into_select_option(self) -> (r: SelectMenuOption)
        ensures
            self.converts_to(r),
    ;
}

/// A text select menu: a list of text options.
pub struct TextSelect {
    /// The ID the bot receives when a value is selected.
    pub custom_id: String,
    /// Whether the menu is disabled.
    pub disabled: bool,
    /// The largest number of values that can be selected.
    pub max_values: Option<u8>,
    /// The smallest number of values that must be selected.
    pub min_values: Option<u8>,
    /// The options, in order.
    pub options: Vec<SelectMenuOption>,
    /// The text shown while nothing is selected.
    pub placeholder: Option<String>,
    /// Whether a value must be selected.
    pub required: bool,
}

impl TextSelect {
    /// Creates an enabled, optional menu with the given custom ID and no options.
    pub fn new(custom_id: &str) -> (r: Self)
        ensures
            r.custom_id@ == custom_id@,
            !r.disabled,
            r.max_values is None,
            r.min_values is None,
            r.options@.len() == 0,
            r.placeholder is None,
            !r.required,
    {
        TextSelect {
            custom_id: custom_id.to_owned(),
            disabled: false,
            max_values: None,
            min_values: None,
            options: Vec::new(),
            placeholder: None,
            required: false,
        }
    }

    /// Adds an option after the options already added.
    pub fn option<O: IntoTwilightSelectOption>(self, option: O) -> (r: Self)
        ensures
            r.options@.len() == self.options@.len() + 1,
            r.options@.drop_last() == self.options@,
            option.converts_to(r.options@.last()),
            r == (TextSelect { options: r.options, ..self }),
    {
        let mut s = self;
        s.options.push(option.into_select_option());
        s
    }

    /// Disables the menu.
    pub fn disabled(self) -> (r: Self)
        ensures
            r == (TextSelect { disabled: true, ..self }),
    {
        let mut s = self;
        s.disabled = true;
        s
    }

    /// Sets the largest number of values that can be selected.
    pub fn max_values(self, max: u8) -> (r: Self)
        ensures
            r == (TextSelect { max_values: Some(max), ..self }),
    {
        let mut s = self;
        s.max_values = Some(max);
        s
    }

    /// Sets the smallest number of values that must be selected.
    pub fn min_values(self, min: u8) -> (r: Self)
        ensures
            r == (TextSelect { min_values: Some(min), ..self }),
    {
        let mut s = self;
        s.min_values = Some(min);
        s
    }

    /// Sets the text shown while nothing is selected.
    pub fn placeholder(self, placeholder: &str) -> (r: Self)
        ensures
            r.placeholder matches Some(v) && v@ == placeholder@,
            r == (TextSelect { placeholder: r.placeholder, ..self }),
    {
        let mut s = self;
        s.placeholder = Some(placeholder.to_owned());
        s
    }

    /// Makes selecting a value required.
    pub fn required(self) -> (r: Self)
        ensures
            r == (TextSelect { required: true, ..self }),
    {
        let mut s = self;
        s.required = true;
        s
    }
}

impl IntoTwilightSelectComponent for TextSelect {
    open spec fn converts_to(&self, c: Component) -> bool {
        c == Component::SelectMenu(
            SelectMenu {
                custom_id: self.custom_id,
                default_values: None,
                disabled: self.disabled,
                kind: SelectMenuType::Text,
                max_values: self.max_values,
                min_values: self.min_values,
                options: Some(self.options),
                placeholder: self.placeholder,
                required: Some(self.required),
            },
        )
    }

    fn into_select_component(self) -> (r: Component) {
        Component::SelectMenu(
            SelectMenu {
                custom_id: self.custom_id,
                default_values: None,
                disabled: self.disabled,
                kind: SelectMenuType::Text,
                max_values: self.max_values,
                min_values: self.min_values,
                options: Some(self.options),
                placeholder: self.placeholder,
                required: Some(self.required),
            },
        )
    }
}

/// An option of a text select menu.
pub struct TextSelectOption {
    /// The text shown for the option.
    pub label: String,
    /// The value the bot receives when the option is selected.
    pub value: String,
    /// The option's description.
    pub description: Option<String>,
    /// Whether the option is selected by default.
    pub default: bool,
}

impl TextSelectOption {
    /// Creates an option with the given label and value, not selected by default.
    pub fn new(label: &str, value: &str) -> (r: Self)
        ensures
            r.label@ == label@,
            r.value@ == value@,
            r.description is None,
            !r.default,
    {
        TextSelectOption {
            label: label.to_owned(),
            value: value.to_owned(),
            description: None,
            default: false,
        }
    }

    /// Sets the option's description.
    pub fn description(self, description: &str) -> (r: Self)
        ensures
            r.description matches Some(v) && v@ == description@,
            r == (TextSelectOption { description: r.description, ..self }),
    {
        let mut s = self;
        s.description = Some(description.to_owned());
        s
    }

    /// Makes the option selected by default.
    pub fn default(self) -> (r: Self)
        ensures
            r == (TextSelectOption { default: true, ..self }),
    {
        let mut s = self;
        s.default = true;
        s
    }
}

impl IntoTwilightSelectOption for TextSelectOption {
    open spec fn converts_to(&self, o: SelectMenuOption) -> bool {
        o == SelectMenuOption {
            default: self.default,
            description: self.description,
            label: self.label,
            value: self.value,
        }
    }

    fn into_select_option(self) -> (r: SelectMenuOption) {
        SelectMenuOption {
            default: self.default,
            description: self.description,
            label: self.label,
            value: self.value,
        }
    }
}

impl IntoTwilightSelectOption for String {
    open spec fn converts_to(&self, o: SelectMenuOption) -> bool {
        &&& !o.default
        &&& o.description is None
        &&& o.label == *self
        &&& o.value == *self
    }

    fn into_select_option(self) -> (r: SelectMenuOption) {
        SelectMenuOption { default: false, description: None, label: self.clone(), value: self }
    }
}

impl<'a> IntoTwilightSelectOption for &'a str {
    open spec fn converts_to(&self, o: SelectMenuOption) -> bool {
        &&& !o.default
        &&& o.description is None
        &&& o.label@ == self@
        &&& o.value@ == self@
    }

    fn into_select_option(self) -> (r: SelectMenuOption) {
        SelectMenuOption {
            default: false,
            description: None,
            label: self.to_owned(),
            value: self.to_owned(),
        }
    }
}

impl<'a, 'b> IntoTwilightSelectOption for (&'a str, &'b str) {
    open spec fn converts_to(&self, o: SelectMenuOption) -> bool {
        &&& !o.default
        &&& o.description is None
        &&& o.label@ == self.0@
        &&& o.value@ == self.1@
    }

    fn into_select_option(self) -> (r: SelectMenuOption) {
        SelectMenuOption {
            default: false,
            description: None,
            label: self.0.to_owned(),
            value: self.1.to_owned(),
        }
    }
}

/// A select menu of users.
pub struct UserSelect {
    /// The ID the bot receives when a value is selected.
    pub custom_id: String,
    /// The values selected by default, in order.
    pub default_values: Vec<SelectDefaultValue>,
    /// Whether the menu is disabled.
    pub disabled: bool,
    /// The largest number of values that can be selected.
    pub max_values: Option<u8>,
    /// The smallest number of values that must be selected.
    pub min_values: Option<u8>,
    /// The text shown while nothing is selected.
    pub placeholder: Option<String>,
    /// Whether a value must be selected.
    pub required: bool,
}

impl UserSelect {
    /// Creates an enabled, optional menu with the given custom ID and no default values.
    pub fn new(custom_id: &str) -> (r: Self)
        ensures
            r.custom_id@ == custom_id@,
            r.default_values@.len() == 0,
            !r.disabled,
            r.max_values is None,
            r.min_values is None,
            r.placeholder is None,
            !r.required,
    {
        UserSelect {
            custom_id: custom_id.to_owned(),
            default_values: Vec::new(),
            disabled: false,
            max_values: None,
            min_values: None,
            placeholder: None,
            required: false,
        }
    }

    /// Adds the user with the given ID to the values selected by default.
    pub fn default_user(self, default: u64) -> (r: Self)
        ensures
            r.default_values@ == self.default_values@.push(SelectDefaultValue::User(default)),
            r == (UserSelect { default_values: r.default_values, ..self }),
    {
        let mut s = self;
        s.default_values.push(SelectDefaultValue::User(default));
        s
    }

    /// Disables the menu.
    pub fn disabled(self) -> (r: Self)
        ensures
            r == (UserSelect { disabled: true, ..self }),
    {
        let mut s = self;
        s.disabled = true;
        s
    }

    /// Sets the largest number of values that can be selected.
    pub fn max_values(self, max: u8) -> (r: Self)
        ensures
            r == (UserSelect { max_values: Some(max), ..self }),
    {
        let mut s = self;
        s.max_values = Some(max);
        s
    }

    /// Sets the smallest number of values that must be selected.
    pub fn min_values(self, min: u8) -> (r: Self)
        ensures
            r == (UserSelect { min_values: Some(min), ..self }),
    {
        let mut s = self;
        s.min_values = Some(min);
        s
    }

    /// Sets the text shown while nothing is selected.
    pub fn placeholder(self, placeholder: &str) -> (r: Self)
        ensures
            r.placeholder matches Some(v) && v@ == placeholder@,
            r == (UserSelect { placeholder: r.placeholder, ..self }),
    {
        let mut s = self;
        s.placeholder = Some(placeholder.to_owned());
        s
    }

    /// Makes selecting a value required.
    pub fn required(self) -> (r: Self)
        ensures
            r == (UserSelect { required: true, ..self }),
    {
        let mut s = self;
        s.required = true;
        s
    }
}

impl IntoTwilightSelectComponent for UserSelect {
    open spec fn converts_to(&self, c: Component) -> bool {
        c == Component::SelectMenu(
            SelectMenu {
                custom_id: self.custom_id,
                default_values: Some(self.default_values),
                disabled: self.disabled,
                kind: SelectMenuType::User,
                max_values: self.max_values,
                min_values: self.min_values,
                options: None,
                placeholder: self.placeholder,
                required: Some(self.required),
            },
        )
    }

    fn into_select_component(self) -> (r: Component) {
        Component::SelectMenu(
            SelectMenu {
                custom_id: self.custom_id,
                default_values: Some(self.default_values),
                disabled: self.disabled,
                kind: SelectMenuType::User,
                max_values: self.max_values,
                min_values: self.min_values,
                options: None,
                placeholder: self.placeholder,
                required: Some(self.required),
            },
        )
    }
}

/// A select menu of roles.
pub struct RoleSelect {
    /// The ID the bot receives when a value is selected.
    pub custom_id: String,
    /// The values selected by default, in order.
    pub default_values: Vec<SelectDefaultValue>,
    /// Whether the menu is disabled.
    pub disabled: bool,
    /// The largest number of values that can be selected.
    pub max_values: Option<u8>,
    /// The smallest number of values that must be selected.
    pub min_values: Option<u8>,
    /// The text shown while nothing is selected.
    pub placeholder: Option<String>,
    /// Whether a value must be selected.
    pub required: bool,
}

impl RoleSelect {
    /// Creates an enabled, optional menu with the given custom ID and no default values.
    pub fn new(custom_id: &str) -> (r: Self)
        ensures
            r.custom_id@ == custom_id@,
            r.default_values@.len() == 0,
            !r.disabled,
            r.max_values is None,
            r.min_values is None,
            r.placeholder is None,
            !r.required,
    {
        RoleSelect {
            custom_id: custom_id.to_owned(),
            default_values: Vec::new(),
            disabled: false,
            max_values: None,
            min_values: None,
            placeholder: None,
            required: false,
        }
    }

    /// Adds the role with the given ID to the values selected by default.
    pub fn default_role(self, default: u64) -> (r: Self)
        ensures
            r.default_values@ == self.default_values@.push(SelectDefaultValue::Role(default)),
            r == (RoleSelect { default_values: r.default_values, ..self }),
    {
        let mut s = self;
        s.default_values.push(SelectDefaultValue::Role(default));
        s
    }

    /// Disables the menu.
    pub fn disabled(self) -> (r: Self)
        ensures
            r == (RoleSelect { disabled: true, ..self }),
    {
        let mut s = self;
        s.disabled = true;
        s
    }

    /// Sets the largest number of values that can be selected.
    pub fn max_values(self, max: u8) -> (r: Self)
        ensures
            r == (RoleSelect { max_values: Some(max), ..self }),
    {
        let mut s = self;
        s.max_values = Some(max);
        s
    }

    /// Sets the smallest number of values that must be selected.
    pub fn min_values(self, min: u8) -> (r: Self)
        ensures
            r == (RoleSelect { min_values: Some(min), ..self }),
    {
        let mut s = self;
        s.min_values = Some(min);
        s
    }

    /// Sets the text shown while nothing is selected.
    pub fn placeholder(self, placeholder: &str) -> (r: Self)
        ensures
            r.placeholder matches Some(v) && v@ == placeholder@,
            r == (RoleSelect { placeholder: r.placeholder, ..self }),
    {
        let mut s = self;
        s.placeholder = Some(placeholder.to_owned());
        s
    }

    /// Makes selecting a value required.
    pub fn required(self) -> (r: Self)
        ensures
            r == (RoleSelect { required: true, ..self }),
    {
        let mut s = self;
        s.required = true;
        s
    }
}

impl IntoTwilightSelectComponent for RoleSelect {
    open spec fn converts_to(&self, c: Component) -> bool {
        c == Component::SelectMenu(
            SelectMenu {
                custom_id: self.custom_id,
                default_values: Some(self.default_values),
                disabled: self.disabled,
                kind: SelectMenuType::Role,
                max_values: self.max_values,
                min_values: self.min_values,
                options: None,
                placeholder: self.placeholder,
                required: Some(self.required),
            },
        )
    }

    fn into_select_component(self) -> (r: Component) {
        Component::SelectMenu(
            SelectMenu {
                custom_id: self.custom_id,
                default_values: Some(self.default_values),
                disabled: self.disabled,
                kind: SelectMenuType::Role,
                max_values: self.max_values,
                min_values: self.min_values,
                options: None,
                placeholder: self.placeholder,
                required: Some(self.required),
            },
        )
    }
}

/// A select menu of users and roles.
pub struct MentionableSelect {
    /// The ID the bot receives when a value is selected.
    pub custom_id: String,
    /// The values selected by default, in order.
    pub default_values: Vec<SelectDefaultValue>,
    /// Whether the menu is disabled.
    pub disabled: bool,
    /// The largest number of values that can be selected.
    pub max_values: Option<u8>,
    /// The smallest number of values that must be selected.
    pub min_values: Option<u8>,
    /// The text shown while nothing is selected.
    pub placeholder: Option<String>,
    /// Whether a value must be selected.
    pub required: bool,
}

impl MentionableSelect {
    /// Creates an enabled, optional menu with the given custom ID and no default values.
    pub fn new(custom_id: &str) -> (r: Self)
        ensures
            r.custom_id@ == custom_id@,
            r.default_values@.len() == 0,
            !r.disabled,
            r.max_values is None,
            r.min_values is None,
            r.placeholder is None,
            !r.required,
    {
        MentionableSelect {
            custom_id: custom_id.to_owned(),
            default_values: Vec::new(),
            disabled: false,
            max_values: None,
            min_values: None,
            placeholder: None,
            required: false,
        }
    }

    /// Adds the user with the given ID to the values selected by default.
    pub fn default_user(self, default: u64) -> (r: Self)
        ensures
            r.default_values@ == self.default_values@.push(SelectDefaultValue::User(default)),
            r == (MentionableSelect { default_values: r.default_values, ..self }),
    {
        let mut s = self;
        s.default_values.push(SelectDefaultValue::User(default));
        s
    }

    /// Adds the role with the given ID to the values selected by default.
    pub fn default_role(self, default: u64) -> (r: Self)
        ensures
            r.default_values@ == self.default_values@.push(SelectDefaultValue::Role(default)),
            r == (MentionableSelect { default_values: r.default_values, ..self }),
    {
        let mut s = self;
        s.default_values.push(SelectDefaultValue::Role(default));
        s
    }

    /// Disables the menu.
    pub fn disabled(self) -> (r: Self)
        ensures
            r == (MentionableSelect { disabled: true, ..self }),
    {
        let mut s = self;
        s.disabled = true;
        s
    }

    /// Sets the largest number of values that can be selected.
    pub fn max_values(self, max: u8) -> (r: Self)
        ensures
            r == (MentionableSelect { max_values: Some(max), ..self }),
    {
        let mut s = self;
        s.max_values = Some(max);
        s
    }

    /// Sets the smallest number of values that must be selected.
    pub fn min_values(self, min: u8) -> (r: Self)
        ensures
            r == (MentionableSelect { min_values: Some(min), ..self }),
    {
        let mut s = self;
        s.min_values = Some(min);
        s
    }

    /// Sets the text shown while nothing is selected.
    pub fn placeholder(self, placeholder: &str) -> (r: Self)
        ensures
            r.placeholder matches Some(v) && v@ == placeholder@,
            r == (MentionableSelect { placeholder: r.placeholder, ..self }),
    {
        let mut s = self;
        s.placeholder = Some(placeholder.to_owned());
        s
    }

    /// Makes selecting a value required.
    pub fn required(self) -> (r: Self)
        ensures
            r == (MentionableSelect { required: true, ..self }),
    {
        let mut s = self;
        s.required = true;
        s
    }
}

impl IntoTwilightSelectComponent for MentionableSelect {
    open spec fn converts_to(&self, c: Component) -> bool {
        c == Component::SelectMenu(
            SelectMenu {
                custom_id: self.custom_id,
                default_values: Some(self.default_values),
                disabled: self.disabled,
                kind: SelectMenuType::Mentionable,
                max_values: self.max_values,
                min_values: self.min_values,
                options: None,
                placeholder: self.placeholder,
                required: Some(self.required),
            },
        )
    }

    fn into_select_component(self) -> (r: Component) {
        Component::SelectMenu(
            SelectMenu {
                custom_id: self.custom_id,
                default_values: Some(self.default_values),
                disabled: self.disabled,
                kind: SelectMenuType::Mentionable,
                max_values: self.max_values,
                min_values: self.min_values,
                options: None,
                placeholder: self.placeholder,
                required: Some(self.required),
            },
        )
    }
}

/// A block of markdown text.
pub struct TextDisplay {
    /// The text.
    pub content: String,
}

impl TextDisplay {
    /// Creates an empty text block.
    pub fn build() -> (r: Self)
        ensures
            r.content@ == Seq::<char>::empty(),
    {
        TextDisplay { content: String::new() }
    }

    /// Creates a text block with the given text.
    pub fn new(content: &str) -> (r: Self)
        ensures
            r.content@ == content@,
    {
        TextDisplay { content: content.to_owned() }
    }

    /// Appends text to the block.
    pub fn push(self, content: &str) -> (r: Self)
        ensures
            r.content@ == self.content@ + content@,
    {
        let mut s = self;
        let ghost start = s.content@;
        for c in it: content.chars()
            invariant
                s.content@ == start + it.seq().take(it.index() as int),
                it.seq() == content@,
        {
            proof {
                assert(it.seq().take(it.index() + 1) =~= it.seq().take(it.index() as int).push(c));
            }
            push_char(&mut s.content, c);
        }
        proof {
            assert(content@.take(content@.len() as int) =~= content@);
        }
        s
    }
}

impl IntoTwilightMessageComponent for TextDisplay {
    open spec fn converts_to(&self, c: Component) -> bool {
        c == Component::TextDisplay(self.content)
    }

    fn into_component(self) -> (r: Component) {
        Component::TextDisplay(self.content)
    }
}

/// A separator between components.
pub struct Separator {
    /// Whether a line is drawn.
    pub divider: bool,
    /// The padding around the separator.
    pub spacing: SeparatorSpacingSize,
}

impl Separator {
    /// Creates a separator with a line and a small padding.
    pub fn build() -> (r: Self)
        ensures
            r.divider,
            r.spacing == SeparatorSpacingSize::Small,
    {
        Separator { divider: true, spacing: SeparatorSpacingSize::Small }
    }

    /// Sets whether a line is drawn.
    pub fn divider(self, divider: bool) -> (r: Self)
        ensures
            r == (Separator { divider, ..self }),
    {
        let mut s = self;
        s.divider = divider;
        s
    }

    /// Sets the padding around the separator.
    pub fn spacing(self, spacing: SeparatorSpacingSize) -> (r: Self)
        ensures
            r == (Separator { spacing, ..self }),
    {
        let mut s = self;
        s.spacing = spacing;
        s
    }
}

impl IntoTwilightMessageComponent for Separator {
    open spec fn converts_to(&self, c: Component) -> bool {
        c == (Component::Separator { divider: Some(self.divider), spacing: Some(self.spacing) })
    }

    fn into_component(self) -> (r: Component) {
        Component::Separator { divider: Some(self.divider), spacing: Some(self.spacing) }
    }
}

/// A box around other components.
pub struct Container {
    /// The color of the box's edge.
    pub accent_color: Option<u32>,
    /// Whether the content is hidden behind a spoiler.
    pub spoiler: bool,
    /// The components inside, in order.
    pub components: Vec<Component>,
}

impl Container {
    /// Creates an empty box with no accent color and no spoiler.
    pub fn build() -> (r: Self)
        ensures
            r.accent_color is None,
            !r.spoiler,
            r.components@.len() == 0,
    {
        Container { accent_color: None, spoiler: false, components: Vec::new() }
    }

    /// Sets the color of the box's edge.
    pub fn accent_color(self, accent_color: u32) -> (r: Self)
        ensures
            r == (Container { accent_color: Some(accent_color), ..self }),
    {
        let mut s = self;
        s.accent_color = Some(accent_color);
        s
    }

    /// Sets whether the content is hidden behind a spoiler.
    pub fn spoiler(self, spoiler: bool) -> (r: Self)
        ensures
            r == (Container { spoiler, ..self }),
    {
        let mut s = self;
        s.spoiler = spoiler;
        s
    }

    /// Adds a component after the components already inside.
    pub fn component<C: IntoTwilightMessageComponent>(self, component: C) -> (r: Self)
        ensures
            r.components@.len() == self.components@.len() + 1,
            r.components@.drop_last() == self.components@,
            component.converts_to(r.components@.last()),
            r == (Container { components: r.components, ..self }),
    {
        let mut s = self;
        s.components.push(component.into_component());
        s
    }
}

impl IntoTwilightMessageComponent for Container {
    open spec fn converts_to(&self, c: Component) -> bool {
        c == (Component::Container {
            accent_color: Some(self.accent_color),
            spoiler: Some(self.spoiler),
            components: self.components,
        })
    }

    fn into_component(self) -> (r: Component) {
        Component::Container {
            accent_color: Some(self.accent_color),
            spoiler: Some(self.spoiler),
            components: self.components,
        }
    }
}

} // verus!
