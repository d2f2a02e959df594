//! What the configuration screen shows and edits.

use vstd::prelude::*;
use crate::text::same_text;
use crate::tui::{KeyPress, TuiApp};

verus! {

/// The section of the configuration that is shown.
#[derive(Debug, Clone, Copy, PartialEq, Eq, Structural)]
pub enum ConfigSection {
    Network,
    Security,
    Features,
    Advanced,
}

/// The kind of value that a setting takes.
#[derive(Debug, Clone, Copy, PartialEq, Eq, Structural)]
pub enum FieldType {
    String,
    Number,
    Boolean,
    List,
}

/// One editable setting.
#[derive(Debug, Clone)]
pub struct ConfigField {
    pub name: String,
    pub value: String,
    pub description: String,
    pub field_type: FieldType,
}

/// The state of the configuration screen.
pub struct ConfigState {
    pub current_section: ConfigSection,
    pub selected_field: Option<String>,
    pub edit_mode: bool,
    pub config_values: Vec<ConfigField>,
}

/// Whether `index` is the position of the first field of `fields` named `name`.
pub open spec fn is_first_named(fields: Seq<ConfigField>, name: Seq<char>, index: int) -> bool {
    &&& 0 <= index < fields.len()
    &&& fields[index].name@ == name
    &&& forall|j: int| 0 <= j < index ==> (#[trigger] fields[j]).name@ != name
}

/// Whether no field of `fields` is named `name`.
pub open spec fn none_named(fields: Seq<ConfigField>, name: Seq<char>) -> bool {
    forall|j: int| 0 <= j < fields.len() ==> (#[trigger] fields[j]).name@ != name
}

/// Whether a field has the given texts and type.
pub open spec fn field_is(
    field: ConfigField,
    name: Seq<char>,
    value: Seq<char>,
    description: Seq<char>,
    field_type: FieldType,
) -> bool {
    &&& field.name@ == name
    &&& field.value@ == value
    &&& field.description@ == description
    &&& field.field_type == field_type
}

impl ConfigState {
    /// Whether `state` is the screen as it opens: the network section,
    /// nothing selected, and the three settings `host`, `port` and
    /// `mesh_enabled` at their defaults.
    pub open spec fn is_initial(state: ConfigState) -> bool {
        &&& state.current_section == ConfigSection::Network
        &&& state.selected_field.is_none()
        &&& !state.edit_mode
        &&& state.config_values@.len() == 3
        &&& field_is(
            state.config_values@[0],
            "host"@,
            "127.0.0.1"@,
            "Server host address"@,
            FieldType::String
        )
        &&& field_is(
            state.config_values@[1],
            "port"@,
            "8080"@,
            "Server port"@,
            FieldType::Number
        )
        &&& field_is(
            state.config_values@[2],
            "mesh_enabled"@,
            "true"@,
            "Enable mesh networking"@,
            FieldType::Boolean
        )
    }

    /// The screen as it opens.
    pub fn new() -> (state: Self)
        ensures
            Self::is_initial(state),
    {
        let mut fields: Vec<ConfigField> = Vec::new();
        fields.push(
            ConfigField {
                name: "host".to_owned(),
                value: "127.0.0.1".to_owned(),
                description: "Server host address".to_owned(),
                field_type: FieldType::String,
            },
        );
        fields.push(
            ConfigField {
                name: "port".to_owned(),
                value: "8080".to_owned(),
                description: "Server port".to_owned(),
                field_type: FieldType::Number,
            },
        );
        fields.push(
            ConfigField {
                name: "mesh_enabled".to_owned(),
                value: "true".to_owned(),
                description: "Enable mesh networking".to_owned(),
                field_type: FieldType::Boolean,
            },
        );
        ConfigState {
            current_section: ConfigSection::Network,
            selected_field: None,
            edit_mode: false,
            config_values: fields,
        }
    }

    /// Position of the first field named `name`.
    fn position(&self, name: &str) -> (found: Option<usize>)
        ensures
            match found {
                Some(index) => is_first_named(self.config_values@, name@, index as int),
                None => none_named(self.config_values@, name@),
            },
    {
        let mut i: usize = 0;
        while i < self.config_values.len()
            invariant
                i <= self.config_values@.len(),
                forall|j: int| 0 <= j < i ==> (#[trigger] self.config_values@[j]).name@ != name@,
            decreases self.config_values@.len() - i,
        {
            if same_text(self.config_values[i].name.as_str(), name) {
                return Some(i);
            }
            i += 1;
        }
        None
    }

    /// The first field named `name`.
    pub fn get_field(&self, name: &str) -> (field: Option<&ConfigField>)
        ensures
            match field {
                Some(f) => exists|index: int|
                    is_first_named(self.config_values@, name@, index) && *f
                        == self.config_values@[index],
                None => none_named(self.config_values@, name@),
            },
    {
        match self.position(name) {
            Some(index) => Some(&self.config_values[index]),
            None => None,
        }
    }

    /// Gives the first field named `name` the value `value`. Without such a
    /// field nothing changes.
    pub fn set_field_value(&mut self, name: &str, value: String)
        ensures
            final(self).current_section == old(self).current_section,
            final(self).selected_field == old(self).selected_field,
            final(self).edit_mode == old(self).edit_mode,
            none_named(old(self).config_values@, name@) ==> final(self).config_values@ == old(
                self,
            ).config_values@,
            !none_named(old(self).config_values@, name@) ==> exists|index: int|
                is_first_named(old(self).config_values@, name@, index) && final(self).config_values@
                    == old(self).config_values@.update(
                    index,
                    ConfigField { value, ..old(self).config_values@[index] },
                ),
    {
        match self.position(name) {
            Some(index) => {
                let field = &self.config_values[index];
                let changed = ConfigField {
                    name: field.name.clone(),
                    value,
                    description: field.description.clone(),
                    field_type: field.field_type,
                };
                self.config_values.set(index, changed);
                proof {
                    assert(is_first_named(old(self).config_values@, name@, index as int));
                }
            },
            None => {},
        }
    }
}

/// Takes a key on the configuration screen, where no key does anything.
pub fn handle_input(app: &mut TuiApp, key: KeyPress)
    ensures
        *final(app) == *old(app),
{
}

} // verus!
