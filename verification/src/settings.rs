//! The settings of a workspace, what a client's configuration does to them, and what they decide.

use crate::json::{Json, JsonView};
use crate::path::option_view;
use vstd::prelude::*;

verus! {

/// Whether the type errors of a file are shown.
#[derive(Clone, Copy, Debug, PartialEq, Eq, Structural)]
pub enum DisplayTypeErrors {
    /// As the file's project has it.
    Default,
    /// In no file.
    ForceOff,
    /// In every file that its project includes.
    ForceOn,
}

/// The settings of a workspace.
#[derive(Debug)]
pub struct Settings {
    /// The interpreter to ask for installed packages.
    pub python_path: Option<String>,
    /// Whether type errors are shown.
    pub display_type_errors: DisplayTypeErrors,
    /// Whether every language service is off.
    pub language_services_disabled: bool,
    /// Whether going to a definition is off.
    pub definition_disabled: bool,
    /// Whether hovering is off.
    pub hover_disabled: bool,
}

/// The settings of a workspace.
pub struct SettingsView {
    pub python_path: Option<Seq<char>>,
    pub display_type_errors: DisplayTypeErrors,
    pub language_services_disabled: bool,
    pub definition_disabled: bool,
    pub hover_disabled: bool,
}

impl View for Settings {
    type V = SettingsView;

    open spec fn view(&self) -> SettingsView {
        SettingsView {
            python_path: option_view(self.python_path),
            display_type_errors: self.display_type_errors,
            language_services_disabled: self.language_services_disabled,
            definition_disabled: self.definition_disabled,
            hover_disabled: self.hover_disabled,
        }
    }
}

/// What a project's own configuration says of one of its files.
#[derive(Debug)]
pub struct Project {
    /// Whether the file belongs to a project with a configuration file.
    pub has_config: bool,
    /// Whether that configuration file turns type errors off.
    pub type_errors_disabled: bool,
    /// Whether the project includes the file and does not exclude it.
    pub included: bool,
    /// The interpreter that the configuration file names.
    pub interpreter: Option<String>,
}

/// What a project's own configuration says of one of its files.
pub struct ProjectView {
    pub has_config: bool,
    pub type_errors_disabled: bool,
    pub included: bool,
    pub interpreter: Option<Seq<char>>,
}

impl View for Project {
    type V = ProjectView;

    open spec fn view(&self) -> ProjectView {
        ProjectView {
            has_config: self.has_config,
            type_errors_disabled: self.type_errors_disabled,
            included: self.included,
            interpreter: option_view(self.interpreter),
        }
    }
}

/// The value of the setting `displayTypeErrors` that `text` stands for.
pub open spec fn display_of(text: Seq<char>) -> Option<DisplayTypeErrors> {
    if text == "force-off"@ {
        Some(DisplayTypeErrors::ForceOff)
    } else if text == "force-on"@ {
        Some(DisplayTypeErrors::ForceOn)
    } else {
        None
    }
}

/// The newer of two values, where there is a newer one.
pub open spec fn newer<T>(new: Option<T>, current: T) -> T {
    match new {
        Some(value) => value,
        None => current,
    }
}

impl SettingsView {
    /// The settings of a workspace that no client has configured.
    pub open spec fn initial() -> SettingsView {
        SettingsView {
            python_path: None,
            display_type_errors: DisplayTypeErrors::Default,
            language_services_disabled: false,
            definition_disabled: false,
            hover_disabled: false,
        }
    }

    /// The settings after a client has answered with the configuration `item`. Each setting is
    /// read by itself: one that `item` does not give, or gives in a form that is not known, stays
    /// as it was, whatever else `item` holds.
    pub open spec fn configured(self, item: JsonView) -> SettingsView {
        let pyrefly = item.section("pyrefly"@);
        let disabled = pyrefly.section("disabledLanguageServices"@);
        SettingsView {
            python_path: match item.text_at("pythonPath"@) {
                Some(path) => Some(path),
                None => self.python_path,
            },
            display_type_errors: match pyrefly.text_at("displayTypeErrors"@) {
                Some(text) => newer(display_of(text), self.display_type_errors),
                None => self.display_type_errors,
            },
            language_services_disabled: newer(
                pyrefly.flag_at("disableLanguageServices"@),
                self.language_services_disabled,
            ),
            definition_disabled: newer(disabled.flag_at("definition"@), self.definition_disabled),
            hover_disabled: newer(disabled.flag_at("hover"@), self.hover_disabled),
        }
    }

    /// Whether a request for a definition is served.
    pub open spec fn serves_definition(self) -> bool {
        !self.language_services_disabled && !self.definition_disabled
    }

    /// Whether a request to hover is served.
    pub open spec fn serves_hover(self) -> bool {
        !self.language_services_disabled && !self.hover_disabled
    }

    /// Whether the type errors of a file of `project` are shown.
    pub open spec fn shows_type_errors(self, project: ProjectView) -> bool {
        project.included && match self.display_type_errors {
            DisplayTypeErrors::ForceOn => true,
            DisplayTypeErrors::ForceOff => false,
            DisplayTypeErrors::Default => project.has_config && !project.type_errors_disabled,
        }
    }

    /// The interpreter that tells which packages a file of `project` can import: the one that the
    /// project's configuration file names, and that of the workspace where it names none.
    pub open spec fn interpreter(self, project: ProjectView) -> Option<Seq<char>> {
        match project.interpreter {
            Some(path) => Some(path),
            None => self.python_path,
        }
    }
}

/// The value of the setting `displayTypeErrors` that `text` stands for.
fn parse_display(text: &String) -> (display: Option<DisplayTypeErrors>)
    ensures
        display == display_of(text@),
{
    if *text == "force-off".to_owned() {
        Some(DisplayTypeErrors::ForceOff)
    } else if *text == "force-on".to_owned() {
        Some(DisplayTypeErrors::ForceOn)
    } else {
        None
    }
}

/// A copy of an optional text.
pub(crate) fn copy_text(text: &Option<String>) -> (copy: Option<String>)
    ensures
        option_view(copy) == option_view(*text),
{
    match text {
        Some(text) => Some(text.clone()),
        None => None,
    }
}

impl Settings {
    /// The settings of a workspace that no client has configured.
    pub fn initial() -> (settings: Settings)
        ensures
            settings@ == SettingsView::initial(),
    {
        Settings {
            python_path: None,
            display_type_errors: DisplayTypeErrors::Default,
            language_services_disabled: false,
            definition_disabled: false,
            hover_disabled: false,
        }
    }

    /// The same settings.
    pub fn copy(&self) -> (settings: Settings)
        ensures
            settings@ == self@,
    {
        Settings {
            python_path: copy_text(&self.python_path),
            display_type_errors: self.display_type_errors,
            language_services_disabled: self.language_services_disabled,
            definition_disabled: self.definition_disabled,
            hover_disabled: self.hover_disabled,
        }
    }

    /// The settings after a client has answered with the configuration `item`.
    pub fn configured(&self, item: &Json) -> (settings: Settings)
        ensures
            settings@ == self@.configured(item@),
    {
        let null = Json::Null;
        let pyrefly = item.section("pyrefly", &null);
        let disabled = pyrefly.section("disabledLanguageServices", &null);
        let mut settings = self.copy();
        if let Some(path) = item.text_at("pythonPath") {
            settings.python_path = Some(path.clone());
        }
        if let Some(text) = pyrefly.text_at("displayTypeErrors") {
            if let Some(display) = parse_display(text) {
                settings.display_type_errors = display;
            }
        }
        if let Some(flag) = pyrefly.flag_at("disableLanguageServices") {
            settings.language_services_disabled = flag;
        }
        if let Some(flag) = disabled.flag_at("definition") {
            settings.definition_disabled = flag;
        }
        if let Some(flag) = disabled.flag_at("hover") {
            settings.hover_disabled = flag;
        }
        settings
    }

    /// Whether a request for a definition is served.
    pub fn serves_definition(&self) -> (served: bool)
        ensures
            served == self@.serves_definition(),
    {
        !self.language_services_disabled && !self.definition_disabled
    }

    /// Whether a request to hover is served.
    pub fn serves_hover(&self) -> (served: bool)
        ensures
            served == self@.serves_hover(),
    {
        !self.language_services_disabled && !self.hover_disabled
    }

    /// Whether the type errors of a file of `project` are shown.
    pub fn shows_type_errors(&self, project: &Project) -> (shown: bool)
        ensures
            shown == self@.shows_type_errors(project@),
    {
        project.included && match self.display_type_errors {
            DisplayTypeErrors::ForceOn => true,
            DisplayTypeErrors::ForceOff => false,
            DisplayTypeErrors::Default => project.has_config && !project.type_errors_disabled,
        }
    }

    /// The interpreter that tells which packages a file of `project` can import.
    pub fn interpreter(&self, project: &Project) -> (path: Option<String>)
        ensures
            option_view(path) == self@.interpreter(project@),
    {
        match &project.interpreter {
            Some(path) => Some(path.clone()),
            None => copy_text(&self.python_path),
        }
    }
}

} // verus!
