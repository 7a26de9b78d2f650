//! Command-palette entries for opening new sessions and for navigating to
//! sessions, with the accessibility copy their items read out.

use vstd::prelude::*;

use crate::localization::{text_spec, CatalogBundle, LocaleId, LocalizedMessage};
use crate::template::pairs_view;
use crate::text::{chars_of, extend_str, replace_all, replace_spec, string_from_chars};

verus! {

/// What the command context of a session says it last ran or is running.
#[derive(Debug, Clone)]
pub enum CommandContext {
    NoCommand,
    LastRunCommand { last_run_command: String },
    LastRunAIBlock { prompt: String },
    RunningCommand { running_command: String },
    RunningAIBlock { prompt: String },
}

/// Localized templates for the accessibility labels of session-navigation
/// items.
#[derive(Debug, Clone)]
pub struct NavigationSearchItemAccessibilityCopy {
    pub selected_with_context_template: String,
    pub last_run_command_template: String,
    pub last_ai_interaction_template: String,
    pub running_command_template: String,
    pub running_ai_interaction_template: String,
    pub help: String,
}

/// `{name}`
pub open spec fn name_placeholder() -> Seq<char> {
    seq!['{', 'n', 'a', 'm', 'e', '}']
}

/// `{context}`
pub open spec fn context_placeholder() -> Seq<char> {
    seq!['{', 'c', 'o', 'n', 't', 'e', 'x', 't', '}']
}

/// `{command}`
pub open spec fn command_placeholder() -> Seq<char> {
    seq!['{', 'c', 'o', 'm', 'm', 'a', 'n', 'd', '}']
}

/// `{prompt}`
pub open spec fn prompt_placeholder() -> Seq<char> {
    seq!['{', 'p', 'r', 'o', 'm', 'p', 't', '}']
}

proof fn lemma_placeholder_literals()
    ensures
        "{name}"@ == name_placeholder(),
        "{context}"@ == context_placeholder(),
        "{command}"@ == command_placeholder(),
        "{prompt}"@ == prompt_placeholder(),
{
    reveal_strlit("{name}");
    reveal_strlit("{context}");
    reveal_strlit("{command}");
    reveal_strlit("{prompt}");
    assert("{name}"@ =~= name_placeholder());
    assert("{context}"@ =~= context_placeholder());
    assert("{command}"@ =~= command_placeholder());
    assert("{prompt}"@ =~= prompt_placeholder());
}

/// The description of what a session last ran or is running.
pub open spec fn command_context_description_spec(
    copy: NavigationSearchItemAccessibilityCopy,
    context: CommandContext,
) -> Option<Seq<char>> {
    match context {
        CommandContext::NoCommand => None,
        CommandContext::LastRunCommand { last_run_command } => Some(
            replace_spec(copy.last_run_command_template@, command_placeholder(), last_run_command@),
        ),
        CommandContext::LastRunAIBlock { prompt } => Some(
            replace_spec(copy.last_ai_interaction_template@, prompt_placeholder(), prompt@),
        ),
        CommandContext::RunningCommand { running_command } => Some(
            replace_spec(copy.running_command_template@, command_placeholder(), running_command@),
        ),
        CommandContext::RunningAIBlock { prompt } => Some(
            replace_spec(copy.running_ai_interaction_template@, prompt_placeholder(), prompt@),
        ),
    }
}

/// The selected-item label: `{name}` and then `{context}` replaced.
pub open spec fn selected_label_spec(template: Seq<char>, name: Seq<char>, context: Seq<char>) -> Seq<
    char,
> {
    replace_spec(
        replace_spec(template, name_placeholder(), name),
        context_placeholder(),
        context,
    )
}

impl NavigationSearchItemAccessibilityCopy {
    /// The copy in `locale`.
    pub fn new(catalogs: &CatalogBundle, locale: LocaleId) -> (copy: Self)
        ensures
            copy.selected_with_context_template@ == text_spec(
                *catalogs,
                locale,
                "search.command_palette.a11y.selected_with_context"@,
            ),
            copy.last_run_command_template@ == text_spec(
                *catalogs,
                locale,
                "search.navigation.a11y.last_run_command"@,
            ),
            copy.last_ai_interaction_template@ == text_spec(
                *catalogs,
                locale,
                "search.navigation.a11y.last_ai_interaction"@,
            ),
            copy.running_command_template@ == text_spec(
                *catalogs,
                locale,
                "search.navigation.a11y.running_command"@,
            ),
            copy.running_ai_interaction_template@ == text_spec(
                *catalogs,
                locale,
                "search.navigation.a11y.running_ai_interaction"@,
            ),
            copy.help@ == text_spec(
                *catalogs,
                locale,
                "search.command_palette.a11y.help.navigate_session"@,
            ),
    {
        NavigationSearchItemAccessibilityCopy {
            selected_with_context_template: catalogs.text(
                locale,
                "search.command_palette.a11y.selected_with_context",
            ),
            last_run_command_template: catalogs.text(
                locale,
                "search.navigation.a11y.last_run_command",
            ),
            last_ai_interaction_template: catalogs.text(
                locale,
                "search.navigation.a11y.last_ai_interaction",
            ),
            running_command_template: catalogs.text(
                locale,
                "search.navigation.a11y.running_command",
            ),
            running_ai_interaction_template: catalogs.text(
                locale,
                "search.navigation.a11y.running_ai_interaction",
            ),
            help: catalogs.text(locale, "search.command_palette.a11y.help.navigate_session"),
        }
    }

    /// The label of a selected session: the template with the session name
    /// and the context description filled in.
    pub fn selected_label(&self, name: &str, context: &str) -> (r: String)
        ensures
            r@ == selected_label_spec(self.selected_with_context_template@, name@, context@),
    {
        proof {
            lemma_placeholder_literals();
        }
        let with_name = replace_all(self.selected_with_context_template.as_str(), "{name}", name);
        replace_all(with_name.as_str(), "{context}", context)
    }

    /// What the session last ran or is running, in words; nothing when the
    /// session has no command context.
    pub fn command_context_description(&self, command_context: &CommandContext) -> (r: Option<
        String,
    >)
        ensures
            match r {
                Some(s) => command_context_description_spec(*self, *command_context) == Some(s@),
                None => command_context_description_spec(*self, *command_context) is None,
            },
    {
        proof {
            lemma_placeholder_literals();
        }
        match command_context {
            CommandContext::NoCommand => None,
            CommandContext::LastRunCommand { last_run_command } => Some(
                replace_all(
                    self.last_run_command_template.as_str(),
                    "{command}",
                    last_run_command.as_str(),
                ),
            ),
            CommandContext::LastRunAIBlock { prompt } => Some(
                replace_all(self.last_ai_interaction_template.as_str(), "{prompt}", prompt.as_str()),
            ),
            CommandContext::RunningCommand { running_command } => Some(
                replace_all(
                    self.running_command_template.as_str(),
                    "{command}",
                    running_command.as_str(),
                ),
            ),
            CommandContext::RunningAIBlock { prompt } => Some(
                replace_all(
                    self.running_ai_interaction_template.as_str(),
                    "{prompt}",
                    prompt.as_str(),
                ),
            ),
        }
    }

    /// The accessibility label of the item for a session whose prompt is
    /// `prompt`: the selected label with the command context described, or
    /// an empty description when there is none.
    pub fn accessibility_label(&self, prompt: &str, command_context: &CommandContext) -> (r: String)
        ensures
            r@ == selected_label_spec(
                self.selected_with_context_template@,
                prompt@,
                match command_context_description_spec(*self, *command_context) {
                    Some(d) => d,
                    None => Seq::empty(),
                },
            ),
    {
        let description = match self.command_context_description(command_context) {
            Some(d) => d,
            None => String::new(),
        };
        self.selected_label(prompt, description.as_str())
    }
}

/// Localized templates for the accessibility labels of new-session items.
#[derive(Debug, Clone)]
pub struct NewSessionSearchItemAccessibilityCopy {
    pub selected_template: String,
    pub help: String,
}

impl NewSessionSearchItemAccessibilityCopy {
    /// The copy in `locale`.
    pub fn new(catalogs: &CatalogBundle, locale: LocaleId) -> (copy: Self)
        ensures
            copy.selected_template@ == text_spec(
                *catalogs,
                locale,
                "search.command_palette.a11y.selected"@,
            ),
            copy.help@ == text_spec(
                *catalogs,
                locale,
                "search.command_palette.a11y.help.launch_session"@,
            ),
    {
        NewSessionSearchItemAccessibilityCopy {
            selected_template: catalogs.text(locale, "search.command_palette.a11y.selected"),
            help: catalogs.text(locale, "search.command_palette.a11y.help.launch_session"),
        }
    }

    /// The label of a selected option: the template with its description
    /// as `{name}`.
    pub fn selected_label(&self, name: &str) -> (r: String)
        ensures
            r@ == replace_spec(self.selected_template@, name_placeholder(), name@),
    {
        proof {
            lemma_placeholder_literals();
        }
        replace_all(self.selected_template.as_str(), "{name}", name)
    }
}

/// Identifies a new-session option.
#[derive(Debug, Clone, PartialEq, Eq, Hash)]
pub struct NewSessionOptionId(pub String);

impl NewSessionOptionId {
    pub fn new(s: String) -> (id: Self)
        ensures
            id.0 == s,
    {
        NewSessionOptionId(s)
    }
}

/// The direction in which a pane is split.
#[derive(Debug, Clone, Copy, PartialEq, Eq)]
pub enum Direction {
    Down,
    Right,
    Up,
    Left,
}

pub open spec fn direction_name_spec(d: Direction) -> Seq<char> {
    match d {
        Direction::Down => "Down"@,
        Direction::Right => "Right"@,
        Direction::Up => "Up"@,
        Direction::Left => "Left"@,
    }
}

pub open spec fn direction_key_spec(d: Direction) -> Seq<char> {
    match d {
        Direction::Down => "search.command_palette.new_session.split_down"@,
        Direction::Right => "search.command_palette.new_session.split_right"@,
        Direction::Up => "search.command_palette.new_session.split_up"@,
        Direction::Left => "search.command_palette.new_session.split_left"@,
    }
}

impl Direction {
    /// The direction's name as the palette shows it.
    pub fn name(&self) -> (r: &'static str)
        ensures
            r@ == direction_name_spec(*self),
    {
        match self {
            Direction::Down => "Down",
            Direction::Right => "Right",
            Direction::Up => "Up",
            Direction::Left => "Left",
        }
    }

    /// The catalog key of the localized description of a split this way.
    pub fn new_session_translation_key(&self) -> (r: &'static str)
        ensures
            r@ == direction_key_spec(*self),
    {
        match self {
            Direction::Down => "search.command_palette.new_session.split_down",
            Direction::Right => "search.command_palette.new_session.split_right",
            Direction::Up => "search.command_palette.new_session.split_up",
            Direction::Left => "search.command_palette.new_session.split_left",
        }
    }
}

/// A shell that a new session can start, with the names the palette shows.
#[derive(Debug, Clone)]
pub struct AvailableShell {
    /// The short name, such as `zsh`.
    pub short_name: String,
    /// The second line of the palette entry, such as the shell's path.
    pub details: String,
}

/// Where a new session opens.
#[derive(Debug, Clone)]
pub enum NewSessionConfig {
    NewTab(AvailableShell),
    NewWindow(AvailableShell),
    Split(Direction, AvailableShell),
}

pub open spec fn config_shell(config: NewSessionConfig) -> AvailableShell {
    match config {
        NewSessionConfig::NewTab(shell) => shell,
        NewSessionConfig::NewWindow(shell) => shell,
        NewSessionConfig::Split(_, shell) => shell,
    }
}

impl NewSessionConfig {
    pub fn shell(&self) -> (shell: &AvailableShell)
        ensures
            *shell == config_shell(*self),
    {
        match self {
            NewSessionConfig::NewTab(shell) => shell,
            NewSessionConfig::NewWindow(shell) => shell,
            NewSessionConfig::Split(_, shell) => shell,
        }
    }
}

/// The action an accepted option triggers.
#[derive(Debug, Clone)]
pub enum NewSessionAction {
    AddTabWithShell(AvailableShell),
    AddWindowWithShell(AvailableShell),
    SplitDown(AvailableShell),
    SplitUp(AvailableShell),
    SplitRight(AvailableShell),
    SplitLeft(AvailableShell),
}

/// An option for creating a new terminal session.
#[derive(Debug)]
pub struct NewSessionOption {
    pub id: NewSessionOptionId,
    pub description: String,
    pub config: NewSessionConfig,
}

/// The English description of an option (the top line of its entry).
pub open spec fn option_description_spec(config: NewSessionConfig) -> Seq<char> {
    match config {
        NewSessionConfig::NewTab(shell) => "Create New Tab: "@ + shell.short_name@,
        NewSessionConfig::NewWindow(shell) => "Create New Window: "@ + shell.short_name@,
        NewSessionConfig::Split(d, shell) => "Split Pane "@ + direction_name_spec(d) + ": "@
            + shell.short_name@,
    }
}

pub open spec fn option_key_spec(config: NewSessionConfig) -> Seq<char> {
    match config {
        NewSessionConfig::NewTab(_) => "search.command_palette.new_session.new_tab"@,
        NewSessionConfig::NewWindow(_) => "search.command_palette.new_session.new_window"@,
        NewSessionConfig::Split(d, _) => direction_key_spec(d),
    }
}

fn copy_shell(shell: &AvailableShell) -> (r: AvailableShell)
    ensures
        r == *shell,
{
    AvailableShell { short_name: shell.short_name.clone(), details: shell.details.clone() }
}

impl NewSessionOption {
    pub fn new(id: NewSessionOptionId, config: NewSessionConfig) -> (option: Self)
        ensures
            option.id == id,
            option.config == config,
            option.description@ == option_description_spec(config),
    {
        let mut d: Vec<char> = Vec::new();
        match &config {
            NewSessionConfig::NewTab(shell) => {
                extend_str(&mut d, "Create New Tab: ");
                extend_str(&mut d, shell.short_name.as_str());
                assert(d@ =~= "Create New Tab: "@ + shell.short_name@);
            },
            NewSessionConfig::NewWindow(shell) => {
                extend_str(&mut d, "Create New Window: ");
                extend_str(&mut d, shell.short_name.as_str());
                assert(d@ =~= "Create New Window: "@ + shell.short_name@);
            },
            NewSessionConfig::Split(direction, shell) => {
                extend_str(&mut d, "Split Pane ");
                extend_str(&mut d, direction.name());
                extend_str(&mut d, ": ");
                extend_str(&mut d, shell.short_name.as_str());
                assert(d@ =~= "Split Pane "@ + direction_name_spec(*direction) + ": "@
                    + shell.short_name@);
            },
        }
        NewSessionOption { id, description: string_from_chars(d.as_slice()), config }
    }

    pub fn id(&self) -> (r: &NewSessionOptionId)
        ensures
            *r == self.id,
    {
        &self.id
    }

    /// The description (the top line of the palette entry).
    pub fn description(&self) -> (r: &str)
        ensures
            r@ == self.description@,
    {
        self.description.as_str()
    }

    /// The details (the second line of the palette entry): the shell's.
    pub fn details(&self) -> (r: &str)
        ensures
            r@ == config_shell(self.config).details@,
    {
        self.config.shell().details.as_str()
    }

    /// The localized description, given the shell's localized short name.
    pub fn localized_description(&self, shell_name: &str) -> (m: LocalizedMessage)
        ensures
            m.key@ == option_key_spec(self.config),
            pairs_view(m.args@) == seq![("shell"@, shell_name@)],
    {
        let key = match &self.config {
            NewSessionConfig::NewTab(_) => "search.command_palette.new_session.new_tab",
            NewSessionConfig::NewWindow(_) => "search.command_palette.new_session.new_window",
            NewSessionConfig::Split(direction, _) => direction.new_session_translation_key(),
        };
        let mut args: Vec<(String, String)> = Vec::new();
        args.push(("shell".to_owned(), shell_name.to_owned()));
        assert(pairs_view(args@) =~= seq![("shell"@, shell_name@)]);
        LocalizedMessage { key: key.to_owned(), args }
    }

    /// The action to trigger when the option is accepted.
    pub fn action(&self) -> (a: NewSessionAction)
        ensures
            a == match self.config {
                NewSessionConfig::NewTab(shell) => NewSessionAction::AddTabWithShell(shell),
                NewSessionConfig::NewWindow(shell) => NewSessionAction::AddWindowWithShell(shell),
                NewSessionConfig::Split(Direction::Down, shell) => NewSessionAction::SplitDown(
                    shell,
                ),
                NewSessionConfig::Split(Direction::Up, shell) => NewSessionAction::SplitUp(shell),
                NewSessionConfig::Split(Direction::Right, shell) => NewSessionAction::SplitRight(
                    shell,
                ),
                NewSessionConfig::Split(Direction::Left, shell) => NewSessionAction::SplitLeft(
                    shell,
                ),
            },
    {
        match &self.config {
            NewSessionConfig::NewTab(shell) => NewSessionAction::AddTabWithShell(copy_shell(shell)),
            NewSessionConfig::NewWindow(shell) => NewSessionAction::AddWindowWithShell(
                copy_shell(shell),
            ),
            NewSessionConfig::Split(Direction::Down, shell) => NewSessionAction::SplitDown(
                copy_shell(shell),
            ),
            NewSessionConfig::Split(Direction::Up, shell) => NewSessionAction::SplitUp(
                copy_shell(shell),
            ),
            NewSessionConfig::Split(Direction::Right, shell) => NewSessionAction::SplitRight(
                copy_shell(shell),
            ),
            NewSessionConfig::Split(Direction::Left, shell) => NewSessionAction::SplitLeft(
                copy_shell(shell),
            ),
        }
    }
}

} // verus!
