//! The calculator behind the window: its keys, its expression and history,
//! and what it makes of the evaluator's answers.

use self::config::{without_entry, CalculatorConfig, CalculatorConfigView, Theme};
use self::operations::{extract_value, value_of, Calculator, CalculatorView};
use self::operator::Operator;
use crate::text::{chars_of, skip_whitespace, skip_whitespace_back, trim};
use vstd::prelude::*;

pub mod calculation;
pub mod config;
pub mod key_binds;
pub mod operations;
pub mod operator;

verus! {

/// The name under which the application is known to the desktop.
pub const APP_ID: &'static str = "dev.edfloreshz.Calculator";

/// The pages the context drawer can show.
#[derive(Copy, Clone, Debug, Eq, PartialEq, Structural)]
pub enum ContextPage {
    About,
}

impl Default for ContextPage {
    fn default() -> (page: Self)
        ensures
            page == ContextPage::About,
    {
        ContextPage::About
    }
}

/// What the application is started with.
#[derive(Clone, Debug)]
pub struct Flags {
    /// Whether there is a store to save the configuration to.
    pub persistent: bool,
    /// The configuration to run with.
    pub config: CalculatorConfig,
}

/// The entries of the menu.
#[derive(Clone, Copy, Debug, Eq, PartialEq, Structural)]
pub enum MenuAction {
    About,
    ClearHistory,
}

/// What can happen to the calculator.
#[derive(Debug, Clone)]
pub enum Message {
    /// A number was pressed; this is its decimal text.
    Number(String),
    /// A key other than a digit was pressed.
    Operator(Operator),
    /// The expression was edited as a text.
    Input(String),
    /// A page of the context drawer was asked for.
    ToggleContextPage(ContextPage),
    /// The context drawer was opened or closed.
    ToggleContextDrawer,
    /// The system changed between dark and light.
    SystemThemeModeChange,
    /// The selected entry of the history, which is this one, is to be
    /// deleted.
    Delete(Calculator),
    /// The history is to be emptied.
    CleanHistory,
    /// A notice is to be shown.
    ShowToast(String),
    /// An address is to be opened.
    Open(String),
    /// The locale's decimal sign became known.
    SetDecimalComma(bool),
    /// The evaluator answered, or failed to.
    SetOutcome(Option<String>),
    /// The expression is to be evaluated.
    Evaluate,
}

/// A message with its texts as sequences of characters.
pub enum MessageView {
    Number(Seq<char>),
    Operator(Operator),
    Input(Seq<char>),
    ToggleContextPage(ContextPage),
    ToggleContextDrawer,
    SystemThemeModeChange,
    Delete(CalculatorView),
    CleanHistory,
    ShowToast(Seq<char>),
    Open(Seq<char>),
    SetDecimalComma(bool),
    SetOutcome(Option<Seq<char>>),
    Evaluate,
}

impl View for Message {
    type V = MessageView;

    open spec fn view(&self) -> MessageView {
        match self {
            Message::Number(text) => MessageView::Number(text@),
            Message::Operator(key) => MessageView::Operator(*key),
            Message::Input(text) => MessageView::Input(text@),
            Message::ToggleContextPage(page) => MessageView::ToggleContextPage(*page),
            Message::ToggleContextDrawer => MessageView::ToggleContextDrawer,
            Message::SystemThemeModeChange => MessageView::SystemThemeModeChange,
            Message::Delete(entry) => MessageView::Delete(entry@),
            Message::CleanHistory => MessageView::CleanHistory,
            Message::ShowToast(text) => MessageView::ShowToast(text@),
            Message::Open(address) => MessageView::Open(address@),
            Message::SetDecimalComma(comma) => MessageView::SetDecimalComma(*comma),
            Message::SetOutcome(outcome) => MessageView::SetOutcome(
                match outcome {
                    Some(text) => Some(text@),
                    None => None,
                },
            ),
            Message::Evaluate => MessageView::Evaluate,
        }
    }
}

impl MenuAction {
    /// The message an entry of the menu stands for.
    pub fn message(&self) -> (message: Message)
        ensures
            message@ == (match self {
                MenuAction::About => MessageView::ToggleContextPage(ContextPage::About),
                MenuAction::ClearHistory => MessageView::CleanHistory,
            }),
    {
        match self {
            MenuAction::About => Message::ToggleContextPage(ContextPage::About),
            MenuAction::ClearHistory => Message::CleanHistory,
        }
    }
}

/// What the window and the system are to do after a message.
#[derive(Debug, Clone)]
pub enum Effect {
    /// Nothing.
    Nothing,
    /// Open the address.
    Open(String),
    /// Show the notice.
    Toast(String),
    /// Run the evaluator on the expression, with this decimal sign.
    Evaluate(String, bool),
    /// Add the entry to the list of the history under this title, and save
    /// the history if the flag is set.
    Record(String, Calculator, bool),
    /// Take the selected entry off the list of the history, and save the
    /// history if the flag is set.
    Remove(bool),
    /// Empty the list of the history, and save the history if the flag is
    /// set.
    Clear(bool),
    /// Build the theme and apply it.
    ApplyTheme(Theme),
}

/// An effect with its texts as sequences of characters.
pub enum EffectView {
    Nothing,
    Open(Seq<char>),
    Toast(Seq<char>),
    Evaluate(Seq<char>, bool),
    Record(Seq<char>, CalculatorView, bool),
    Remove(bool),
    Clear(bool),
    ApplyTheme(Theme),
}

impl View for Effect {
    type V = EffectView;

    open spec fn view(&self) -> EffectView {
        match self {
            Effect::Nothing => EffectView::Nothing,
            Effect::Open(address) => EffectView::Open(address@),
            Effect::Toast(text) => EffectView::Toast(text@),
            Effect::Evaluate(expression, comma) => EffectView::Evaluate(expression@, *comma),
            Effect::Record(title, entry, save) => EffectView::Record(title@, entry@, *save),
            Effect::Remove(save) => EffectView::Remove(*save),
            Effect::Clear(save) => EffectView::Clear(*save),
            Effect::ApplyTheme(theme) => EffectView::ApplyTheme(*theme),
        }
    }
}

/// The calculator: what the window shows and what it keeps.
#[derive(Debug, Clone)]
pub struct CosmicCalculator {
    /// The page of the context drawer.
    pub context_page: ContextPage,
    /// Whether the context drawer is open.
    pub show_context: bool,
    /// Whether there is a store to save the configuration to.
    pub persistent: bool,
    /// The configuration, with the history.
    pub config: CalculatorConfig,
    /// The entry under the keys.
    pub calculator: Calculator,
}

/// A calculator with its texts as sequences of characters.
pub struct CosmicCalculatorView {
    pub context_page: ContextPage,
    pub show_context: bool,
    pub persistent: bool,
    pub config: CalculatorConfigView,
    pub calculator: CalculatorView,
}

impl View for CosmicCalculator {
    type V = CosmicCalculatorView;

    open spec fn view(&self) -> CosmicCalculatorView {
        CosmicCalculatorView {
            context_page: self.context_page,
            show_context: self.show_context,
            persistent: self.persistent,
            config: self.config@,
            calculator: self.calculator@,
        }
    }
}

impl CosmicCalculatorView {
    /// The request to evaluate the expression as it stands, without the
    /// white space around it.
    pub open spec fn evaluation(self) -> EffectView {
        EffectView::Evaluate(trim(self.calculator.expression), self.calculator.decimal_comma)
    }

    /// The calculator after the evaluator's answer.
    ///
    /// The value of the answer becomes the outcome of the entry; the entry
    /// goes into the list of the history under its expression, and into the
    /// stored history if there is a store; then the value becomes the new
    /// expression.
    pub open spec fn answered(self, answer: Seq<char>) -> (CosmicCalculatorView, EffectView) {
        let value = value_of(answer);
        let entry = CalculatorView { outcome: value, ..self.calculator };
        (
            CosmicCalculatorView {
                calculator: CalculatorView { expression: value, ..entry },
                config: if self.persistent {
                    CalculatorConfigView {
                        history: self.config.history.push(entry),
                        ..self.config
                    }
                } else {
                    self.config
                },
                ..self
            },
            EffectView::Record(self.calculator.expression, entry, self.persistent),
        )
    }

    /// The calculator after a message, and what is to be done.
    pub open spec fn updated(self, message: MessageView) -> (CosmicCalculatorView, EffectView) {
        match message {
            MessageView::Open(address) => (self, EffectView::Open(address)),
            MessageView::ShowToast(text) => (self, EffectView::Toast(text)),
            MessageView::ToggleContextPage(page) => (
                if self.context_page == page {
                    CosmicCalculatorView { show_context: !self.show_context, ..self }
                } else {
                    CosmicCalculatorView { context_page: page, show_context: true, ..self }
                },
                EffectView::Nothing,
            ),
            MessageView::ToggleContextDrawer => (
                CosmicCalculatorView { show_context: !self.show_context, ..self },
                EffectView::Nothing,
            ),
            MessageView::SetDecimalComma(comma) => (
                CosmicCalculatorView {
                    calculator: CalculatorView { decimal_comma: comma, ..self.calculator },
                    ..self
                },
                EffectView::Nothing,
            ),
            MessageView::Number(text) => (
                CosmicCalculatorView {
                    calculator: CalculatorView {
                        expression: self.calculator.expression + text,
                        ..self.calculator
                    },
                    ..self
                },
                EffectView::Nothing,
            ),
            MessageView::Input(text) => (
                if operations::is_expression_input(text) {
                    CosmicCalculatorView {
                        calculator: CalculatorView { expression: text, ..self.calculator },
                        ..self
                    }
                } else {
                    self
                },
                EffectView::Nothing,
            ),
            MessageView::Operator(key) => {
                let (calculator, asked) = self.calculator.after_key(key);
                let pressed = CosmicCalculatorView { calculator, ..self };
                (
                    pressed,
                    match asked {
                        Some(_) => pressed.evaluation(),
                        None => EffectView::Nothing,
                    },
                )
            },
            MessageView::Evaluate => (self, self.evaluation()),
            MessageView::SetOutcome(Some(answer)) => self.answered(answer),
            MessageView::SetOutcome(None) => (self, EffectView::Toast("No outcome"@)),
            MessageView::Delete(entry) => (
                if self.persistent {
                    CosmicCalculatorView {
                        config: CalculatorConfigView {
                            history: without_entry(self.config.history, entry),
                            ..self.config
                        },
                        ..self
                    }
                } else {
                    self
                },
                EffectView::Remove(self.persistent),
            ),
            MessageView::SystemThemeModeChange => (
                self,
                EffectView::ApplyTheme(self.config.app_theme.plan()),
            ),
            MessageView::CleanHistory => (
                if self.persistent {
                    CosmicCalculatorView {
                        config: CalculatorConfigView { history: Seq::empty(), ..self.config },
                        ..self
                    }
                } else {
                    self
                },
                EffectView::Clear(self.persistent),
            ),
        }
    }
}

impl CosmicCalculator {
    /// The calculator at its start: the first page, the drawer closed, an
    /// empty entry, and the configuration it was started with.
    pub fn init(flags: Flags) -> (app: Self)
        ensures
            app@ == (CosmicCalculatorView {
                context_page: ContextPage::About,
                show_context: false,
                persistent: flags.persistent,
                config: flags.config@,
                calculator: CalculatorView {
                    expression: Seq::empty(),
                    outcome: Seq::empty(),
                    decimal_comma: false,
                },
            }),
    {
        CosmicCalculator {
            context_page: ContextPage::About,
            show_context: false,
            persistent: flags.persistent,
            config: flags.config,
            calculator: Calculator::new(),
        }
    }

    /// Takes an entry of the history back under the keys: its outcome
    /// becomes the expression, and the outcome is emptied. Without an entry
    /// nothing changes.
    pub fn on_nav_select(&mut self, selected: Option<&Calculator>)
        ensures
            final(self)@ == (match selected {
                Some(entry) => CosmicCalculatorView {
                    calculator: CalculatorView {
                        expression: entry@.outcome,
                        outcome: Seq::empty(),
                        ..old(self)@.calculator
                    },
                    ..old(self)@
                },
                None => old(self)@,
            }),
    {
        match selected {
            Some(entry) => {
                self.calculator.expression = entry.outcome.clone();
                self.calculator.outcome = String::new();
            },
            None => {},
        }
    }

    /// The request to evaluate the expression as it stands.
    fn evaluation(&self) -> (effect: Effect)
        ensures
            effect@ == self@.evaluation(),
    {
        let chars = chars_of(self.calculator.expression.as_str());
        let from = skip_whitespace(&chars, 0, chars.len());
        let to = skip_whitespace_back(&chars, from, chars.len());
        assert(chars@.subrange(0, chars@.len() as int) =~= self.calculator.expression@);
        let expression = self.calculator.expression.as_str().substring_char(from, to);
        Effect::Evaluate(String::from_str(expression), self.calculator.decimal_comma)
    }

    /// Acts on a message: see [`CosmicCalculatorView::updated`].
    pub fn update(&mut self, message: Message) -> (effect: Effect)
        ensures
            (final(self)@, effect@) == old(self)@.updated(message@),
    {
        match message {
            Message::Open(address) => Effect::Open(address),
            Message::ShowToast(text) => Effect::Toast(text),
            Message::ToggleContextPage(page) => {
                if self.context_page == page {
                    self.show_context = !self.show_context;
                } else {
                    self.context_page = page;
                    self.show_context = true;
                }
                Effect::Nothing
            },
            Message::ToggleContextDrawer => {
                self.show_context = !self.show_context;
                Effect::Nothing
            },
            Message::SetDecimalComma(comma) => {
                self.calculator.decimal_comma = comma;
                Effect::Nothing
            },
            Message::Number(text) => {
                self.calculator.on_number_press(text.as_str());
                Effect::Nothing
            },
            Message::Input(text) => {
                self.calculator.on_input(text);
                Effect::Nothing
            },
            Message::Operator(key) => {
                match self.calculator.on_operator_press(&key) {
                    Some(_) => self.evaluation(),
                    None => Effect::Nothing,
                }
            },
            Message::Evaluate => self.evaluation(),
            Message::SetOutcome(Some(answer)) => {
                let value = extract_value(answer.as_str());
                self.calculator.outcome = String::from_str(value);
                if self.persistent {
                    self.config.remember(self.calculator.clone());
                }
                let title = self.calculator.expression.clone();
                let entry = self.calculator.clone();
                self.calculator.expression = String::from_str(value);
                Effect::Record(title, entry, self.persistent)
            },
            Message::SetOutcome(None) => Effect::Toast(String::from_str("No outcome")),
            Message::Delete(entry) => {
                if self.persistent {
                    self.config.forget(&entry);
                }
                Effect::Remove(self.persistent)
            },
            Message::SystemThemeModeChange => Effect::ApplyTheme(self.config.app_theme.theme()),
            Message::CleanHistory => {
                if self.persistent {
                    self.config.forget_all();
                }
                Effect::Clear(self.persistent)
            },
        }
    }
}

} // verus!
