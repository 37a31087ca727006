//! What the calculator keeps between runs: its theme and its history.

use super::operations::{Calculator, CalculatorView};
use vstd::prelude::*;

verus! {

/// The version of the stored configuration.
pub const CONFIG_VERSION: u64 = 1;

/// The theme chosen for the application.
#[derive(Clone, Copy, Debug, Eq, PartialEq, Structural)]
pub enum AppTheme {
    Dark,
    Light,
    System,
}

impl Default for AppTheme {
    fn default() -> (theme: Self)
        ensures
            theme == AppTheme::System,
    {
        AppTheme::System
    }
}

/// Which of the system's themes to start from.
#[derive(Clone, Copy, Debug, Eq, PartialEq, Structural)]
pub enum ThemeBase {
    SystemDark,
    SystemLight,
    SystemPreference,
}

/// How to build the theme of the application.
#[derive(Clone, Copy, Debug, Eq, PartialEq, Structural)]
pub struct Theme {
    /// The theme to start from.
    pub base: ThemeBase,
    /// Whether to pin the preference for dark or light, and to which.
    pub prefer_dark: Option<bool>,
}

impl AppTheme {
    /// How to build this theme: the dark and the light theme start from the
    /// system's theme of that kind and pin the preference; the system theme
    /// follows the system's preference and pins nothing.
    pub open spec fn plan(self) -> Theme {
        match self {
            AppTheme::Dark => Theme { base: ThemeBase::SystemDark, prefer_dark: Some(true) },
            AppTheme::Light => Theme { base: ThemeBase::SystemLight, prefer_dark: Some(false) },
            AppTheme::System => Theme { base: ThemeBase::SystemPreference, prefer_dark: None },
        }
    }

    /// How to build this theme: see [`AppTheme::plan`].
    pub fn theme(&self) -> (theme: Theme)
        ensures
            theme == self.plan(),
    {
        match self {
            AppTheme::Dark => Theme { base: ThemeBase::SystemDark, prefer_dark: Some(true) },
            AppTheme::Light => Theme { base: ThemeBase::SystemLight, prefer_dark: Some(false) },
            AppTheme::System => Theme { base: ThemeBase::SystemPreference, prefer_dark: None },
        }
    }
}

/// The stored configuration.
#[derive(Clone, Debug)]
pub struct CalculatorConfig {
    pub app_theme: AppTheme,
    pub history: Vec<Calculator>,
}

/// The entries of a history with their texts as sequences of characters.
pub open spec fn entries(history: Seq<Calculator>) -> Seq<CalculatorView> {
    Seq::new(history.len(), |i: int| history[i]@)
}

/// A configuration with its history as a sequence of entry views.
pub struct CalculatorConfigView {
    pub app_theme: AppTheme,
    pub history: Seq<CalculatorView>,
}

impl View for CalculatorConfig {
    type V = CalculatorConfigView;

    open spec fn view(&self) -> CalculatorConfigView {
        CalculatorConfigView { app_theme: self.app_theme, history: entries(self.history@) }
    }
}

/// A history without the entries that equal a given one.
pub open spec fn without_entry(history: Seq<CalculatorView>, entry: CalculatorView) -> Seq<
    CalculatorView,
> {
    history.filter(|kept: CalculatorView| kept != entry)
}

impl CalculatorConfig {
    /// The configuration to run with, given what loading it brought: the
    /// stored one where it was read, what could be read of it where reading
    /// met errors, and the default where there is no store.
    pub fn config<E>(
        loaded: Option<Result<CalculatorConfig, (E, CalculatorConfig)>>,
    ) -> (config: CalculatorConfig)
        ensures
            (match loaded {
                Some(Ok(stored)) => config == stored,
                Some(Err((_, partial))) => config == partial,
                None => config@ == (CalculatorConfigView {
                    app_theme: AppTheme::System,
                    history: Seq::empty(),
                }),
            }),
    {
        match loaded {
            Some(Ok(stored)) => stored,
            Some(Err((_, partial))) => partial,
            None => {
                let config = CalculatorConfig { app_theme: AppTheme::System, history: Vec::new() };
                assert(config@.history =~= Seq::empty());
                config
            },
        }
    }

    /// Appends an entry to the history.
    pub fn remember(&mut self, entry: Calculator)
        ensures
            final(self)@ == (CalculatorConfigView {
                history: old(self)@.history.push(entry@),
                ..old(self)@
            }),
    {
        self.history.push(entry);
        assert(entries(self.history@) =~= entries(old(self).history@).push(entry@));
    }

    /// Removes from the history every entry that equals the given one.
    pub fn forget(&mut self, entry: &Calculator)
        ensures
            final(self)@ == (CalculatorConfigView {
                history: without_entry(old(self)@.history, entry@),
                ..old(self)@
            }),
    {
        let mut kept: Vec<Calculator> = Vec::new();
        let mut at: usize = 0;
        let ghost before = entries(self.history@);
        while at < self.history.len()
            invariant
                at <= self.history.len(),
                before == entries(self.history@),
                self.app_theme == old(self).app_theme,
                entries(kept@) == without_entry(before.take(at as int), entry@),
            decreases self.history.len() - at,
        {
            proof {
                assert(before.take(at + 1).drop_last() =~= before.take(at as int));
                reveal(Seq::filter);
            }
            if !self.history[at].same_as(entry) {
                kept.push(self.history[at].clone());
            }
            at += 1;
        }
        assert(before.take(at as int) =~= before);
        self.history = kept;
    }

    /// Empties the history.
    pub fn forget_all(&mut self)
        ensures
            final(self)@ == (CalculatorConfigView { history: Seq::empty(), ..old(self)@ }),
    {
        self.history = Vec::new();
        assert(entries(self.history@) =~= Seq::empty());
    }
}

impl Default for CalculatorConfig {
    fn default() -> (config: Self)
        ensures
            config@ == (CalculatorConfigView {
                app_theme: AppTheme::System,
                history: Seq::empty(),
            }),
    {
        let config = CalculatorConfig { app_theme: AppTheme::System, history: Vec::new() };
        assert(config@.history =~= Seq::empty());
        config
    }
}

} // verus!
