//! The state of the interactive front end, and what it does on each event.
//! The front end shows the state, opens the dialogs and runs the operations;
//! what follows from each answer is decided here.

use vstd::prelude::*;
use vstd::string::StringExecFns;

verus! {

/// The files selected so far and the outcome of the last operation.
pub struct App {
    uexp_path: Option<String>,
    uasset_path: Option<String>,
    injected_path: Option<String>,
    last_output: String,
}

/// An `App` as contracts see it.
pub struct AppView {
    pub uexp_path: Option<Seq<char>>,
    pub uasset_path: Option<Seq<char>>,
    pub injected_path: Option<Seq<char>>,
    pub last_output: Seq<char>,
}

/// What happened in the front end.
pub enum Event {
    /// The dialog for the container was answered, with a path or without.
    UexpPicked(Option<String>),
    /// The dialog for the metadata was answered.
    UassetPicked(Option<String>),
    /// The dialog for the file to inject was answered.
    InjectedPicked(Option<String>),
    /// The button that extracts was pressed.
    ExtractPressed,
    /// The dialog for the destination of an extraction was answered.
    OutputChosen(Option<String>),
    /// The button that injects was pressed.
    InjectPressed,
    /// An operation ended, well or with the text of its error.
    Finished(Result<(), String>),
}

/// An `Event` as contracts see it.
pub enum EventView {
    UexpPicked(Option<Seq<char>>),
    UassetPicked(Option<Seq<char>>),
    InjectedPicked(Option<Seq<char>>),
    ExtractPressed,
    OutputChosen(Option<Seq<char>>),
    InjectPressed,
    Finished(Result<(), Seq<char>>),
}

/// What the front end is to do next.
pub enum Action {
    /// Nothing but to show the state.
    Nothing,
    /// Ask where the extracted payload is to go, and report the answer as
    /// `OutputChosen`.
    AskOutput,
    /// Extract from `uexp` to `output`, and report the end as `Finished`.
    Extract { uexp: String, output: String, overwrite: bool },
    /// Inject `file` into `uexp` with metadata `uasset`, and report the end as
    /// `Finished`.
    Inject { file: String, uexp: String, uasset: String, force: bool },
}

/// An `Action` as contracts see it.
pub enum ActionView {
    Nothing,
    AskOutput,
    Extract { uexp: Seq<char>, output: Seq<char>, overwrite: bool },
    Inject { file: Seq<char>, uexp: Seq<char>, uasset: Seq<char>, force: bool },
}

/// The characters of an optional path.
pub open spec fn path_view(path: Option<String>) -> Option<Seq<char>> {
    match path {
        Some(p) => Some(p@),
        None => None,
    }
}

impl View for App {
    type V = AppView;

    closed spec fn view(&self) -> AppView {
        AppView {
            uexp_path: path_view(self.uexp_path),
            uasset_path: path_view(self.uasset_path),
            injected_path: path_view(self.injected_path),
            last_output: self.last_output@,
        }
    }
}

impl View for Event {
    type V = EventView;

    open spec fn view(&self) -> EventView {
        match *self {
            Event::UexpPicked(path) => EventView::UexpPicked(path_view(path)),
            Event::UassetPicked(path) => EventView::UassetPicked(path_view(path)),
            Event::InjectedPicked(path) => EventView::InjectedPicked(path_view(path)),
            Event::ExtractPressed => EventView::ExtractPressed,
            Event::OutputChosen(path) => EventView::OutputChosen(path_view(path)),
            Event::InjectPressed => EventView::InjectPressed,
            Event::Finished(Ok(())) => EventView::Finished(Ok(())),
            Event::Finished(Err(text)) => EventView::Finished(Err(text@)),
        }
    }
}

impl View for Action {
    type V = ActionView;

    open spec fn view(&self) -> ActionView {
        match *self {
            Action::Nothing => ActionView::Nothing,
            Action::AskOutput => ActionView::AskOutput,
            Action::Extract { uexp, output, overwrite } => ActionView::Extract {
                uexp: uexp@,
                output: output@,
                overwrite,
            },
            Action::Inject { file, uexp, uasset, force } => ActionView::Inject {
                file: file@,
                uexp: uexp@,
                uasset: uasset@,
                force,
            },
        }
    }
}

/// The state before anything was selected or run.
pub open spec fn initial() -> AppView {
    AppView { uexp_path: None, uasset_path: None, injected_path: None, last_output: Seq::empty() }
}

/// `state` with `text` as the outcome shown.
pub open spec fn with_output(state: AppView, text: Seq<char>) -> AppView {
    AppView { last_output: text, ..state }
}

/// The state after `event` and what the front end is to do then.
///
/// An answered selection dialog replaces the selection, also by none. An
/// extraction needs a container and then a destination; an injection needs a
/// container, metadata and a file to inject, asked for in this order; the
/// first that is missing is reported and nothing is run. From here every
/// operation runs with its override set: an extraction overwrites, an
/// injection is forced. An operation that ends shows `Success` or the text
/// of its error.
pub open spec fn step(state: AppView, event: EventView) -> (AppView, ActionView) {
    match event {
        EventView::UexpPicked(path) => (AppView { uexp_path: path, ..state }, ActionView::Nothing),
        EventView::UassetPicked(path) => (
            AppView { uasset_path: path, ..state },
            ActionView::Nothing,
        ),
        EventView::InjectedPicked(path) => (
            AppView { injected_path: path, ..state },
            ActionView::Nothing,
        ),
        EventView::ExtractPressed => match state.uexp_path {
            Some(_) => (state, ActionView::AskOutput),
            None => (with_output(state, "No UEXP selected"@), ActionView::Nothing),
        },
        EventView::OutputChosen(chosen) => match state.uexp_path {
            Some(uexp) => match chosen {
                Some(output) => (state, ActionView::Extract { uexp, output, overwrite: true }),
                None => (with_output(state, "No output file selected"@), ActionView::Nothing),
            },
            None => (with_output(state, "No UEXP selected"@), ActionView::Nothing),
        },
        EventView::InjectPressed => match state.uexp_path {
            Some(uexp) => match state.uasset_path {
                Some(uasset) => match state.injected_path {
                    Some(file) => (state, ActionView::Inject { file, uexp, uasset, force: true }),
                    None => (
                        with_output(state, "No file to inject selected"@),
                        ActionView::Nothing,
                    ),
                },
                None => (with_output(state, "No UASSET selected"@), ActionView::Nothing),
            },
            None => (with_output(state, "No UEXP selected"@), ActionView::Nothing),
        },
        EventView::Finished(ended) => match ended {
            Ok(()) => (with_output(state, "Success"@), ActionView::Nothing),
            Err(text) => (with_output(state, text), ActionView::Nothing),
        },
    }
}

/// The text shown for a selection: the path, or that there is none.
pub open spec fn selection_text(path: Option<Seq<char>>) -> Seq<char> {
    match path {
        Some(p) => p,
        None => "not selected"@,
    }
}

/// The text shown for a selection.
fn selection(path: &Option<String>) -> (text: &str)
    ensures
        text@ == selection_text(path_view(*path)),
{
    match path {
        Some(p) => p.as_str(),
        None => "not selected",
    }
}

impl Default for App {
    /// The state before anything was selected or run.
    fn default() -> (app: App)
        ensures
            app@ == initial(),
    {
        App { uexp_path: None, uasset_path: None, injected_path: None, last_output: String::new() }
    }
}

impl App {
    /// The title of the front end.
    pub fn name(&self) -> (title: &'static str)
        ensures
            title@ == "GGST BBScript Unpacker"@,
    {
        "GGST BBScript Unpacker"
    }

    /// The selected container, if any.
    pub fn uexp_path(&self) -> (path: &Option<String>)
        ensures
            path_view(*path) == self@.uexp_path,
    {
        &self.uexp_path
    }

    /// The selected metadata, if any.
    pub fn uasset_path(&self) -> (path: &Option<String>)
        ensures
            path_view(*path) == self@.uasset_path,
    {
        &self.uasset_path
    }

    /// The selected file to inject, if any.
    pub fn injected_path(&self) -> (path: &Option<String>)
        ensures
            path_view(*path) == self@.injected_path,
    {
        &self.injected_path
    }

    /// The outcome of the last operation, empty before the first.
    pub fn last_output(&self) -> (text: &str)
        ensures
            text@ == self@.last_output,
    {
        self.last_output.as_str()
    }

    /// The line shown beside the button that selects the container.
    pub fn uexp_label(&self) -> (label: String)
        ensures
            label@ == "UEXP Path: "@ + selection_text(self@.uexp_path),
    {
        String::from_str("UEXP Path: ").concat(selection(&self.uexp_path))
    }

    /// The line shown beside the button that selects the metadata.
    pub fn uasset_label(&self) -> (label: String)
        ensures
            label@ == "UASSET Path: "@ + selection_text(self@.uasset_path),
    {
        String::from_str("UASSET Path: ").concat(selection(&self.uasset_path))
    }

    /// The line shown beside the button that selects the file to inject.
    pub fn injected_label(&self) -> (label: String)
        ensures
            label@ == "Injected Path: "@ + selection_text(self@.injected_path),
    {
        String::from_str("Injected Path: ").concat(selection(&self.injected_path))
    }

    /// The line that shows the outcome of the last operation.
    pub fn result_label(&self) -> (label: String)
        ensures
            label@ == "Result: "@ + self@.last_output,
    {
        String::from_str("Result: ").concat(self.last_output.as_str())
    }

    /// Takes `event` in: the state becomes, and the action returned is, what
    /// `step` gives for the state before and the event.
    pub fn update(&mut self, event: Event) -> (action: Action)
        ensures
            final(self)@ == step(old(self)@, event@).0,
            action@ == step(old(self)@, event@).1,
    {
        match event {
            Event::UexpPicked(path) => {
                self.uexp_path = path;
                Action::Nothing
            },
            Event::UassetPicked(path) => {
                self.uasset_path = path;
                Action::Nothing
            },
            Event::InjectedPicked(path) => {
                self.injected_path = path;
                Action::Nothing
            },
            Event::ExtractPressed => {
                if self.uexp_path.is_some() {
                    Action::AskOutput
                } else {
                    self.last_output = String::from_str("No UEXP selected");
                    Action::Nothing
                }
            },
            Event::OutputChosen(chosen) => {
                match &self.uexp_path {
                    Some(uexp) => match chosen {
                        Some(output) => Action::Extract {
                            uexp: uexp.clone(),
                            output,
                            overwrite: true,
                        },
                        None => {
                            self.last_output = String::from_str("No output file selected");
                            Action::Nothing
                        },
                    },
                    None => {
                        self.last_output = String::from_str("No UEXP selected");
                        Action::Nothing
                    },
                }
            },
            Event::InjectPressed => {
                match (&self.uexp_path, &self.uasset_path, &self.injected_path) {
                    (Some(uexp), Some(uasset), Some(file)) => Action::Inject {
                        file: file.clone(),
                        uexp: uexp.clone(),
                        uasset: uasset.clone(),
                        force: true,
                    },
                    (Some(_), Some(_), None) => {
                        self.last_output = String::from_str("No file to inject selected");
                        Action::Nothing
                    },
                    (Some(_), None, _) => {
                        self.last_output = String::from_str("No UASSET selected");
                        Action::Nothing
                    },
                    (None, _, _) => {
                        self.last_output = String::from_str("No UEXP selected");
                        Action::Nothing
                    },
                }
            },
            Event::Finished(ended) => {
                match ended {
                    Ok(()) => {
                        self.last_output = String::from_str("Success");
                    },
                    Err(text) => {
                        self.last_output = text;
                    },
                }
                Action::Nothing
            },
        }
    }
}

} // verus!
