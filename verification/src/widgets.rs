//! The state of the front end's composite widgets and how events change it.

use std::path::PathBuf;
use vstd::prelude::*;

verus! {

/// State of a file selector: a disabled entry that shows the chosen path and
/// a button that asks for a dialog.
#[derive(Clone, Debug, PartialEq, Eq)]
pub struct FileSelectModel {
    pub placeholder: &'static str,
    pub path: Option<PathBuf>,
}

/// Events of a file selector.
#[derive(Clone, Debug, PartialEq, Eq)]
pub enum FileSelectMsg {
    SetPath(Option<PathBuf>),
    InvokeDialog,
}

impl FileSelectModel {
    /// A selector with no path chosen.
    pub fn model(placeholder: &'static str) -> (model: Self)
        ensures
            model.placeholder == placeholder,
            model.path is None,
    {
        FileSelectModel { placeholder, path: None }
    }

    /// `SetPath` replaces the path, also by none; `InvokeDialog` is for the
    /// parent to act on and changes nothing.
    pub fn update(&mut self, event: FileSelectMsg)
        ensures
            final(self).placeholder == old(self).placeholder,
            final(self).path == (match event {
                FileSelectMsg::SetPath(path) => path,
                FileSelectMsg::InvokeDialog => old(self).path,
            }),
    {
        match event {
            FileSelectMsg::SetPath(path) => {
                self.path = path;
            },
            FileSelectMsg::InvokeDialog => {},
        }
    }
}

/// State of a spin button with a label in front of it.
#[derive(Clone, Copy, Debug, PartialEq, Eq)]
pub struct LabelledSpinButtonModel {
    pub label: &'static str,
    pub value: u32,
}

/// Events of a labelled spin button.
#[derive(Clone, Copy, Debug, PartialEq, Eq, Structural)]
pub enum LabelledSpinButtonMsg {
    ValueSet(u32),
}

impl LabelledSpinButtonModel {
    /// A spin button that shows 1.
    pub fn model(label: &'static str) -> (model: Self)
        ensures
            model.label == label,
            model.value == 1,
    {
        LabelledSpinButtonModel { label, value: 1 }
    }

    /// Takes over the value that was set.
    pub fn update(&mut self, event: LabelledSpinButtonMsg)
        ensures
            final(self).label == old(self).label,
            event matches LabelledSpinButtonMsg::ValueSet(value) && final(self).value == value,
    {
        match event {
            LabelledSpinButtonMsg::ValueSet(value) => {
                self.value = value;
            },
        }
    }
}

/// State of a switch with a label in front of it.
#[derive(Clone, Copy, Debug, PartialEq, Eq)]
pub struct LabelledSwitchModel {
    pub label: &'static str,
    pub state: bool,
}

/// Events of a labelled switch.
#[derive(Clone, Copy, Debug, PartialEq, Eq, Structural)]
pub enum LabelledSwitchMsg {
    StateSet(bool),
}

impl LabelledSwitchModel {
    /// A switch that is off.
    pub fn model(label: &'static str) -> (model: Self)
        ensures
            model.label == label,
            !model.state,
    {
        LabelledSwitchModel { label, state: false }
    }

    /// Takes over the state that was set.
    pub fn update(&mut self, event: LabelledSwitchMsg)
        ensures
            final(self).label == old(self).label,
            event matches LabelledSwitchMsg::StateSet(state) && final(self).state == state,
    {
        match event {
            LabelledSwitchMsg::StateSet(state) => {
                self.state = state;
            },
        }
    }
}

/// State of the header bar: its label.
#[derive(Clone, Copy, Debug, PartialEq, Eq)]
pub struct NotHeaderModel(pub &'static str);

/// Events of the header bar. It reacts to none of them.
#[derive(Clone, Copy, Debug, PartialEq, Eq, Structural)]
pub enum NotHeaderMsg {
    StateSet(bool),
}

impl NotHeaderModel {
    /// A header bar with the given label.
    pub fn model(label: &'static str) -> (model: Self)
        ensures
            model.0 == label,
    {
        NotHeaderModel(label)
    }
}

/// The two typefaces of a heading.
#[derive(Clone, Copy, Debug, PartialEq, Eq, Structural)]
pub enum FontType {
    Dot,
    Serif,
}

/// State of a heading: its label and its typeface.
#[derive(Clone, Copy, Debug, PartialEq, Eq)]
pub struct NotHeadingModel {
    pub label: &'static str,
    pub font_type: FontType,
}

impl NotHeadingModel {
    /// A heading made of a label and a typeface.
    pub fn model(data: (&'static str, FontType)) -> (model: Self)
        ensures
            model.label == data.0,
            model.font_type == data.1,
    {
        NotHeadingModel { label: data.0, font_type: data.1 }
    }
}

} // verus!
