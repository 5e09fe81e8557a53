//! The graphical front end as a state machine: a model that user actions
//! change, and the effects that the toolkit is asked to carry out.

use crate::destination::{extension_replaced, with_document_extension, DOCUMENT_EXTENSION};
use crate::error::NdotterError;
use crate::pipeline::DEFAULT_DOT_SIZE;
use crate::uri::{local_text, path_from_uri, path_text, percent_decoded, LocalPath};
use std::path::PathBuf;
use std::string::FromUtf8Error;
use vstd::prelude::*;
use vstd::string::*;

verus! {

/// Which of the two files a dialog is about.
#[derive(Clone, Copy, Debug, PartialEq, Eq, Structural)]
pub enum SelectFile {
    Source,
    Destination,
}

/// A change of the settings.
#[derive(Clone, Copy, Debug, PartialEq, Eq, Structural)]
pub enum Config {
    Open(bool),
    Inversed(bool),
    SelectFile(SelectFile),
    ChangeDotSize(u32),
}

/// What the user can do.
#[derive(Clone, Copy, Debug, PartialEq, Eq, Structural)]
pub enum Msg {
    Config(Config),
    Process,
    Quit,
}

/// The settings of the front end.
#[derive(Clone, Debug, PartialEq, Eq)]
pub struct Model {
    pub inversed: bool,
    pub dot_size: u32,
    pub open: bool,
    pub source: Option<PathBuf>,
    pub destination: Option<PathBuf>,
}

/// The front end: its settings, and what it makes of the user's actions and
/// of the toolkit's answers.
#[derive(Clone, Debug, PartialEq, Eq)]
pub struct App {
    pub model: Model,
}

/// How a notice is presented.
#[derive(Clone, Copy, Debug, PartialEq, Eq, Structural)]
pub enum MessageKind {
    Info,
    Warning,
    Error,
}

/// A message for the user. Closing a fatal notice ends the program.
#[derive(Clone, Debug, PartialEq, Eq)]
pub struct Notice {
    pub text: String,
    pub kind: MessageKind,
    pub fatal: bool,
}

/// What the toolkit is asked to do after a user action.
#[derive(Clone, Debug, PartialEq, Eq)]
pub enum Effect {
    /// Nothing beyond showing the changed settings.
    Nothing,
    /// Let the user pick a file, then hand what `open_dialog` makes of the
    /// dialog to `file_chosen`. Where the path comes with a failure, show
    /// the notice of `decode_failure` as well.
    ChooseFile(SelectFile),
    /// Convert `source` with the settings of the model, then show the
    /// notices of `conversion_notices`.
    Convert,
    /// Show a notice.
    Notify(Notice),
    /// Leave the main loop.
    Quit,
}

/// Whether a dialog opens an existing file or names one to save to.
#[derive(Clone, Copy, Debug, PartialEq, Eq, Structural)]
pub enum DialogAction {
    Open,
    Save,
}

/// The file dialog for one of the two files.
#[derive(Clone, Debug, PartialEq, Eq)]
pub struct FileDialog {
    pub action: DialogAction,
    pub filter_name: &'static str,
    pub mime_types: Vec<&'static str>,
}

/// The views of `names`, in order.
pub open spec fn names_of(names: Seq<&'static str>) -> Seq<Seq<char>> {
    names.map_values(|name: &'static str| name@)
}

/// The settings a session starts with: the light pixels are drawn, dots have
/// the default size, no viewer is opened, and no file is chosen.
pub open spec fn initial_model() -> Model {
    Model {
        inversed: false,
        dot_size: DEFAULT_DOT_SIZE,
        open: false,
        source: None,
        destination: None,
    }
}

/// The transition relation: `after` and `effect` are what the action `event`
/// makes of `before`.
pub open spec fn transition(before: Model, event: Msg, after: Model, effect: Effect) -> bool {
    match event {
        Msg::Process => {
            &&& after == before
            &&& match before.source {
                Some(_) => effect is Convert,
                None => {
                    &&& effect matches Effect::Notify(notice)
                    &&& notice.text@ == "Source file not chosen!"@
                    &&& notice.kind == MessageKind::Error
                    &&& !notice.fatal
                },
            }
        },
        Msg::Config(Config::Inversed(flag)) => {
            &&& after == (Model { inversed: flag, ..before })
            &&& effect is Nothing
        },
        Msg::Config(Config::Open(flag)) => {
            &&& after == (Model { open: flag, ..before })
            &&& effect is Nothing
        },
        Msg::Config(Config::ChangeDotSize(size)) => {
            &&& after == (Model { dot_size: size, ..before })
            &&& effect is Nothing
        },
        Msg::Config(Config::SelectFile(which)) => {
            &&& after == before
            &&& effect == Effect::ChooseFile(which)
        },
        Msg::Quit => {
            &&& after == before
            &&& effect is Quit
        },
    }
}

impl Default for Model {
    /// The settings a session starts with: light pixels, dots of the default
    /// size, no viewer, no files chosen.
    fn default() -> (model: Self)
        ensures
            model == initial_model(),
    {
        Model {
            inversed: false,
            dot_size: DEFAULT_DOT_SIZE,
            open: false,
            source: None,
            destination: None,
        }
    }
}

/// The dialog that lets the user pick `which`: images to open for the source,
/// a vector document to save to for the destination.
pub fn dialog_for(which: SelectFile) -> (dialog: FileDialog)
    ensures
        which == SelectFile::Source ==> dialog.action == DialogAction::Open && dialog.filter_name@
            == "Image files"@ && names_of(dialog.mime_types@) == seq![
            "image/png"@,
            "image/jpeg"@,
            "image/jpg"@,
            "image/gif"@,
        ],
        which == SelectFile::Destination ==> dialog.action == DialogAction::Save
            && dialog.filter_name@ == "SVG file"@ && names_of(dialog.mime_types@) == seq![
            "image/svg"@,
        ],
{
    match which {
        SelectFile::Source => {
            let mime_types = vec!["image/png", "image/jpeg", "image/jpg", "image/gif"];
            FileDialog { action: DialogAction::Open, filter_name: "Image files", mime_types }
        },
        SelectFile::Destination => {
            let mime_types = vec!["image/svg"];
            FileDialog { action: DialogAction::Save, filter_name: "SVG file", mime_types }
        },
    }
}

/// The path that is stored when the user has chosen `path` as `which`: a
/// source as it is, a destination with the document extension in place of
/// its own.
pub open spec fn stored_path(which: SelectFile, path: PathBuf) -> PathBuf {
    match which {
        SelectFile::Source => path,
        SelectFile::Destination => extension_replaced(path, DOCUMENT_EXTENSION@),
    }
}

/// The model with `path` stored as `which`.
pub open spec fn with_file(model: Model, which: SelectFile, path: PathBuf) -> Model {
    match which {
        SelectFile::Source => Model { source: Some(path), ..model },
        SelectFile::Destination => Model { destination: Some(path), ..model },
    }
}

/// Stores the outcome of a dialog: `chosen` becomes the file `which`, and a
/// dialog that yielded nothing changes nothing.
pub fn store_file(model: &mut Model, which: SelectFile, chosen: Option<PathBuf>)
    ensures
        *final(model) == (match chosen {
            Some(path) => with_file(*old(model), which, path),
            None => *old(model),
        }),
{
    match chosen {
        Some(path) => match which {
            SelectFile::Source => {
                model.source = Some(path);
            },
            SelectFile::Destination => {
                model.destination = Some(path);
            },
        },
        None => {},
    }
}

/// What follows once the user has closed `notice`: a fatal notice ends the
/// program, any other leaves it running.
pub fn notice_closed(notice: &Notice) -> (effect: Effect)
    ensures
        effect == (if notice.fatal {
            Effect::Quit
        } else {
            Effect::Nothing
        }),
{
    if notice.fatal {
        Effect::Quit
    } else {
        Effect::Nothing
    }
}

/// The notices after a conversion. A run without failure is announced as
/// finished. A fatal failure is shown as an error and nothing is announced:
/// the run has failed. A failure that is not fatal is shown as a warning, and
/// the run is still announced as finished. None of these notices ends the
/// program.
pub open spec fn notices_after(failure: Option<NdotterError>) -> Seq<
    (Seq<char>, MessageKind, bool),
> {
    match failure {
        Some(error) => if error.fatal() {
            seq![(error.headline(), MessageKind::Error, false)]
        } else {
            seq![
                (error.headline(), MessageKind::Warning, false),
                ("Finished"@, MessageKind::Info, false),
            ]
        },
        None => seq![("Finished"@, MessageKind::Info, false)],
    }
}

/// What a notice says, how, and whether it is fatal.
pub open spec fn notice_view(notice: Notice) -> (Seq<char>, MessageKind, bool) {
    (notice.text@, notice.kind, notice.fatal)
}

impl App {
    /// The settings a session starts with.
    pub fn model() -> (model: Model)
        ensures
            model == initial_model(),
    {
        Model::default()
    }

    /// A front end with the settings a session starts with.
    pub fn new() -> (app: Self)
        ensures
            app.model == initial_model(),
    {
        App { model: App::model() }
    }

    /// Applies one user action to the model and says what the toolkit has to
    /// do.
    pub fn update(&mut self, event: Msg) -> (effect: Effect)
        ensures
            transition(old(self).model, event, final(self).model, effect),
    {
        match event {
            Msg::Process => {
                if self.model.source.is_some() {
                    Effect::Convert
                } else {
                    Effect::Notify(
                        self.message_dialog("Source file not chosen!", MessageKind::Error, false),
                    )
                }
            },
            Msg::Config(Config::Inversed(flag)) => {
                self.model.inversed = flag;
                Effect::Nothing
            },
            Msg::Config(Config::Open(flag)) => {
                self.model.open = flag;
                Effect::Nothing
            },
            Msg::Config(Config::ChangeDotSize(size)) => {
                self.model.dot_size = size;
                Effect::Nothing
            },
            Msg::Config(Config::SelectFile(which)) => Effect::ChooseFile(which),
            Msg::Quit => Effect::Quit,
        }
    }

    /// What a file dialog has yielded: the path behind `uri` where the user
    /// accepted and the dialog names a file, nothing otherwise. `unix` says
    /// whether paths start with a slash on this platform. A path that comes
    /// with a failure is still handed on, and the failure is shown as a fatal
    /// error.
    pub fn open_dialog(&self, accepted: bool, uri: Option<&str>, unix: bool) -> (choice: Option<
        LocalPath,
    >)
        ensures
            choice is Some <==> accepted && uri is Some,
            choice matches Some(path) ==> path.text@ == path_text(uri->Some_0@, unix) && (
            path.failure is Some <==> percent_decoded(local_text(uri->Some_0@, unix)) is None),
    {
        if !accepted {
            return None;
        }
        match uri {
            Some(uri) => Some(path_from_uri(uri, unix)),
            None => None,
        }
    }

    /// The notice that a message dialog shows.
    pub fn message_dialog(&self, message: &str, message_type: MessageKind, fatal: bool) -> (notice:
        Notice)
        ensures
            notice.text@ == message@,
            notice.kind == message_type,
            notice.fatal == fatal,
    {
        Notice { text: String::from_str(message), kind: message_type, fatal }
    }

    /// Takes in what the dialog for `which` has yielded. A source is stored
    /// as it is. A destination is stored with the document extension in place
    /// of its own. A dialog that yielded nothing changes nothing.
    pub fn file_chosen(&mut self, which: SelectFile, chosen: Option<PathBuf>)
        ensures
            final(self).model == (match chosen {
                Some(path) => with_file(old(self).model, which, stored_path(which, path)),
                None => old(self).model,
            }),
    {
        let stored = match which {
            SelectFile::Source => chosen,
            SelectFile::Destination => match chosen {
                Some(path) => Some(with_document_extension(&path)),
                None => None,
            },
        };
        store_file(&mut self.model, which, stored);
    }

    /// The notice for a chosen file whose URI did not decode: an error with
    /// the decoder's message as its text, and fatal, so that closing it ends
    /// the program.
    pub fn decode_failure(&self, failure: &FromUtf8Error) -> (notice: Notice)
        ensures
            to_string_from_display_ensures::<FromUtf8Error>(failure, notice.text),
            notice.kind == MessageKind::Error,
            notice.fatal,
    {
        Notice { text: failure.to_string(), kind: MessageKind::Error, fatal: true }
    }

    /// The notices to show once a conversion has ended, in order: see
    /// `notices_after`.
    pub fn conversion_notices(&self, failure: Option<&NdotterError>) -> (notices: Vec<Notice>)
        ensures
            notices@.map_values(|notice: Notice| notice_view(notice)) == notices_after(
                match failure {
                    Some(error) => Some(*error),
                    None => None,
                },
            ),
    {
        let mut notices: Vec<Notice> = Vec::new();
        match failure {
            Some(error) => {
                if error.is_fatal() {
                    notices.push(self.message_dialog(error.message(), MessageKind::Error, false));
                    return notices;
                }
                notices.push(self.message_dialog(error.message(), MessageKind::Warning, false));
            },
            None => {},
        }
        notices.push(self.message_dialog("Finished", MessageKind::Info, false));
        notices
    }
}

} // verus!
