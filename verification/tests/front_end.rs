use std::path::PathBuf;

use ndotter::destination::{destination_or, get_destination};
use ndotter::error::NdotterError;
use ndotter::front::{
    dialog_for, notice_closed, store_file, App, Config, DialogAction, Effect, MessageKind, Model,
    Msg, Notice, SelectFile,
};
use ndotter::uri::{local_part, path_from_uri, trim_leading};
use ndotter::widgets::{
    FileSelectModel, FileSelectMsg, FontType, LabelledSpinButtonModel, LabelledSpinButtonMsg,
    LabelledSwitchModel, LabelledSwitchMsg, NotHeaderModel, NotHeadingModel,
};
use ndotter::widget::{
    to_toolkit_extent, DialogProperties, IconSize, ImageProperties, KonnImageExt, KonnWindowExt,
    NdotterDialogExt, NdotterWidgetExt, ResponseType, Size, WidgetProperties, WindowProperties,
};

#[test]
fn destination_that_was_asked_for_is_kept() {
    let source = PathBuf::from("pictures/cat.png");
    let asked = PathBuf::from("out/result.svg");
    assert_eq!(get_destination(&source, Some(asked.clone())), asked);
    assert_eq!(get_destination(&source, Some(PathBuf::from("plain"))), PathBuf::from("plain"));
}

#[test]
fn destination_defaults_to_the_source_with_the_document_extension() {
    assert_eq!(
        get_destination(&PathBuf::from("pictures/cat.png"), None),
        PathBuf::from("pictures/cat.svg")
    );
    assert_eq!(
        get_destination(&PathBuf::from("archive.tar.gz"), None),
        PathBuf::from("archive.tar.svg")
    );
    assert_eq!(get_destination(&PathBuf::from("cat"), None), PathBuf::from("cat.svg"));
    assert_eq!(get_destination(&PathBuf::from("a/b.jpeg"), None), PathBuf::from("a/b.svg"));
    assert_eq!(get_destination(&PathBuf::from("b.svg"), None), PathBuf::from("b.svg"));
}

#[test]
fn derived_destination_is_the_fallback() {
    let derived = PathBuf::from("derived.svg");
    assert_eq!(destination_or(None, derived.clone()), derived);
    let asked = PathBuf::from("asked.svg");
    assert_eq!(destination_or(Some(asked.clone()), derived), asked);
}

#[test]
fn leading_repetitions_are_trimmed() {
    assert_eq!(trim_leading("file:/file:/x", "file:/"), "x");
    assert_eq!(trim_leading("///home", "/"), "home");
    assert_eq!(trim_leading("home/", "/"), "home/");
    assert_eq!(trim_leading("file:", "file:/"), "file:");
    assert_eq!(trim_leading("abc", ""), "abc");
    assert_eq!(trim_leading("", "/"), "");
    assert_eq!(trim_leading("ééa", "é"), "a");
}

#[test]
fn local_part_drops_the_scheme() {
    assert_eq!(local_part("file:///home/user/cat.png", true), "/home/user/cat.png");
    assert_eq!(local_part("file:///C:/pictures/cat.png", false), "C:/pictures/cat.png");
    assert_eq!(local_part("/already/local", true), "/already/local");
    assert_eq!(local_part("", true), "/");
    assert_eq!(local_part("", false), "");
}

#[test]
fn uri_is_percent_decoded() {
    let path = path_from_uri("file:///home/user/my%20cat.png", true);
    assert_eq!(path.text, "/home/user/my cat.png");
    assert!(path.failure.is_none());
    let path = path_from_uri("file:///home/%C3%A9t%C3%A9.png", true);
    assert_eq!(path.text, "/home/été.png");
    assert!(path.failure.is_none());
    let path = path_from_uri("file:///C:/a%2Bb.png", false);
    assert_eq!(path.text, "C:/a+b.png");
}

#[test]
fn uri_that_does_not_decode_is_kept_and_reported() {
    let path = path_from_uri("file:///home/%FF.png", true);
    assert_eq!(path.text, "/home/%FF.png");
    assert!(path.failure.is_some());
}

#[test]
fn dialog_yields_a_path_only_when_accepted() {
    let app = App::new();
    assert!(app.open_dialog(false, Some("file:///a.png"), true).is_none());
    assert!(app.open_dialog(true, None, true).is_none());
    assert!(app.open_dialog(false, None, true).is_none());
    let choice = app.open_dialog(true, Some("file:///a%20b.png"), true).unwrap();
    assert_eq!(choice.text, "/a b.png");
    assert!(choice.failure.is_none());
    let choice = app.open_dialog(true, Some("file:///%C3%28"), true).unwrap();
    assert_eq!(choice.text, "/%C3%28");
    assert!(choice.failure.is_some());
}

#[test]
fn session_starts_with_the_default_settings() {
    let model = Model::default();
    assert_eq!(
        model,
        Model { inversed: false, dot_size: 10, open: false, source: None, destination: None }
    );
    assert_eq!(App::model(), model);
    assert_eq!(App::new().model, model);
}

#[test]
fn settings_follow_the_user() {
    let mut app = App::new();
    assert_eq!(app.update(Msg::Config(Config::Inversed(true))), Effect::Nothing);
    assert_eq!(app.update(Msg::Config(Config::Open(true))), Effect::Nothing);
    assert_eq!(app.update(Msg::Config(Config::ChangeDotSize(12))), Effect::Nothing);
    assert_eq!(
        app.model,
        Model { inversed: true, dot_size: 12, open: true, source: None, destination: None }
    );
    assert_eq!(app.update(Msg::Config(Config::Inversed(false))), Effect::Nothing);
    assert!(!app.model.inversed);
    assert_eq!(app.model.dot_size, 12);
}

#[test]
fn processing_needs_a_source() {
    let mut app = App::new();
    assert_eq!(
        app.update(Msg::Process),
        Effect::Notify(Notice {
            text: "Source file not chosen!".to_string(),
            kind: MessageKind::Error,
            fatal: false,
        })
    );
    assert_eq!(app.model, Model::default());
    app.model.source = Some(PathBuf::from("cat.png"));
    let before = app.model.clone();
    assert_eq!(app.update(Msg::Process), Effect::Convert);
    assert_eq!(app.model, before);
}

#[test]
fn selecting_a_file_asks_for_a_dialog() {
    let mut app = App::new();
    assert_eq!(
        app.update(Msg::Config(Config::SelectFile(SelectFile::Source))),
        Effect::ChooseFile(SelectFile::Source)
    );
    assert_eq!(
        app.update(Msg::Config(Config::SelectFile(SelectFile::Destination))),
        Effect::ChooseFile(SelectFile::Destination)
    );
    assert_eq!(app.update(Msg::Quit), Effect::Quit);
    assert_eq!(app.model, Model::default());
}

#[test]
fn dialogs_filter_by_kind_of_file() {
    let source = dialog_for(SelectFile::Source);
    assert_eq!(source.action, DialogAction::Open);
    assert_eq!(source.filter_name, "Image files");
    assert_eq!(source.mime_types, vec!["image/png", "image/jpeg", "image/jpg", "image/gif"]);
    let destination = dialog_for(SelectFile::Destination);
    assert_eq!(destination.action, DialogAction::Save);
    assert_eq!(destination.filter_name, "SVG file");
    assert_eq!(destination.mime_types, vec!["image/svg"]);
}

#[test]
fn chosen_files_are_stored() {
    let mut app = App::new();
    app.file_chosen(SelectFile::Source, Some(PathBuf::from("/home/cat.png")));
    assert_eq!(app.model.source, Some(PathBuf::from("/home/cat.png")));
    app.file_chosen(SelectFile::Destination, Some(PathBuf::from("/home/out.png")));
    assert_eq!(app.model.destination, Some(PathBuf::from("/home/out.svg")));
    let before = app.model.clone();
    app.file_chosen(SelectFile::Source, None);
    app.file_chosen(SelectFile::Destination, None);
    assert_eq!(app.model, before);
    store_file(&mut app.model, SelectFile::Destination, Some(PathBuf::from("as/given.png")));
    assert_eq!(app.model.destination, Some(PathBuf::from("as/given.png")));
    assert_eq!(app.model.source, Some(PathBuf::from("/home/cat.png")));
}

#[test]
fn a_run_without_failure_is_announced_as_finished() {
    let app = App::new();
    assert_eq!(
        app.conversion_notices(None),
        vec![Notice { text: "Finished".to_string(), kind: MessageKind::Info, fatal: false }]
    );
}

#[test]
fn a_failed_run_is_reported_and_not_announced() {
    let app = App::new();
    assert_eq!(
        app.conversion_notices(Some(&NdotterError::ZeroDotSize)),
        vec![Notice {
            text: "Dot size must not be 0".to_string(),
            kind: MessageKind::Error,
            fatal: false,
        }]
    );
    let unreadable = NdotterError::ImageDecodeError("no such file".to_string());
    assert_eq!(
        app.conversion_notices(Some(&unreadable)),
        vec![Notice {
            text: "Cannot load image".to_string(),
            kind: MessageKind::Error,
            fatal: false,
        }]
    );
    let unwritable = NdotterError::DocumentWriteError("read-only".to_string());
    assert_eq!(
        app.conversion_notices(Some(&unwritable)),
        vec![Notice {
            text: "Cannot write document".to_string(),
            kind: MessageKind::Error,
            fatal: false,
        }]
    );
}

#[test]
fn a_viewer_that_fails_is_worth_a_warning() {
    let app = App::new();
    let no_viewer = NdotterError::PostProcessError("no viewer".to_string());
    assert_eq!(
        app.conversion_notices(Some(&no_viewer)),
        vec![
            Notice {
                text: "Cannot open document".to_string(),
                kind: MessageKind::Warning,
                fatal: false,
            },
            Notice { text: "Finished".to_string(), kind: MessageKind::Info, fatal: false },
        ]
    );
}

#[test]
fn a_path_that_does_not_decode_is_a_fatal_error() {
    let app = App::new();
    let choice = app.open_dialog(true, Some("file:///home/%FF.png"), true).unwrap();
    assert_eq!(choice.text, "/home/%FF.png");
    let failure = choice.failure.unwrap();
    let notice = app.decode_failure(&failure);
    assert_eq!(notice.text, failure.to_string());
    assert!(!notice.text.is_empty());
    assert_eq!(notice.kind, MessageKind::Error);
    assert!(notice.fatal);
    assert_eq!(notice_closed(&notice), Effect::Quit);
}

#[test]
fn only_a_fatal_notice_ends_the_program() {
    let app = App::new();
    let fatal = app.message_dialog("invalid utf-8", MessageKind::Error, true);
    assert_eq!(
        fatal,
        Notice { text: "invalid utf-8".to_string(), kind: MessageKind::Error, fatal: true }
    );
    assert_eq!(notice_closed(&fatal), Effect::Quit);
    let plain = app.message_dialog("Finished", MessageKind::Info, false);
    assert_eq!(notice_closed(&plain), Effect::Nothing);
}

#[test]
fn composite_widgets_start_empty_and_follow_their_events() {
    let mut select = FileSelectModel::model("Select source file");
    assert_eq!(select, FileSelectModel { placeholder: "Select source file", path: None });
    select.update(FileSelectMsg::SetPath(Some(PathBuf::from("a.png"))));
    assert_eq!(select.path, Some(PathBuf::from("a.png")));
    select.update(FileSelectMsg::InvokeDialog);
    assert_eq!(select.path, Some(PathBuf::from("a.png")));
    select.update(FileSelectMsg::SetPath(None));
    assert_eq!(select, FileSelectModel { placeholder: "Select source file", path: None });

    let mut spin = LabelledSpinButtonModel::model("Dot size");
    assert_eq!(spin, LabelledSpinButtonModel { label: "Dot size", value: 1 });
    spin.update(LabelledSpinButtonMsg::ValueSet(50));
    assert_eq!(spin, LabelledSpinButtonModel { label: "Dot size", value: 50 });

    let mut switch = LabelledSwitchModel::model("Inversed");
    assert_eq!(switch, LabelledSwitchModel { label: "Inversed", state: false });
    switch.update(LabelledSwitchMsg::StateSet(true));
    assert_eq!(switch, LabelledSwitchModel { label: "Inversed", state: true });

    assert_eq!(NotHeaderModel::model("ndotter"), NotHeaderModel("ndotter"));
    assert_eq!(
        NotHeadingModel::model(("Convert", FontType::Dot)),
        NotHeadingModel { label: "Convert", font_type: FontType::Dot }
    );
}

#[test]
fn sizes_reach_the_toolkit_as_signed_numbers() {
    assert_eq!(to_toolkit_extent(0), 0);
    assert_eq!(to_toolkit_extent(360), 360);
    assert_eq!(to_toolkit_extent(i32::MAX as u32), i32::MAX);
    assert_eq!(to_toolkit_extent(i32::MAX as u32 + 1), i32::MIN);
    assert_eq!(to_toolkit_extent(u32::MAX), -1);
    let mut window = WindowProperties::new();
    assert_eq!(window.default_size, None);
    window.set_size(Size { width: 360, height: 270 });
    assert_eq!(window.default_size, Some((360, 270)));
}

#[test]
fn widget_properties_collect_what_is_set() {
    let mut widget = WidgetProperties::new();
    widget.set_request_size(Size { width: 100, height: 20 });
    widget.set_classes(&["title", "accent"]);
    widget.set_classes(&["wide"]);
    widget.set_font_family("Nothing Font (5x7)");
    widget.set_font_size(24);
    assert_eq!(widget.size_request, Some((100, 20)));
    assert_eq!(widget.classes, vec!["title".to_string(), "accent".to_string(), "wide".to_string()]);
    let font = widget.font.clone().unwrap();
    assert_eq!(font.family, Some("Nothing Font (5x7)".to_string()));
    assert_eq!(font.size, Some(24 * 1024));
    widget.set_font_size(0);
    assert_eq!(widget.font.clone().unwrap().size, Some(1024));
    assert_eq!(widget.font.clone().unwrap().family, Some("Nothing Font (5x7)".to_string()));
    widget.set_font_size(2_097_151);
    assert_eq!(widget.font.clone().unwrap().size, Some(2_147_482_624));
    widget.set_font_family("Sans");
    assert_eq!(widget.font.clone().unwrap().size, Some(2_147_482_624));
}

#[test]
fn images_and_dialogs_collect_what_is_set() {
    let mut image = ImageProperties::new();
    assert_eq!(image.icon, None);
    image.set_icon(("document-open", IconSize::Button));
    assert_eq!(image.icon, Some(("document-open".to_string(), IconSize::Button)));
    image.set_icon(("window-close", IconSize::Menu));
    assert_eq!(image.icon, Some(("window-close".to_string(), IconSize::Menu)));

    let mut dialog = DialogProperties::new();
    assert!(dialog.buttons.is_empty());
    dialog.set_buttons(&[("Cancel", ResponseType::Cancel), ("Accept", ResponseType::Accept)]);
    dialog.set_buttons(&[("Help", ResponseType::Help)]);
    assert_eq!(
        dialog.buttons,
        vec![
            ("Cancel".to_string(), ResponseType::Cancel),
            ("Accept".to_string(), ResponseType::Accept),
            ("Help".to_string(), ResponseType::Help),
        ]
    );
}
