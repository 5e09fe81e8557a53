//! Presentation properties of the graphical front end, held as plain values
//! that a toolkit adapter applies to its widgets.

use vstd::prelude::*;

verus! {

/// A width and a height in pixels.
#[derive(Clone, Copy, Debug, PartialEq, Eq, Structural)]
pub struct Size {
    pub width: u32,
    pub height: u32,
}

/// Font sizes are handed to the toolkit in 1024ths of a point.
pub const FONT_SCALE: i32 = 1024;

/// The largest font size in points whose scaled value fits the toolkit's
/// signed 32-bit size.
pub const MAX_FONT_SIZE: u32 = 2_097_151;

/// An unsigned extent as the toolkit's signed 32-bit number: the same bit
/// pattern read as two's complement.
pub open spec fn toolkit_extent(extent: u32) -> int {
    if extent <= i32::MAX {
        extent as int
    } else {
        extent - 0x1_0000_0000
    }
}

/// A size as the toolkit's pair of signed extents.
pub open spec fn toolkit_size(size: Size) -> (i32, i32) {
    (toolkit_extent(size.width) as i32, toolkit_extent(size.height) as i32)
}

/// A font size in points as the toolkit's scaled size; zero counts as one
/// point.
pub open spec fn scaled_font_size(size: u32) -> int {
    (if size < 1 {
        1
    } else {
        size as int
    }) * FONT_SCALE
}

/// Reads `extent` as the toolkit's signed number.
pub fn to_toolkit_extent(extent: u32) -> (signed: i32)
    ensures
        signed == toolkit_extent(extent),
{
    if extent <= 0x7fff_ffff {
        extent as i32
    } else {
        ((extent - 0x8000_0000) as i32) + i32::MIN
    }
}

/// The font of a widget, as far as the front end sets it.
#[derive(Clone, Debug, PartialEq, Eq)]
pub struct FontDescription {
    pub family: Option<String>,
    /// In 1024ths of a point.
    pub size: Option<i32>,
}

/// What the front end sets on a widget.
#[derive(Clone, Debug, PartialEq, Eq)]
pub struct WidgetProperties {
    pub size_request: Option<(i32, i32)>,
    /// Style classes, in the order in which they were added.
    pub classes: Vec<String>,
    pub font: Option<FontDescription>,
}

/// What the front end sets on a window.
#[derive(Clone, Copy, Debug, PartialEq, Eq)]
pub struct WindowProperties {
    pub default_size: Option<(i32, i32)>,
}

/// The sizes at which the toolkit draws an icon.
#[derive(Clone, Copy, Debug, PartialEq, Eq, Structural)]
pub enum IconSize {
    Invalid,
    Menu,
    SmallToolbar,
    LargeToolbar,
    Button,
    Dnd,
    Dialog,
}

/// What a button of a dialog reports when it is pressed.
#[derive(Clone, Copy, Debug, PartialEq, Eq, Structural)]
pub enum ResponseType {
    Reject,
    Accept,
    DeleteEvent,
    Cancel,
    Close,
    Yes,
    No,
    Apply,
    Help,
}

/// What the front end sets on an image.
#[derive(Clone, Debug, PartialEq, Eq)]
pub struct ImageProperties {
    /// The name of the icon that is shown, and its size.
    pub icon: Option<(String, IconSize)>,
}

/// What the front end sets on a dialog.
#[derive(Clone, Debug, PartialEq, Eq)]
pub struct DialogProperties {
    /// The buttons from first to last, each with its label and its response.
    pub buttons: Vec<(String, ResponseType)>,
}

/// Buttons as values: the view of each label with its response, in order.
pub open spec fn buttons_of(buttons: Seq<(&str, ResponseType)>) -> Seq<(Seq<char>, ResponseType)> {
    buttons.map_values(|button: (&str, ResponseType)| (button.0@, button.1))
}

/// Buttons as values: the view of each label with its response, in order.
pub open spec fn buttons_of_owned(buttons: Seq<(String, ResponseType)>) -> Seq<
    (Seq<char>, ResponseType),
> {
    buttons.map_values(|button: (String, ResponseType)| (button.0@, button.1))
}

/// The views of `names`, in order.
pub open spec fn views_of(names: Seq<&str>) -> Seq<Seq<char>> {
    names.map_values(|name: &str| name@)
}

/// The views of `names`, in order.
pub open spec fn views_of_owned(names: Seq<String>) -> Seq<Seq<char>> {
    names.map_values(|name: String| name@)
}

/// Setters that every widget offers.
pub trait NdotterWidgetExt {
    /// The size request, if one was set.
    spec fn size_request(&self) -> Option<(i32, i32)>;

    /// The style classes, in the order in which they were added.
    spec fn style_classes(&self) -> Seq<Seq<char>>;

    /// The font family, if one was set.
    spec fn font_family(&self) -> Option<Seq<char>>;

    /// The font size in 1024ths of a point, if one was set.
    spec fn font_size(&self) -> Option<i32>;

    /// Requests `size` for the widget.
    fn set_request_size(&mut self, size: Size)
        ensures
            final(self).size_request() == Some(toolkit_size(size)),
            final(self).style_classes() == old(self).style_classes(),
            final(self).font_family() == old(self).font_family(),
            final(self).font_size() == old(self).font_size(),
    ;

    /// Adds `classes`, in order, behind the classes the widget has.
    fn set_classes(&mut self, classes: &[&str])
        ensures
            final(self).style_classes() == old(self).style_classes() + views_of(classes@),
            final(self).size_request() == old(self).size_request(),
            final(self).font_family() == old(self).font_family(),
            final(self).font_size() == old(self).font_size(),
    ;

    /// Sets the font family and keeps the font size.
    fn set_font_family(&mut self, family: &str)
        ensures
            final(self).font_family() == Some(family@),
            final(self).font_size() == old(self).font_size(),
            final(self).size_request() == old(self).size_request(),
            final(self).style_classes() == old(self).style_classes(),
    ;

    /// Sets the font size to `size` points, or to one point where `size` is
    /// zero, and keeps the font family.
    fn set_font_size(&mut self, size: u32)
        requires
            size <= MAX_FONT_SIZE,
        ensures
            final(self).font_size() == Some(scaled_font_size(size) as i32),
            final(self).font_family() == old(self).font_family(),
            final(self).size_request() == old(self).size_request(),
            final(self).style_classes() == old(self).style_classes(),
    ;
}

/// Setters that every window offers.
pub trait KonnWindowExt {
    /// The default size, if one was set.
    spec fn default_size(&self) -> Option<(i32, i32)>;

    /// Makes `size` the default size of the window.
    fn set_size(&mut self, size: Size)
        ensures
            final(self).default_size() == Some(toolkit_size(size)),
    ;
}

/// Setters that every image offers.
pub trait KonnImageExt {
    /// The icon that is shown and its size, if one was set.
    spec fn icon(&self) -> Option<(Seq<char>, IconSize)>;

    /// Shows the icon of the given name at the given size.
    fn set_icon(&mut self, name_size: (&str, IconSize))
        ensures
            final(self).icon() == Some((name_size.0@, name_size.1)),
    ;
}

/// Setters that every dialog offers.
pub trait NdotterDialogExt {
    /// The buttons from first to last, each with its label and its response.
    spec fn buttons(&self) -> Seq<(Seq<char>, ResponseType)>;

    /// Adds `buttons`, in order, behind the buttons the dialog has.
    fn set_buttons(&mut self, buttons: &[(&str, ResponseType)])
        ensures
            final(self).buttons() == old(self).buttons() + buttons_of(buttons@),
    ;
}

impl WidgetProperties {
    /// A widget on which nothing has been set.
    pub fn new() -> (properties: Self)
        ensures
            properties.size_request() is None,
            properties.style_classes() == Seq::<Seq<char>>::empty(),
            properties.font_family() is None,
            properties.font_size() is None,
    {
        WidgetProperties { size_request: None, classes: Vec::new(), font: None }
    }
}

impl NdotterWidgetExt for WidgetProperties {
    open spec fn size_request(&self) -> Option<(i32, i32)> {
        self.size_request
    }

    open spec fn style_classes(&self) -> Seq<Seq<char>> {
        views_of_owned(self.classes@)
    }

    open spec fn font_family(&self) -> Option<Seq<char>> {
        match self.font {
            Some(font) => match font.family {
                Some(family) => Some(family@),
                None => None,
            },
            None => None,
        }
    }

    open spec fn font_size(&self) -> Option<i32> {
        match self.font {
            Some(font) => font.size,
            None => None,
        }
    }

    fn set_request_size(&mut self, size: Size) {
        self.size_request = Some((to_toolkit_extent(size.width), to_toolkit_extent(size.height)));
    }

    fn set_classes(&mut self, classes: &[&str]) {
        let mut index: usize = 0;
        while index < classes.len()
            invariant
                index <= classes@.len(),
                self.size_request == old(self).size_request,
                self.font == old(self).font,
                views_of_owned(self.classes@) == views_of_owned(old(self).classes@) + views_of(
                    classes@,
                ).take(index as int),
            decreases classes@.len() - index,
        {
            let ghost before = self.classes@;
            let class: String = classes[index].to_owned();
            self.classes.push(class);
            assert(views_of_owned(self.classes@) =~= views_of_owned(before).push(
                classes@[index as int]@,
            ));
            index += 1;
        }
    }

    fn set_font_family(&mut self, family: &str) {
        let size = match &self.font {
            Some(font) => font.size,
            None => None,
        };
        self.font = Some(FontDescription { family: Some(family.to_owned()), size });
    }

    fn set_font_size(&mut self, size: u32) {
        let points: i32 = if size < 1 {
            1
        } else {
            size as i32
        };
        let family = match self.font.take() {
            Some(font) => font.family,
            None => None,
        };
        self.font = Some(FontDescription { family, size: Some(points * FONT_SCALE) });
    }
}

impl ImageProperties {
    /// An image on which nothing has been set.
    pub fn new() -> (properties: Self)
        ensures
            properties.icon() is None,
    {
        ImageProperties { icon: None }
    }
}

impl KonnImageExt for ImageProperties {
    open spec fn icon(&self) -> Option<(Seq<char>, IconSize)> {
        match self.icon {
            Some(icon) => Some((icon.0@, icon.1)),
            None => None,
        }
    }

    fn set_icon(&mut self, name_size: (&str, IconSize)) {
        self.icon = Some((name_size.0.to_owned(), name_size.1));
    }
}

impl DialogProperties {
    /// A dialog without buttons.
    pub fn new() -> (properties: Self)
        ensures
            properties.buttons() == Seq::<(Seq<char>, ResponseType)>::empty(),
    {
        DialogProperties { buttons: Vec::new() }
    }
}

impl NdotterDialogExt for DialogProperties {
    open spec fn buttons(&self) -> Seq<(Seq<char>, ResponseType)> {
        buttons_of_owned(self.buttons@)
    }

    fn set_buttons(&mut self, buttons: &[(&str, ResponseType)]) {
        let mut index: usize = 0;
        while index < buttons.len()
            invariant
                index <= buttons@.len(),
                buttons_of_owned(self.buttons@) == buttons_of_owned(old(self).buttons@)
                    + buttons_of(buttons@).take(index as int),
            decreases buttons@.len() - index,
        {
            let ghost before = self.buttons@;
            let button = buttons[index];
            self.buttons.push((button.0.to_owned(), button.1));
            assert(buttons_of_owned(self.buttons@) =~= buttons_of_owned(before).push(
                (buttons@[index as int].0@, buttons@[index as int].1),
            ));
            index += 1;
        }
    }
}

impl WindowProperties {
    /// A window on which nothing has been set.
    pub fn new() -> (properties: Self)
        ensures
            properties.default_size() is None,
    {
        WindowProperties { default_size: None }
    }
}

impl KonnWindowExt for WindowProperties {
    open spec fn default_size(&self) -> Option<(i32, i32)> {
        self.default_size
    }

    fn set_size(&mut self, size: Size) {
        self.default_size = Some((to_toolkit_extent(size.width), to_toolkit_extent(size.height)));
    }
}

} // verus!
