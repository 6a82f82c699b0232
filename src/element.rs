use vstd::prelude::*;

verus! {

/// A semantic color token of the theme. The host maps each token to a
/// concrete color of its current theme.
#[derive(Clone, Copy, Debug, PartialEq, Eq, Structural)]
pub enum ThemeColor {
    /// Background of a control that sits on the highest layer's default surface.
    HighestOnDefaultBackground,
    /// Background of a control on the highest layer while the pointer hovers it.
    HighestBaseHoveredBackground,
    /// Background of a control on the highest layer while it is pressed.
    HighestBasePressedBackground,
    /// Background of a floating surface raised above the content.
    ElevatedSurface,
}

/// A length in the layout.
#[derive(Clone, Copy, Debug, PartialEq, Eq, Structural)]
pub enum Length {
    /// An absolute length, in sixteenths of a rem (one spacing step is four).
    Sixteenths(u32),
    /// A length relative to the positioning context, in percent.
    Percent(u32),
}

/// How a container is placed.
#[derive(Clone, Copy, Debug, PartialEq, Eq, Structural)]
pub enum Position {
    /// In the flow of its parent.
    Relative,
    /// Out of the flow, relative to its positioning context.
    Absolute,
}

/// The identifier of an icon glyph.
#[derive(Clone, Copy, Debug, PartialEq, Eq, Structural)]
pub enum IconAsset {
    ArrowLeft,
    ArrowRight,
    ChevronDown,
    ChevronRight,
    Close,
    File,
    Folder,
    Hash,
    MagnifyingGlass,
    Menu,
    Plus,
    Star,
    Terminal,
}

/// The semantic color category of an icon.
#[derive(Clone, Copy, Debug, PartialEq, Eq, Structural)]
pub enum IconColor {
    Default,
    Muted,
    Disabled,
    Placeholder,
    Accent,
    Error,
    Warning,
    Success,
    Info,
}

impl Default for IconColor {
    fn default() -> (r: IconColor)
        ensures
            r == IconColor::Default,
    {
        IconColor::Default
    }
}

/// An icon glyph drawn in a color category.
#[derive(Clone, Copy, Debug, PartialEq, Eq, Structural)]
pub struct Icon {
    pub asset: IconAsset,
    pub color: IconColor,
}

/// The style of a container: layout, placement and fills.
#[derive(Clone, Copy, Debug, PartialEq, Eq, Structural)]
pub struct Style {
    pub position: Position,
    pub z_index: u32,
    pub flex: bool,
    pub items_center: bool,
    pub justify_center: bool,
    pub width: Option<Length>,
    pub height: Option<Length>,
    pub min_width: Option<Length>,
    pub max_width: Option<Length>,
    pub right: Option<Length>,
    pub bottom: Option<Length>,
    pub padding_x: Option<Length>,
    pub padding_y: Option<Length>,
    pub rounded_md: bool,
    /// The background, if any.
    pub fill: Option<ThemeColor>,
    /// The background while the pointer hovers the container.
    pub hover_fill: Option<ThemeColor>,
    /// The background while the container is pressed.
    pub active_fill: Option<ThemeColor>,
}

/// A piece of a rendered tree.
#[derive(Debug, PartialEq, Eq)]
pub enum Element {
    /// A line of text.
    Label(String),
    /// An icon glyph.
    Icon(Icon),
    /// A styled container with content.
    Div(Div),
}

/// A styled container and its content, in order.
#[derive(Debug, PartialEq, Eq)]
pub struct Div {
    pub style: Style,
    pub children: Vec<Element>,
}

} // verus!
