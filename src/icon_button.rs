use vstd::prelude::*;

use crate::element::{Div, Element, Icon, IconAsset, IconColor, Length, Position, Style, ThemeColor};

verus! {

/// The visual treatment of a button.
#[derive(Clone, Copy, Debug, PartialEq, Eq, Structural)]
pub enum ButtonVariant {
    /// No background of its own.
    Plain,
    /// A solid background.
    Filled,
}

impl Default for ButtonVariant {
    fn default() -> (r: ButtonVariant)
        ensures
            r == ButtonVariant::Plain,
    {
        ButtonVariant::Plain
    }
}

/// The interaction status of a control.
#[derive(Clone, Copy, Debug, PartialEq, Eq, Structural)]
pub enum InteractionState {
    Default,
    Hovered,
    Pressed,
    Focused,
    Disabled,
}

impl Default for InteractionState {
    fn default() -> (r: InteractionState)
        ensures
            r == InteractionState::Default,
    {
        InteractionState::Default
    }
}

/// The configuration of an icon button, as seen by contracts.
#[derive(Clone, Copy, Debug, PartialEq, Eq, Structural)]
pub struct IconButtonView {
    pub icon: IconAsset,
    pub color: IconColor,
    pub variant: ButtonVariant,
    pub state: InteractionState,
}

/// A clickable icon in a small fixed-size container.
#[derive(Clone, Copy, Debug, PartialEq, Eq)]
pub struct IconButton {
    icon: IconAsset,
    color: IconColor,
    variant: ButtonVariant,
    state: InteractionState,
}

impl View for IconButton {
    type V = IconButtonView;

    closed spec fn view(&self) -> IconButtonView {
        IconButtonView {
            icon: self.icon,
            color: self.color,
            variant: self.variant,
            state: self.state,
        }
    }
}

/// The color the icon is drawn in: a disabled button always shows the
/// disabled category, whatever color was configured.
pub open spec fn resolved_icon_color(state: InteractionState, color: IconColor) -> IconColor {
    if state == InteractionState::Disabled {
        IconColor::Disabled
    } else {
        color
    }
}

/// The background a button of the given variant has when left alone.
pub open spec fn variant_fill(variant: ButtonVariant) -> Option<ThemeColor> {
    if variant == ButtonVariant::Filled {
        Some(ThemeColor::HighestOnDefaultBackground)
    } else {
        None
    }
}

/// The container style of an icon button: a compact centered box with
/// rounded corners, hover and pressed backgrounds, and the variant's fill.
pub open spec fn icon_button_style(variant: ButtonVariant) -> Style {
    Style {
        position: Position::Relative,
        z_index: 0,
        flex: true,
        items_center: true,
        justify_center: true,
        width: Some(Length::Sixteenths(28)),
        height: Some(Length::Sixteenths(24)),
        min_width: None,
        max_width: None,
        right: None,
        bottom: None,
        padding_x: None,
        padding_y: None,
        rounded_md: true,
        fill: variant_fill(variant),
        hover_fill: Some(ThemeColor::HighestBaseHoveredBackground),
        active_fill: Some(ThemeColor::HighestBasePressedBackground),
    }
}

/// The one child of a rendered icon button.
pub open spec fn icon_button_content(b: IconButtonView) -> Element {
    Element::Icon(Icon { asset: b.icon, color: resolved_icon_color(b.state, b.color) })
}

impl IconButton {
    /// A button showing `icon`, with the default color, the plain variant and
    /// the default interaction state.
    pub fn new(icon: IconAsset) -> (r: IconButton)
        ensures
            r@ == (IconButtonView {
                icon,
                color: IconColor::Default,
                variant: ButtonVariant::Plain,
                state: InteractionState::Default,
            }),
    {
        IconButton {
            icon,
            color: IconColor::Default,
            variant: ButtonVariant::Plain,
            state: InteractionState::Default,
        }
    }

    pub fn icon(self, icon: IconAsset) -> (r: IconButton)
        ensures
            r@ == (IconButtonView { icon, ..self@ }),
    {
        IconButton { icon, ..self }
    }

    pub fn color(self, color: IconColor) -> (r: IconButton)
        ensures
            r@ == (IconButtonView { color, ..self@ }),
    {
        IconButton { color, ..self }
    }

    pub fn variant(self, variant: ButtonVariant) -> (r: IconButton)
        ensures
            r@ == (IconButtonView { variant, ..self@ }),
    {
        IconButton { variant, ..self }
    }

    pub fn state(self, state: InteractionState) -> (r: IconButton)
        ensures
            r@ == (IconButtonView { state, ..self@ }),
    {
        IconButton { state, ..self }
    }

    /// The fragment for the current configuration: the button's container
    /// holding the icon in its resolved color.
    pub fn render(&self) -> (r: Div)
        ensures
            r.style == icon_button_style(self@.variant),
            r.children@ == seq![icon_button_content(self@)],
    {
        let icon_color = match (self.state, self.color) {
            (InteractionState::Disabled, _) => IconColor::Disabled,
            _ => self.color,
        };

        let mut style = Style {
            position: Position::Relative,
            z_index: 0,
            flex: true,
            items_center: true,
            justify_center: true,
            width: Some(Length::Sixteenths(28)),
            height: Some(Length::Sixteenths(24)),
            min_width: None,
            max_width: None,
            right: None,
            bottom: None,
            padding_x: None,
            padding_y: None,
            rounded_md: true,
            fill: None,
            hover_fill: Some(ThemeColor::HighestBaseHoveredBackground),
            active_fill: Some(ThemeColor::HighestBasePressedBackground),
        };
        if self.variant == ButtonVariant::Filled {
            style.fill = Some(ThemeColor::HighestOnDefaultBackground);
        }

        let children = vec![Element::Icon(Icon { asset: self.icon, color: icon_color })];
        Div { style, children }
    }
}

/// A disabled button draws its icon in the disabled category whatever color
/// was configured; any other state draws the configured color.
pub proof fn lemma_disabled_color_wins(state: InteractionState, color: IconColor)
    ensures
        state == InteractionState::Disabled ==> resolved_icon_color(state, color)
            == IconColor::Disabled,
        state != InteractionState::Disabled ==> resolved_icon_color(state, color) == color,
{
}

/// A rendered button has a background of its own exactly when its variant is
/// filled.
pub proof fn lemma_fill_iff_filled(variant: ButtonVariant)
    ensures
        icon_button_style(variant).fill is Some <==> variant == ButtonVariant::Filled,
{
}

} // verus!
