use ui::element::{Element, Icon, IconAsset, IconColor, Length, Position, ThemeColor};
use ui::icon_button::{ButtonVariant, IconButton, InteractionState};

fn only_icon(b: &IconButton) -> Icon {
    let d = b.render();
    assert_eq!(d.children.len(), 1);
    match &d.children[0] {
        Element::Icon(i) => *i,
        other => panic!("expected an icon, found {:?}", other),
    }
}

#[test]
fn new_uses_defaults() {
    let b = IconButton::new(IconAsset::Star);
    let d = b.render();
    assert_eq!(d.style.fill, None);
    assert_eq!(
        only_icon(&b),
        Icon { asset: IconAsset::Star, color: IconColor::Default }
    );
    assert_eq!(ButtonVariant::default(), ButtonVariant::Plain);
    assert_eq!(InteractionState::default(), InteractionState::Default);
    assert_eq!(IconColor::default(), IconColor::Default);
}

#[test]
fn render_has_fixed_box_and_pointer_fills() {
    let d = IconButton::new(IconAsset::Close).render();
    assert_eq!(d.style.position, Position::Relative);
    assert_eq!(d.style.width, Some(Length::Sixteenths(28)));
    assert_eq!(d.style.height, Some(Length::Sixteenths(24)));
    assert!(d.style.flex && d.style.items_center && d.style.justify_center);
    assert!(d.style.rounded_md);
    assert_eq!(d.style.hover_fill, Some(ThemeColor::HighestBaseHoveredBackground));
    assert_eq!(d.style.active_fill, Some(ThemeColor::HighestBasePressedBackground));
}

#[test]
fn disabled_state_overrides_every_color() {
    let colors = [
        IconColor::Default,
        IconColor::Muted,
        IconColor::Disabled,
        IconColor::Placeholder,
        IconColor::Accent,
        IconColor::Error,
        IconColor::Warning,
        IconColor::Success,
        IconColor::Info,
    ];
    for c in colors {
        let b = IconButton::new(IconAsset::Plus).color(c).state(InteractionState::Disabled);
        assert_eq!(only_icon(&b).color, IconColor::Disabled);
    }
}

#[test]
fn other_states_keep_configured_color() {
    let states = [
        InteractionState::Default,
        InteractionState::Hovered,
        InteractionState::Pressed,
        InteractionState::Focused,
    ];
    for s in states {
        let b = IconButton::new(IconAsset::Plus).color(IconColor::Accent).state(s);
        assert_eq!(only_icon(&b).color, IconColor::Accent);
    }
}

#[test]
fn fill_only_for_filled_variant() {
    let filled = IconButton::new(IconAsset::Menu).variant(ButtonVariant::Filled).render();
    assert_eq!(filled.style.fill, Some(ThemeColor::HighestOnDefaultBackground));
    let plain = IconButton::new(IconAsset::Menu).variant(ButtonVariant::Plain).render();
    assert_eq!(plain.style.fill, None);
}

#[test]
fn setters_last_write_wins() {
    let b = IconButton::new(IconAsset::File)
        .icon(IconAsset::Folder)
        .icon(IconAsset::Hash)
        .color(IconColor::Error)
        .color(IconColor::Success)
        .variant(ButtonVariant::Filled)
        .variant(ButtonVariant::Plain)
        .state(InteractionState::Disabled)
        .state(InteractionState::Hovered);
    assert_eq!(b.render().style.fill, None);
    assert_eq!(only_icon(&b), Icon { asset: IconAsset::Hash, color: IconColor::Success });
}

#[test]
fn filled_disabled_star_end_to_end() {
    let b = IconButton::new(IconAsset::Star)
        .color(IconColor::Accent)
        .variant(ButtonVariant::Filled)
        .state(InteractionState::Disabled);
    let d = b.render();
    assert_eq!(d.style.fill, Some(ThemeColor::HighestOnDefaultBackground));
    assert_eq!(
        d.children,
        vec![Element::Icon(Icon { asset: IconAsset::Star, color: IconColor::Disabled })]
    );
}
