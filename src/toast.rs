use vstd::prelude::*;

use crate::children::{child_list, ChildList};
use crate::element::{Div, Element, Length, Position, Style, ThemeColor};

verus! {

/// The edge of the viewport a toast is anchored to.
#[derive(Clone, Copy, Debug, PartialEq, Eq, Structural)]
pub enum ToastOrigin {
    Bottom,
    BottomRight,
}

impl Default for ToastOrigin {
    fn default() -> (r: ToastOrigin)
        ensures
            r == ToastOrigin::Bottom,
    {
        ToastOrigin::Bottom
    }
}

/// The distance between a toast and the right edge of its positioning
/// context: half the context's width from the bottom origin, one rem from
/// the bottom-right one.
pub open spec fn horizontal_offset(origin: ToastOrigin) -> Length {
    match origin {
        ToastOrigin::Bottom => Length::Percent(50),
        ToastOrigin::BottomRight => Length::Sixteenths(16),
    }
}

/// The container style of a toast: an absolutely placed panel above the
/// content near the bottom, padded, with a width band, rounded corners and
/// the elevated surface as background.
pub open spec fn toast_style(origin: ToastOrigin) -> Style {
    Style {
        position: Position::Absolute,
        z_index: 5,
        flex: true,
        items_center: false,
        justify_center: false,
        width: None,
        height: None,
        min_width: Some(Length::Sixteenths(256)),
        max_width: Some(Length::Sixteenths(384)),
        right: Some(horizontal_offset(origin)),
        bottom: Some(Length::Sixteenths(16)),
        padding_x: Some(Length::Sixteenths(6)),
        padding_y: Some(Length::Sixteenths(8)),
        rounded_md: true,
        fill: Some(ThemeColor::ElevatedSurface),
        hover_fill: None,
        active_fill: None,
    }
}

/// What one render of a toast anchored at `origin` and holding `children`
/// yields: the fragment's style, the fragment's content, and the children the
/// toast holds afterwards.
pub open spec fn rendered(origin: ToastOrigin, children: Seq<Element>) -> (
    Style,
    Seq<Element>,
    Seq<Element>,
) {
    (toast_style(origin), children, Seq::empty())
}

/// A small, temporary panel that shows a message or asks for an action.
///
/// Children are appended before rendering; a render hands them over to the
/// fragment it produces, so each child is shown by exactly one render.
pub struct Toast {
    origin: ToastOrigin,
    children: ChildList,
}

impl Toast {
    /// The edge the toast is anchored to.
    pub closed spec fn spec_origin(&self) -> ToastOrigin {
        self.origin
    }

    /// The children the toast holds, in the order they were appended.
    pub closed spec fn spec_children(&self) -> Seq<Element> {
        child_list(self.children)
    }

    /// An empty toast anchored at `origin`.
    pub fn new(origin: ToastOrigin) -> (r: Toast)
        ensures
            r.spec_origin() == origin,
            r.spec_children() == Seq::<Element>::empty(),
    {
        Toast { origin, children: ChildList::new() }
    }

    pub fn origin(&self) -> (r: ToastOrigin)
        ensures
            r == self.spec_origin(),
    {
        self.origin
    }

    /// Appends `child` after the children already held.
    pub fn push_child(&mut self, child: Element)
        requires
            old(self).spec_children().len() < usize::MAX,
        ensures
            final(self).spec_origin() == old(self).spec_origin(),
            final(self).spec_children() == old(self).spec_children().push(child),
    {
        self.children.push(child);
    }

    /// The toast with `child` appended.
    pub fn child(self, child: Element) -> (r: Toast)
        requires
            self.spec_children().len() < usize::MAX,
        ensures
            r.spec_origin() == self.spec_origin(),
            r.spec_children() == self.spec_children().push(child),
    {
        let mut t = self;
        t.push_child(child);
        t
    }

    /// The toast with all of `children` appended, in their order.
    pub fn children(self, children: Vec<Element>) -> (r: Toast)
        requires
            self.spec_children().len() + children@.len() <= usize::MAX,
        ensures
            r.spec_origin() == self.spec_origin(),
            r.spec_children() == self.spec_children() + children@,
    {
        let mut t = self;
        let mut rest = children;
        let ghost all = children@;
        let ghost before = self.spec_children();
        while rest.len() > 0
            invariant
                t.spec_origin() == self.spec_origin(),
                before.len() + all.len() <= usize::MAX,
                0 <= rest@.len() <= all.len(),
                rest@ == all.subrange(all.len() - rest@.len(), all.len() as int),
                t.spec_children() == before + all.subrange(0, all.len() - rest@.len()),
            decreases rest@.len(),
        {
            let ghost k = all.len() - rest@.len();
            let e = rest.remove(0);
            assert(e == all[k]);
            t.push_child(e);
            assert(all.subrange(0, k + 1) =~= all.subrange(0, k).push(e));
            assert(rest@ =~= all.subrange(k + 1, all.len() as int));
        }
        assert(all.subrange(0, all.len() as int) =~= all);
        t
    }

    /// The fragment for the toast: its panel holding every child, in order.
    /// The children move into the fragment and the toast is left empty.
    pub fn render(&mut self) -> (r: Div)
        ensures
            final(self).spec_origin() == old(self).spec_origin(),
            (r.style, r.children@, final(self).spec_children()) == rendered(
                old(self).spec_origin(),
                old(self).spec_children(),
            ),
    {
        let right = if self.origin == ToastOrigin::Bottom {
            Length::Percent(50)
        } else {
            Length::Sixteenths(16)
        };
        let style = Style {
            position: Position::Absolute,
            z_index: 5,
            flex: true,
            items_center: false,
            justify_center: false,
            width: None,
            height: None,
            min_width: Some(Length::Sixteenths(256)),
            max_width: Some(Length::Sixteenths(384)),
            right: Some(right),
            bottom: Some(Length::Sixteenths(16)),
            padding_x: Some(Length::Sixteenths(6)),
            padding_y: Some(Length::Sixteenths(8)),
            rounded_md: true,
            fill: Some(ThemeColor::ElevatedSurface),
            hover_fill: None,
            active_fill: None,
        };
        let children = self.children.drain();
        Div { style, children }
    }
}

/// The two origins place a toast differently, and the placement depends on
/// the origin alone.
pub proof fn lemma_origins_differ(o1: ToastOrigin, o2: ToastOrigin)
    ensures
        toast_style(ToastOrigin::Bottom).right != toast_style(ToastOrigin::BottomRight).right,
        o1 == o2 ==> toast_style(o1) == toast_style(o2),
        o1 != o2 ==> toast_style(o1) != toast_style(o2),
{
}

/// Rendering an empty toast leaves it empty, so rendering it again yields
/// the same fragment.
pub proof fn lemma_render_empty_twice(origin: ToastOrigin)
    ensures
        ({
            let first = rendered(origin, Seq::empty());
            let second = rendered(origin, first.2);
            &&& first.1 == Seq::<Element>::empty()
            &&& second == first
        }),
{
}

/// A render leaves the toast empty: the next render shows exactly the
/// children appended in between, and nothing when none were.
pub proof fn lemma_render_drains(origin: ToastOrigin, children: Seq<Element>, more: Seq<Element>)
    ensures
        rendered(origin, children).2 == Seq::<Element>::empty(),
        rendered(origin, rendered(origin, children).2 + more).1 == more,
        rendered(origin, rendered(origin, children).2).1 == Seq::<Element>::empty(),
{
    assert(Seq::<Element>::empty() + more =~= more);
}

/// A render shows the children in the order they were appended: appending
/// one more puts it last.
pub proof fn lemma_render_keeps_order(origin: ToastOrigin, children: Seq<Element>, e: Element)
    ensures
        rendered(origin, children).1 == children,
        rendered(origin, children.push(e)).1 == rendered(origin, children).1.push(e),
{
}

/// Whether `e` is a line of text reading `text`.
pub open spec fn is_label(e: Element, text: Seq<char>) -> bool {
    e matches Element::Label(s) && s@ == text
}

/// A demonstration of the toast: a title, a caption, and a toast anchored at
/// the bottom that holds one label.
pub struct ToastStory {}

impl ToastStory {
    pub fn new() -> ToastStory {
        ToastStory {  }
    }

    /// The story's fragment: a container holding the title, the caption and
    /// the rendered toast.
    pub fn render(&self) -> (r: Div)
        ensures
            r.children@.len() == 3,
            is_label(r.children@[0], "Toast"@),
            is_label(r.children@[1], "Default"@),
            r.children@[2] matches Element::Div(d) && (d.style == toast_style(ToastOrigin::Bottom)
                && d.children@.len() == 1 && is_label(d.children@[0], "label"@)),
    {
        let mut toast = Toast::new(ToastOrigin::Bottom).child(Element::Label("label".to_owned()));
        let panel = toast.render();
        let style = Style {
            position: Position::Relative,
            z_index: 0,
            flex: false,
            items_center: false,
            justify_center: false,
            width: None,
            height: None,
            min_width: None,
            max_width: None,
            right: None,
            bottom: None,
            padding_x: None,
            padding_y: None,
            rounded_md: false,
            fill: None,
            hover_fill: None,
            active_fill: None,
        };
        let children = vec![
            Element::Label("Toast".to_owned()),
            Element::Label("Default".to_owned()),
            Element::Div(panel),
        ];
        Div { style, children }
    }
}

} // verus!
