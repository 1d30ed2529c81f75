//! What a panel shows: a tree of plain widgets, which a GUI toolkit can draw
//! as it stands.

use vstd::prelude::*;

verus! {

/// One widget of a panel.
#[derive(Debug, PartialEq)]
pub enum Widget {
    /// A heading line.
    Heading { text: String },
    /// A line of plain text.
    Label { text: String },
    /// A line that shows a 32-bit real value, given by its IEEE 754 bits, in
    /// the default number format.
    FloatLabel { bits: u32 },
    /// A section that opens and closes: a title, and a body shown when open.
    CollapsingHeader { title: String, body: Vec<Widget> },
    /// A region that scrolls vertically.
    ScrollArea { body: Vec<Widget> },
}

/// What a [`Widget`] stands for.
#[verifier::ext_equal]
pub enum WidgetView {
    Heading { text: Seq<char> },
    Label { text: Seq<char> },
    FloatLabel { bits: u32 },
    CollapsingHeader { title: Seq<char>, body: Seq<WidgetView> },
    ScrollArea { body: Seq<WidgetView> },
}

/// The view of a widget, variant by variant.
pub open spec fn widget_view(w: Widget) -> WidgetView
    decreases w,
{
    match w {
        Widget::Heading { text } => WidgetView::Heading { text: text@ },
        Widget::Label { text } => WidgetView::Label { text: text@ },
        Widget::FloatLabel { bits } => WidgetView::FloatLabel { bits },
        Widget::CollapsingHeader { title, body } => WidgetView::CollapsingHeader {
            title: title@,
            body: widgets_view(body),
        },
        Widget::ScrollArea { body } => WidgetView::ScrollArea { body: widgets_view(body) },
    }
}

/// The views of a list of widgets, in order.
pub open spec fn widgets_view(v: Vec<Widget>) -> Seq<WidgetView>
    decreases v,
{
    Seq::new(
        v.len() as nat,
        |i: int|
            if 0 <= i < v.len() {
                widget_view(v[i])
            } else {
                arbitrary()
            },
    )
}

impl DeepView for Widget {
    type V = WidgetView;

    open spec fn deep_view(&self) -> WidgetView {
        widget_view(*self)
    }
}

impl View for Widget {
    type V = WidgetView;

    open spec fn view(&self) -> WidgetView {
        widget_view(*self)
    }
}

/// A list of widgets is viewed widget by widget.
pub proof fn lemma_widgets_view(v: Vec<Widget>)
    ensures
        widgets_view(v) == v.deep_view(),
{
    assert(widgets_view(v) =~= v.deep_view());
}

impl Widget {
    /// A heading line.
    pub fn heading(text: String) -> (r: Widget)
        ensures
            r@ == (WidgetView::Heading { text: text@ }),
    {
        Widget::Heading { text }
    }

    /// A line of plain text.
    pub fn label(text: String) -> (r: Widget)
        ensures
            r@ == (WidgetView::Label { text: text@ }),
    {
        Widget::Label { text }
    }

    /// A collapsible section.
    pub fn collapsing(title: String, body: Vec<Widget>) -> (r: Widget)
        ensures
            r@ == (WidgetView::CollapsingHeader { title: title@, body: body.deep_view() }),
    {
        proof {
            lemma_widgets_view(body);
        }
        Widget::CollapsingHeader { title, body }
    }

    /// A region that scrolls vertically.
    pub fn scroll_area(body: Vec<Widget>) -> (r: Widget)
        ensures
            r@ == (WidgetView::ScrollArea { body: body.deep_view() }),
    {
        proof {
            lemma_widgets_view(body);
        }
        Widget::ScrollArea { body }
    }
}

} // verus!
