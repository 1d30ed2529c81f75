//! How an element is shown: a collapsible section named after the element,
//! whose body shows the payload.
//!
//! The spec functions say what is shown, over the views of elements and
//! widgets; the executable functions build exactly that.

use crate::decimal::{
    decimal, decimal_tells_numbers_apart, signed_decimal, signed_text, unsigned_text,
};
use crate::element::{
    lemma_elements_view, lemma_groups_view, lemma_payloads_view, Element, ElementType,
    ElementTypeView, ElementView,
};
use crate::widget::{Widget, WidgetView};
use vstd::prelude::*;

verus! {

/// The text shown in place of a variant reference.
pub open spec fn placeholder_text() -> Seq<char> {
    "Currently not supported!"@
}

/// The title of the sub-section of group `i` of an array of references: the
/// index in square brackets.
pub open spec fn index_label(i: nat) -> Seq<char> {
    seq!['['] + decimal(i) + seq![']']
}

/// The section of an element: its name as the title, its payload's widgets as
/// the body.
pub open spec fn section_of(e: ElementView) -> WidgetView
    decreases e,
{
    WidgetView::CollapsingHeader { title: e.name, body: content_of(e.element) }
}

/// One section for each element, in the order of the elements.
pub open spec fn sections_of(es: Seq<ElementView>) -> Seq<WidgetView>
    decreases es,
{
    Seq::new(
        es.len(),
        |i: int|
            if 0 <= i < es.len() {
                section_of(es[i])
            } else {
                arbitrary()
            },
    )
}

/// One sub-section for each group, titled by the group's index, holding the
/// sections of the group's elements.
pub open spec fn indexed_sections_of(groups: Seq<Seq<ElementView>>) -> Seq<WidgetView>
    decreases groups,
{
    Seq::new(
        groups.len(),
        |i: int|
            if 0 <= i < groups.len() {
                WidgetView::CollapsingHeader {
                    title: index_label(i as nat),
                    body: sections_of(groups[i]),
                }
            } else {
                arbitrary()
            },
    )
}

/// The widgets of each payload of a list, in the order of the payloads.
pub open spec fn contents_of(ps: Seq<ElementTypeView>) -> Seq<Seq<WidgetView>>
    decreases ps,
{
    Seq::new(
        ps.len(),
        |i: int|
            if 0 <= i < ps.len() {
                content_of(ps[i])
            } else {
                arbitrary()
            },
    )
}

/// The widgets that show a payload.
pub open spec fn content_of(p: ElementTypeView) -> Seq<WidgetView>
    decreases p,
{
    match p {
        ElementTypeView::Reference(es) => sections_of(es),
        ElementTypeView::ArrayOfReferences(groups) => indexed_sections_of(groups),
        ElementTypeView::VariantReference => seq![
            WidgetView::Label { text: placeholder_text() },
        ],
        ElementTypeView::String(val) => seq![WidgetView::Label { text: val }],
        ElementTypeView::F32(bits) => seq![WidgetView::FloatLabel { bits }],
        ElementTypeView::I32(integer) => seq![
            WidgetView::Label { text: signed_decimal(integer as int) },
        ],
        ElementTypeView::Transform => Seq::empty(),
        ElementTypeView::Array(ps) => contents_of(ps).flatten(),
    }
}

/// Writes the title of the sub-section of group `i`.
pub fn index_text(i: usize) -> (r: String)
    ensures
        r@ == index_label(i as nat),
{
    let mut r = String::from_str("[");
    let digits = unsigned_text(i as u64);
    r.append(digits.as_str());
    r.append("]");
    proof {
        reveal_strlit("[");
        reveal_strlit("]");
        assert(r@ =~= index_label(i as nat));
    }
    r
}

/// Shows an element: a collapsible section under the element's name, whose
/// body shows the payload.
pub fn element_ui(element: &Element) -> (r: Widget)
    ensures
        r@ == section_of(element@),
    decreases element,
{
    let body = element_content(&element.element);
    Widget::collapsing(element.name.clone(), body)
}

/// Shows a payload.
///
/// Nested elements become sections; an array of groups becomes one indexed
/// sub-section per group; a string, a real value and an integer become one
/// label each; a variant reference becomes the placeholder label; a transform
/// shows nothing; an array of payloads shows its members one after another.
pub fn element_content(element: &ElementType) -> (r: Vec<Widget>)
    ensures
        r.deep_view() == content_of(element@),
    decreases element,
{
    match element {
        ElementType::Reference(elements) => {
            proof {
                lemma_elements_view(*elements);
            }
            element_list(elements)
        },
        ElementType::ArrayOfReferences(array) => {
            proof {
                lemma_groups_view(*array);
            }
            indexed_sections(array)
        },
        ElementType::VariantReference => {
            let r = vec![Widget::label(String::from_str("Currently not supported!"))];
            assert(r.deep_view() =~= content_of(element@));
            r
        },
        ElementType::String(val) => {
            let r = vec![Widget::label(val.clone())];
            assert(r.deep_view() =~= content_of(element@));
            r
        },
        ElementType::F32(bits) => {
            let r = vec![Widget::FloatLabel { bits: *bits }];
            assert(r.deep_view() =~= content_of(element@));
            r
        },
        ElementType::I32(integer) => {
            let r = vec![Widget::label(signed_text(*integer as i64))];
            assert(r.deep_view() =~= content_of(element@));
            r
        },
        ElementType::Transform => {
            let r: Vec<Widget> = Vec::new();
            assert(r.deep_view() =~= content_of(element@));
            r
        },
        ElementType::Array(elements) => {
            proof {
                lemma_payloads_view(*elements);
            }
            content_list(elements)
        },
    }
}

/// Shows each element of a list as a section, in the order of the list.
pub fn element_list(elements: &Vec<Element>) -> (r: Vec<Widget>)
    ensures
        r.deep_view() == sections_of(elements.deep_view()),
    decreases elements,
{
    let mut r: Vec<Widget> = Vec::new();
    let mut i: usize = 0;
    while i < elements.len()
        invariant
            i <= elements.len(),
            r.len() == i,
            forall|j: int| 0 <= j < i ==> (#[trigger] r[j])@ == section_of(elements[j]@),
        decreases elements.len() - i,
    {
        let w = element_ui(&elements[i]);
        r.push(w);
        i += 1;
    }
    assert(r.deep_view() =~= sections_of(elements.deep_view()));
    r
}

/// Shows each group of an array as a sub-section titled by its index.
fn indexed_sections(array: &Vec<Vec<Element>>) -> (r: Vec<Widget>)
    ensures
        r.deep_view() == indexed_sections_of(array.deep_view()),
    decreases array,
{
    let mut r: Vec<Widget> = Vec::new();
    let mut i: usize = 0;
    while i < array.len()
        invariant
            i <= array.len(),
            r.len() == i,
            forall|j: int|
                0 <= j < i ==> (#[trigger] r[j])@ == (WidgetView::CollapsingHeader {
                    title: index_label(j as nat),
                    body: sections_of(array[j].deep_view()),
                }),
        decreases array.len() - i,
    {
        let body = element_list(&array[i]);
        r.push(Widget::collapsing(index_text(i), body));
        i += 1;
    }
    assert(r.deep_view() =~= indexed_sections_of(array.deep_view()));
    r
}

/// Shows the payloads of a list one after another.
fn content_list(elements: &Vec<ElementType>) -> (r: Vec<Widget>)
    ensures
        r.deep_view() == contents_of(elements.deep_view()).flatten(),
    decreases elements,
{
    let mut r: Vec<Widget> = Vec::new();
    let mut i: usize = 0;
    assert(contents_of(elements.deep_view()).take(0) =~= Seq::empty());
    assert(r.deep_view() =~= Seq::empty());
    while i < elements.len()
        invariant
            i <= elements.len(),
            r.deep_view() == contents_of(elements.deep_view()).take(i as int).flatten(),
        decreases elements.len() - i,
    {
        let ghost before = r.deep_view();
        let ghost all = contents_of(elements.deep_view());
        let mut part = element_content(&elements[i]);
        let ghost shown = part.deep_view();
        r.append(&mut part);
        proof {
            assert(r.deep_view() =~= before + shown);
            assert(all.take(i + 1) =~= all.take(i as int).push(all[i as int]));
            all.take(i as int).lemma_flatten_push(all[i as int]);
        }
        i += 1;
    }
    assert(contents_of(elements.deep_view()).take(i as int) =~= contents_of(
        elements.deep_view(),
    ));
    r
}

/// A list of elements is shown as one collapsible section for each element,
/// in the order of the list, each titled with its element's name.
pub proof fn sections_follow_elements(es: Seq<ElementView>)
    ensures
        sections_of(es).len() == es.len(),
        forall|i: int|
            0 <= i < es.len() ==> {
                &&& #[trigger] sections_of(es)[i] == section_of(es[i])
                &&& sections_of(es)[i] is CollapsingHeader
                &&& sections_of(es)[i]->title == es[i].name
            },
{
}

/// An array of K groups is shown as exactly K sub-sections: the one of group
/// `i` is titled with `i` in square brackets and holds the sections of that
/// group's elements.
pub proof fn array_of_references_shows_indexed_sections(groups: Seq<Seq<ElementView>>)
    ensures
        content_of(ElementTypeView::ArrayOfReferences(groups)).len() == groups.len(),
        forall|i: int|
            0 <= i < groups.len() ==> #[trigger] content_of(
                ElementTypeView::ArrayOfReferences(groups),
            )[i] == (WidgetView::CollapsingHeader {
                title: index_label(i as nat),
                body: sections_of(groups[i]),
            }),
{
}

/// The sub-sections of different groups have different titles.
pub proof fn index_labels_differ(i: nat, j: nat)
    requires
        i != j,
    ensures
        index_label(i) != index_label(j),
{
    decimal_tells_numbers_apart(i, j);
    assert(index_label(i).subrange(1, index_label(i).len() - 1) =~= decimal(i));
    assert(index_label(j).subrange(1, index_label(j).len() - 1) =~= decimal(j));
}

/// A variant reference is shown as the placeholder label and nothing else,
/// whatever the element that carries it.
pub proof fn variant_reference_shows_placeholder(name: Seq<char>)
    ensures
        content_of(ElementTypeView::VariantReference) == seq![
            WidgetView::Label { text: placeholder_text() },
        ],
        section_of(ElementView { name, element: ElementTypeView::VariantReference })
            == (WidgetView::CollapsingHeader {
            title: name,
            body: seq![WidgetView::Label { text: placeholder_text() }],
        }),
{
}

/// A transform shows nothing, whatever the element that carries it: the
/// element's section has an empty body.
pub proof fn transform_shows_nothing(name: Seq<char>)
    ensures
        content_of(ElementTypeView::Transform).len() == 0,
        section_of(ElementView { name, element: ElementTypeView::Transform })
            == (WidgetView::CollapsingHeader { title: name, body: Seq::empty() }),
{
}

/// An array of payloads shows the widgets of its members one after another,
/// with no section around them: as many widgets as the members show together.
pub proof fn array_shows_members_in_sequence(ps: Seq<ElementTypeView>, p: ElementTypeView)
    ensures
        content_of(ElementTypeView::Array(Seq::empty())).len() == 0,
        content_of(ElementTypeView::Array(ps.push(p))) == content_of(ElementTypeView::Array(ps))
            + content_of(p),
{
    assert(contents_of(Seq::<ElementTypeView>::empty()) =~= Seq::empty());
    assert(contents_of(ps.push(p)) =~= contents_of(ps).push(content_of(p)));
    contents_of(ps).lemma_flatten_push(content_of(p));
}

} // verus!
