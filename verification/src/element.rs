//! The element tree of a decoded Granny2 file.
//!
//! Each type has a view that holds sequences in place of vectors and strings.
//! A list is viewed item by item; the test on the index inside each closure
//! is there for the proof of termination alone.

use vstd::prelude::*;

verus! {

/// A named node of the tree, carrying one typed payload.
#[derive(Debug, PartialEq)]
pub struct Element {
    pub name: String,
    pub element: ElementType,
}

/// The typed payload of an element.
#[derive(Debug, PartialEq)]
pub enum ElementType {
    /// A list of nested elements.
    Reference(Vec<Element>),
    /// An array of groups of nested elements.
    ArrayOfReferences(Vec<Vec<Element>>),
    /// A pointer to raw data, which no viewer shows.
    VariantReference,
    /// A string.
    String(String),
    /// A 32-bit real value, held as its IEEE 754 bits.
    F32(u32),
    /// A 32-bit integer.
    I32(i32),
    /// A transform.
    Transform,
    /// Several payloads under one element.
    Array(Vec<ElementType>),
}

/// A decoded file: the elements at the root of its tree.
#[derive(Debug, PartialEq)]
pub struct GrannyFile {
    pub root_elements: Vec<Element>,
}

/// What an [`Element`] stands for.
#[verifier::ext_equal]
pub struct ElementView {
    pub name: Seq<char>,
    pub element: ElementTypeView,
}

/// What an [`ElementType`] stands for.
#[verifier::ext_equal]
pub enum ElementTypeView {
    Reference(Seq<ElementView>),
    ArrayOfReferences(Seq<Seq<ElementView>>),
    VariantReference,
    String(Seq<char>),
    F32(u32),
    I32(i32),
    Transform,
    Array(Seq<ElementTypeView>),
}

/// What a [`GrannyFile`] stands for.
#[verifier::ext_equal]
pub struct GrannyFileView {
    pub root_elements: Seq<ElementView>,
}

/// The view of an element: its name and the view of its payload.
pub open spec fn element_view(e: Element) -> ElementView
    decreases e,
{
    ElementView { name: e.name@, element: payload_view(e.element) }
}

/// The views of a list of elements, in order.
pub open spec fn elements_view(v: Vec<Element>) -> Seq<ElementView>
    decreases v,
{
    Seq::new(
        v.len() as nat,
        |i: int|
            if 0 <= i < v.len() {
                element_view(v[i])
            } else {
                arbitrary()
            },
    )
}

/// The views of an array of groups of elements, in order.
pub open spec fn groups_view(v: Vec<Vec<Element>>) -> Seq<Seq<ElementView>>
    decreases v,
{
    Seq::new(
        v.len() as nat,
        |i: int|
            if 0 <= i < v.len() {
                elements_view(v[i])
            } else {
                arbitrary()
            },
    )
}

/// The views of a list of payloads, in order.
pub open spec fn payloads_view(v: Vec<ElementType>) -> Seq<ElementTypeView>
    decreases v,
{
    Seq::new(
        v.len() as nat,
        |i: int|
            if 0 <= i < v.len() {
                payload_view(v[i])
            } else {
                arbitrary()
            },
    )
}

/// The view of a payload, variant by variant.
pub open spec fn payload_view(p: ElementType) -> ElementTypeView
    decreases p,
{
    match p {
        ElementType::Reference(elements) => ElementTypeView::Reference(elements_view(elements)),
        ElementType::ArrayOfReferences(array) => ElementTypeView::ArrayOfReferences(
            groups_view(array),
        ),
        ElementType::VariantReference => ElementTypeView::VariantReference,
        ElementType::String(val) => ElementTypeView::String(val@),
        ElementType::F32(bits) => ElementTypeView::F32(bits),
        ElementType::I32(integer) => ElementTypeView::I32(integer),
        ElementType::Transform => ElementTypeView::Transform,
        ElementType::Array(elements) => ElementTypeView::Array(payloads_view(elements)),
    }
}

impl DeepView for Element {
    type V = ElementView;

    open spec fn deep_view(&self) -> ElementView {
        element_view(*self)
    }
}

impl View for Element {
    type V = ElementView;

    open spec fn view(&self) -> ElementView {
        element_view(*self)
    }
}

impl DeepView for ElementType {
    type V = ElementTypeView;

    open spec fn deep_view(&self) -> ElementTypeView {
        payload_view(*self)
    }
}

impl View for ElementType {
    type V = ElementTypeView;

    open spec fn view(&self) -> ElementTypeView {
        payload_view(*self)
    }
}

impl DeepView for GrannyFile {
    type V = GrannyFileView;

    open spec fn deep_view(&self) -> GrannyFileView {
        GrannyFileView { root_elements: self.root_elements.deep_view() }
    }
}

impl View for GrannyFile {
    type V = GrannyFileView;

    open spec fn view(&self) -> GrannyFileView {
        self.deep_view()
    }
}

/// A list of elements is viewed element by element.
pub proof fn lemma_elements_view(v: Vec<Element>)
    ensures
        elements_view(v) == v.deep_view(),
{
    assert(elements_view(v) =~= v.deep_view());
}

/// An array of groups is viewed group by group.
pub proof fn lemma_groups_view(v: Vec<Vec<Element>>)
    ensures
        groups_view(v) == v.deep_view(),
{
    assert forall|i: int| 0 <= i < v.len() implies groups_view(v)[i] == v.deep_view()[i] by {
        lemma_elements_view(v[i]);
    }
    assert(groups_view(v) =~= v.deep_view());
}

/// A list of payloads is viewed payload by payload.
pub proof fn lemma_payloads_view(v: Vec<ElementType>)
    ensures
        payloads_view(v) == v.deep_view(),
{
    assert(payloads_view(v) =~= v.deep_view());
}

} // verus!
