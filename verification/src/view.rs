use vstd::prelude::*;

verus! {

/// The mathematical model of one rendered element: its text content as a
/// character sequence, and for the button the displayed count.
pub enum ElementModel {
    /// A top-level heading.
    Heading(Seq<char>),
    /// A paragraph of text.
    Paragraph(Seq<char>),
    /// A bare text node.
    Text(Seq<char>),
    /// The clickable control: a fixed label followed by the displayed count.
    Button { label: Seq<char>, count: nat },
}

/// One rendered element of a page body.
pub enum Element {
    /// A top-level heading.
    Heading(String),
    /// A paragraph of text.
    Paragraph(String),
    /// A bare text node.
    Text(String),
    /// The clickable control: a fixed label followed by the displayed count.
    Button { label: String, count: u64 },
}

impl View for Element {
    type V = ElementModel;

    open spec fn view(&self) -> ElementModel {
        match self {
            Element::Heading(t) => ElementModel::Heading(t@),
            Element::Paragraph(t) => ElementModel::Paragraph(t@),
            Element::Text(t) => ElementModel::Text(t@),
            Element::Button { label, count } => (ElementModel::Button {
                label: label@,
                count: *count as nat,
            }),
        }
    }
}

/// The body of one rendered page: the elements in document order.
pub struct PageBody {
    /// The elements in document order.
    pub elements: Vec<Element>,
}

impl View for PageBody {
    type V = Seq<ElementModel>;

    open spec fn view(&self) -> Seq<ElementModel> {
        self.elements@.map_values(|e: Element| e@)
    }
}

/// What the home page shows for a given count: a welcome heading, a greeting
/// paragraph, and the button whose label is followed by the count.
pub open spec fn spec_home_body(count: nat) -> Seq<ElementModel> {
    seq![
        ElementModel::Heading("ようこそ"@),
        ElementModel::Paragraph("Hello, World!"@),
        ElementModel::Button { label: "クリックしてみてね"@, count: count },
    ]
}

/// What the not-found page shows: a single heading and nothing else.
pub open spec fn spec_not_found_body() -> Seq<ElementModel> {
    seq![ElementModel::Heading("Not Found"@)]
}

/// What the router's fallback shows when no route matches at all.
pub open spec fn spec_fallback_body() -> Seq<ElementModel> {
    seq![ElementModel::Text("見つかりませんでした。"@)]
}

/// Builds the home page body for a given count.
pub fn home_body(count: u64) -> (v: PageBody)
    ensures
        v@ =~= spec_home_body(count as nat),
{
    let mut elements: Vec<Element> = Vec::new();
    elements.push(Element::Heading("ようこそ".to_owned()));
    elements.push(Element::Paragraph("Hello, World!".to_owned()));
    elements.push(Element::Button { label: "クリックしてみてね".to_owned(), count });
    PageBody { elements }
}

/// Builds the not-found page body.
pub fn not_found_body() -> (v: PageBody)
    ensures
        v@ =~= spec_not_found_body(),
{
    let mut elements: Vec<Element> = Vec::new();
    elements.push(Element::Heading("Not Found".to_owned()));
    PageBody { elements }
}

/// Builds the fallback body rendered when no route matches.
pub fn fallback_body() -> (v: PageBody)
    ensures
        v@ =~= spec_fallback_body(),
{
    let mut elements: Vec<Element> = Vec::new();
    elements.push(Element::Text("見つかりませんでした。".to_owned()));
    PageBody { elements }
}

} // verus!
