//! Reading ARCA's SOAP replies. Lookups match elements by their *local*
//! name and ignore namespaces, since the replies vary in their prefixes.
use vstd::prelude::*;

use crate::afip::error::AfipError;
use crate::text::{str_eq, string_of};

verus! {

/// One node of a parsed XML document, in document order: its position in
/// the document, its parent's position, whether it is an element, its local
/// name (empty for nodes that are not elements) and its text.
pub struct XmlNode {
    pub id: usize,
    pub parent: Option<usize>,
    pub is_element: bool,
    pub name: String,
    pub text: Option<String>,
}

pub struct XmlNodeView {
    pub id: usize,
    pub parent: Option<usize>,
    pub is_element: bool,
    pub name: Seq<char>,
    pub text: Option<Seq<char>>,
}

impl View for XmlNode {
    type V = XmlNodeView;

    open spec fn view(&self) -> XmlNodeView {
        XmlNodeView {
            id: self.id,
            parent: self.parent,
            is_element: self.is_element,
            name: self.name@,
            text: match self.text {
                Some(t) => Some(t@),
                None => None,
            },
        }
    }
}

pub open spec fn nodes_view(nodes: Seq<XmlNode>) -> Seq<XmlNodeView> {
    Seq::new(nodes.len(), |i: int| nodes[i]@)
}

/// The nodes of the XML document `xml` in document order, or `None` when
/// `xml` is not well-formed XML.
pub uninterp spec fn parsed_xml(xml: Seq<char>) -> Option<Seq<XmlNodeView>>;

/// `roxmltree::Document::parse`, with the document's nodes listed in
/// document order (`descendants` of the root). The contract names the result
/// (`parsed_xml`): the same text always gives the same nodes or the same
/// failure; what the nodes are is left to roxmltree.
#[verifier::external_body]
pub(crate) fn parse_xml(xml: &str) -> (r: Result<Vec<XmlNode>, roxmltree::Error>)
    ensures
        r matches Ok(nodes) ==> parsed_xml(xml@) == Some(nodes_view(nodes@)),
        r is Err ==> parsed_xml(xml@) is None,
{
    match roxmltree::Document::parse(xml) {
        Ok(doc) => Ok(
            doc.descendants().map(
                |n| XmlNode {
                    id: n.id().get_usize(),
                    parent: n.parent().map(|p| p.id().get_usize()),
                    is_element: n.is_element(),
                    name: n.tag_name().name().to_string(),
                    text: n.text().map(|t| t.to_string()),
                },
            ).collect(),
        ),
        Err(e) => Err(e),
    }
}

/// The node is an element named `local`.
pub open spec fn named(n: XmlNodeView, local: Seq<char>) -> bool {
    n.is_element && n.name == local
}

/// The position of the first element named `local`.
pub open spec fn first_named(nodes: Seq<XmlNodeView>, local: Seq<char>) -> Option<int>
    decreases nodes.len(),
{
    if nodes.len() == 0 {
        None
    } else if named(nodes[0], local) {
        Some(0)
    } else {
        match first_named(nodes.drop_first(), local) {
            Some(i) => Some(i + 1),
            None => None,
        }
    }
}

/// The text of the first element named `local` (`None` when there is no
/// such element or it has no text).
pub open spec fn first_text_in(nodes: Seq<XmlNodeView>, local: Seq<char>) -> Option<Seq<char>> {
    match first_named(nodes, local) {
        Some(i) => nodes[i].text,
        None => None,
    }
}

/// Some element is named `local`.
pub open spec fn has_element_in(nodes: Seq<XmlNodeView>, local: Seq<char>) -> bool {
    first_named(nodes, local) is Some
}

/// The `(local name, text)` pairs of the child elements of node `id` that
/// have text, in document order, among `nodes`.
pub open spec fn child_fields(nodes: Seq<XmlNodeView>, id: usize) -> Seq<(Seq<char>, Seq<char>)>
    decreases nodes.len(),
{
    if nodes.len() == 0 {
        seq![]
    } else {
        let n = nodes.last();
        let before = child_fields(nodes.drop_last(), id);
        if n.is_element && n.parent == Some(id) && n.text is Some {
            before.push((n.name, n.text->0))
        } else {
            before
        }
    }
}

/// For each element named `parent` among `nodes` (in document order), the
/// fields of its children within `all`.
pub open spec fn records_in(all: Seq<XmlNodeView>, nodes: Seq<XmlNodeView>, parent: Seq<char>) -> Seq<
    Seq<(Seq<char>, Seq<char>)>,
>
    decreases nodes.len(),
{
    if nodes.len() == 0 {
        seq![]
    } else {
        let n = nodes.last();
        let before = records_in(all, nodes.drop_last(), parent);
        if named(n, parent) {
            before.push(child_fields(all, n.id))
        } else {
            before
        }
    }
}

proof fn lemma_first_named_at(nodes: Seq<XmlNodeView>, local: Seq<char>, i: int)
    requires
        0 <= i <= nodes.len(),
        forall|j: int| 0 <= j < i ==> !named(#[trigger] nodes[j], local),
        i < nodes.len() ==> named(nodes[i], local),
    ensures
        i < nodes.len() ==> first_named(nodes, local) == Some(i),
        i == nodes.len() ==> first_named(nodes, local) is None,
    decreases nodes.len(),
{
    if nodes.len() > 0 && i > 0 {
        assert forall|j: int| 0 <= j < i - 1 implies !named(#[trigger] nodes.drop_first()[j], local) by {
            assert(nodes.drop_first()[j] == nodes[j + 1]);
        }
        lemma_first_named_at(nodes.drop_first(), local, i - 1);
    }
}

/// The text of the first element named `local` among `nodes`.
pub fn first_text_of(nodes: &Vec<XmlNode>, local: &str) -> (r: Option<String>)
    ensures
        match first_text_in(nodes_view(nodes@), local@) {
            Some(t) => r matches Some(s) && s@ == t,
            None => r is None,
        },
{
    let ghost vs = nodes_view(nodes@);
    let n = nodes.len();
    let mut i: usize = 0;
    while i < n
        invariant
            n == nodes@.len(),
            vs == nodes_view(nodes@),
            i <= n,
            forall|j: int| 0 <= j < i ==> !named(#[trigger] vs[j], local@),
        decreases n - i,
    {
        let node = &nodes[i];
        if node.is_element && str_eq(node.name.as_str(), local) {
            proof {
                lemma_first_named_at(vs, local@, i as int);
            }
            return match &node.text {
                Some(t) => Some(string_of(t.as_str())),
                None => None,
            };
        }
        assert(!named(vs[i as int], local@));
        i = i + 1;
    }
    proof {
        lemma_first_named_at(vs, local@, i as int);
    }
    None
}

/// Whether some element among `nodes` is named `local`.
pub fn has_element(nodes: &Vec<XmlNode>, local: &str) -> (r: bool)
    ensures
        r == has_element_in(nodes_view(nodes@), local@),
{
    let ghost vs = nodes_view(nodes@);
    let n = nodes.len();
    let mut i: usize = 0;
    while i < n
        invariant
            n == nodes@.len(),
            vs == nodes_view(nodes@),
            i <= n,
            forall|j: int| 0 <= j < i ==> !named(#[trigger] vs[j], local@),
        decreases n - i,
    {
        let node = &nodes[i];
        if node.is_element && str_eq(node.name.as_str(), local) {
            proof {
                lemma_first_named_at(vs, local@, i as int);
            }
            return true;
        }
        assert(!named(vs[i as int], local@));
        i = i + 1;
    }
    proof {
        lemma_first_named_at(vs, local@, i as int);
    }
    false
}

pub open spec fn fields_view(f: Seq<(String, String)>) -> Seq<(Seq<char>, Seq<char>)> {
    Seq::new(f.len(), |i: int| (f[i].0@, f[i].1@))
}

pub open spec fn records_view(r: Seq<Vec<(String, String)>>) -> Seq<Seq<(Seq<char>, Seq<char>)>> {
    Seq::new(r.len(), |i: int| fields_view(r[i]@))
}

/// The fields of the children of node `id`.
fn children_of(nodes: &Vec<XmlNode>, id: usize) -> (r: Vec<(String, String)>)
    ensures
        fields_view(r@) == child_fields(nodes_view(nodes@), id),
{
    let ghost vs = nodes_view(nodes@);
    let mut out: Vec<(String, String)> = Vec::new();
    let n = nodes.len();
    let mut i: usize = 0;
    while i < n
        invariant
            n == nodes@.len(),
            vs == nodes_view(nodes@),
            i <= n,
            fields_view(out@) == child_fields(vs.take(i as int), id),
        decreases n - i,
    {
        let node = &nodes[i];
        let ghost prev = out@;
        assert(vs.take(i + 1).drop_last() =~= vs.take(i as int));
        assert(vs.take(i + 1).last() == node@);
        if node.is_element && node.parent == Some(id) {
            match &node.text {
                Some(t) => {
                    out.push((string_of(node.name.as_str()), string_of(t.as_str())));
                    assert(fields_view(out@) =~= fields_view(prev).push((node.name@, t@)));
                },
                None => {},
            }
        }
        i = i + 1;
    }
    assert(vs.take(n as int) =~= vs);
    out
}

/// For each element named `parent` among `nodes`, the `(local name, text)`
/// pairs of its child elements that have text.
pub fn records_of(nodes: &Vec<XmlNode>, parent: &str) -> (r: Vec<Vec<(String, String)>>)
    ensures
        records_view(r@) == records_in(nodes_view(nodes@), nodes_view(nodes@), parent@),
{
    let ghost vs = nodes_view(nodes@);
    let mut out: Vec<Vec<(String, String)>> = Vec::new();
    let n = nodes.len();
    let mut i: usize = 0;
    while i < n
        invariant
            n == nodes@.len(),
            vs == nodes_view(nodes@),
            i <= n,
            records_view(out@) == records_in(vs, vs.take(i as int), parent@),
        decreases n - i,
    {
        let node = &nodes[i];
        let ghost prev = out@;
        assert(vs.take(i + 1).drop_last() =~= vs.take(i as int));
        assert(vs.take(i + 1).last() == node@);
        if node.is_element && str_eq(node.name.as_str(), parent) {
            let fields = children_of(nodes, node.id);
            out.push(fields);
            assert(records_view(out@) =~= records_view(prev).push(child_fields(vs, node.id)));
        }
        i = i + 1;
    }
    assert(vs.take(n as int) =~= vs);
    out
}

/// The text content of the first element with local name `local`; `None`
/// when there is none, it has no text, or `xml` does not parse.
pub fn first_text(xml: &str, local: &str) -> (r: Option<String>)
    ensures
        match parsed_xml(xml@) {
            Some(ns) => match first_text_in(ns, local@) {
                Some(t) => r matches Some(s) && s@ == t,
                None => r is None,
            },
            None => r is None,
        },
{
    match parse_xml(xml) {
        Ok(nodes) => first_text_of(&nodes, local),
        Err(_) => None,
    }
}

/// For each element with local name `parent`, its direct child elements'
/// `(local name, text)`; used to read repeated records like
/// `<Obs><Code/><Msg/></Obs>` or `<Err>`. Empty when `xml` does not parse.
pub fn records(xml: &str, parent: &str) -> (r: Vec<Vec<(String, String)>>)
    ensures
        match parsed_xml(xml@) {
            Some(ns) => records_view(r@) == records_in(ns, ns, parent@),
            None => r@.len() == 0,
        },
{
    match parse_xml(xml) {
        Ok(nodes) => records_of(&nodes, parent),
        Err(_) => Vec::new(),
    }
}

/// What `check_soap_fault` answers for a parsed reply: the fault message is
/// the text of the first `faultstring`, or `unknown fault`.
pub open spec fn fault_message(ns: Seq<XmlNodeView>) -> Seq<char> {
    match first_text_in(ns, "faultstring"@) {
        Some(t) => t,
        None => "unknown fault"@,
    }
}

/// `Err(SoapFault)` if the envelope carries a SOAP `<Fault>`; `Err(Xml)` if
/// it does not parse.
pub fn check_soap_fault(xml: &str, service: &str) -> (r: Result<(), AfipError>)
    ensures
        match parsed_xml(xml@) {
            None => r matches Err(AfipError::Xml(_)),
            Some(ns) => if has_element_in(ns, "Fault"@) {
                r matches Err(AfipError::SoapFault { service: s, message: m }) && s@ == service@
                    && m@ == fault_message(ns)
            } else {
                r is Ok
            },
        },
{
    let nodes = match parse_xml(xml) {
        Ok(n) => n,
        Err(e) => return Err(AfipError::Xml(e)),
    };
    if has_element(&nodes, "Fault") {
        let message = match first_text_of(&nodes, "faultstring") {
            Some(m) => m,
            None => string_of("unknown fault"),
        };
        return Err(AfipError::SoapFault { service: string_of(service), message });
    }
    Ok(())
}

} // verus!
