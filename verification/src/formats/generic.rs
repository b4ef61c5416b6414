//! The generic (international) invoice format.
use vstd::prelude::*;

use crate::text::{has_infix, join_strings, joined, lemma_infix, string_of, views};
use crate::typst::{escaped, push_escaped, push_option, typst_option};

verus! {

/// A generic invoice as read from its TOML config.
pub struct GenericInvoice {
    pub company: Company,
    pub client: Client,
    pub invoice: InvoiceMeta,
    pub items: Vec<LineItem>,
}

pub struct Company {
    pub name: String,
    pub address: String,
    pub address2: String,
    pub city_state_zip: String,
    pub country: String,
}

pub struct Client {
    pub name: String,
    pub address: String,
    pub address2: String,
    pub city_state_zip: String,
    pub country: String,
    pub tax_id: Option<String>,
}

pub struct InvoiceMeta {
    pub number: String,
    pub date: String,
    pub due_date: String,
    pub currency: String,
}

/// One billed line. The rate is carried as the decimal text that renders the
/// amount (its `Display` form); amounts are added up where floating point is
/// available.
pub struct LineItem {
    pub description: String,
    pub rate: String,
}

/// The view of an optional string.
pub open spec fn opt_view(o: Option<String>) -> Option<Seq<char>> {
    match o {
        Some(s) => Some(s@),
        None => None,
    }
}

/// The Typst record of one line item.
pub open spec fn generic_item_text(item: LineItem) -> Seq<char> {
    "(description: \""@
        + escaped(item.description@)
        + "\", rate: "@
        + item.rate@
        + ")"@
}

pub open spec fn generic_item_texts(items: Seq<LineItem>) -> Seq<Seq<char>> {
    Seq::new(items.len(), |i: int| generic_item_text(items[i]))
}

/// The Typst data definition of a generic invoice whose total renders as
/// `total`.
pub open spec fn generic_doc(inv: GenericInvoice, total: Seq<char>) -> Seq<char> {
    "#let invoice-data = (\n  company: (\n    name: \""@
        + escaped(inv.company.name@)
        + "\",\n    address: \""@
        + escaped(inv.company.address@)
        + "\",\n    address2: \""@
        + escaped(inv.company.address2@)
        + "\",\n    city_state_zip: \""@
        + escaped(inv.company.city_state_zip@)
        + "\",\n    country: \""@
        + escaped(inv.company.country@)
        + "\",\n  ),\n  client: (\n    name: \""@
        + escaped(inv.client.name@)
        + "\",\n    address: \""@
        + escaped(inv.client.address@)
        + "\",\n    address2: \""@
        + escaped(inv.client.address2@)
        + "\",\n    city_state_zip: \""@
        + escaped(inv.client.city_state_zip@)
        + "\",\n    country: \""@
        + escaped(inv.client.country@)
        + "\",\n    tax_id: "@
        + typst_option(opt_view(inv.client.tax_id))
        + ",\n  ),\n  invoice: (\n    number: \""@
        + escaped(inv.invoice.number@)
        + "\",\n    date: \""@
        + escaped(inv.invoice.date@)
        + "\",\n    due_date: \""@
        + escaped(inv.invoice.due_date@)
        + "\",\n    currency: \""@
        + escaped(inv.invoice.currency@)
        + "\",\n  ),\n  items: ("@
        + joined(generic_item_texts(inv.items@), ", "@)
        + ",),\n  total: "@
        + total
        + ",\n)\n"@
}

/// The invoice's dates are rendered under their own names: the issue date
/// after `date:` and the due date after `due_date:`, each as a Typst string
/// literal of the configured text.
pub proof fn law_invoice_dates(inv: GenericInvoice, total: Seq<char>)
    ensures
        has_infix(generic_doc(inv, total), "\n    date: \""@ + escaped(inv.invoice.date@) + "\","@),
        has_infix(
            generic_doc(inv, total),
            "\n    due_date: \""@ + escaped(inv.invoice.due_date@) + "\","@,
        ),
{
    reveal_strlit("\",\n    date: \"");
    reveal_strlit("\",\n    due_date: \"");
    reveal_strlit("\",\n    currency: \"");
    reveal_strlit("\",");
    reveal_strlit("\n    date: \"");
    reveal_strlit("\n    due_date: \"");
    reveal_strlit("\n    currency: \"");
    let ed = escaped(inv.invoice.date@);
    let edd = escaped(inv.invoice.due_date@);
    let q = "\","@;
    let td = "\n    date: \""@ + ed + q;
    let tdd = "\n    due_date: \""@ + edd + q;
    assert("\",\n    date: \""@ =~= q + "\n    date: \""@);
    assert("\",\n    due_date: \""@ =~= q + "\n    due_date: \""@);
    assert("\",\n    currency: \""@ =~= q + "\n    currency: \""@);
    let pre = "#let invoice-data = (\n  company: (\n    name: \""@
        + escaped(inv.company.name@)
        + "\",\n    address: \""@
        + escaped(inv.company.address@)
        + "\",\n    address2: \""@
        + escaped(inv.company.address2@)
        + "\",\n    city_state_zip: \""@
        + escaped(inv.company.city_state_zip@)
        + "\",\n    country: \""@
        + escaped(inv.company.country@)
        + "\",\n  ),\n  client: (\n    name: \""@
        + escaped(inv.client.name@)
        + "\",\n    address: \""@
        + escaped(inv.client.address@)
        + "\",\n    address2: \""@
        + escaped(inv.client.address2@)
        + "\",\n    city_state_zip: \""@
        + escaped(inv.client.city_state_zip@)
        + "\",\n    country: \""@
        + escaped(inv.client.country@)
        + "\",\n    tax_id: "@
        + typst_option(opt_view(inv.client.tax_id))
        + ",\n  ),\n  invoice: (\n    number: \""@
        + escaped(inv.invoice.number@);
    let post = escaped(inv.invoice.currency@)
        + "\",\n  ),\n  items: ("@
        + joined(generic_item_texts(inv.items@), ", "@)
        + ",),\n  total: "@
        + total
        + ",\n)\n"@;
    let doc = generic_doc(inv, total);
    assert(doc =~= (pre + q) + td + (tdd + "\n    currency: \""@ + post));
    lemma_infix(pre + q, td, tdd + "\n    currency: \""@ + post);
    assert(doc =~= (pre + q + td) + tdd + ("\n    currency: \""@ + post));
    lemma_infix(pre + q + td, tdd, "\n    currency: \""@ + post);
}

fn item_text(item: &LineItem) -> (r: String)
    ensures
        r@ == generic_item_text(*item),
{
    let mut out = string_of("(description: \"");
    push_escaped(&mut out, item.description.as_str());
    out.append("\", rate: ");
    out.append(item.rate.as_str());
    out.append(")");
    out
}

impl GenericInvoice {
    /// Renders the invoice as a Typst `invoice-data` definition; `total` is
    /// the rendered sum of the item rates.
    pub fn to_typst_dict(&self, total: &str) -> (r: String)
        ensures
            r@ == generic_doc(*self, total@),
    {
        let mut texts: Vec<String> = Vec::new();
        let n = self.items.len();
        let mut i: usize = 0;
        while i < n
            invariant
                n == self.items@.len(),
                i <= n,
                views(texts@) =~= generic_item_texts(self.items@).take(i as int),
            decreases n - i,
        {
            let t = item_text(&self.items[i]);
            let ghost prev = texts@;
            texts.push(t);
            assert(views(texts@) =~= views(prev).push(generic_item_text(self.items@[i as int])));
            i = i + 1;
        }
        assert(generic_item_texts(self.items@).take(n as int) =~= generic_item_texts(self.items@));
        let items_str = join_strings(&texts, ", ");
        let ghost inv = *self;
        let mut out = string_of("#let invoice-data = (\n  company: (\n    name: \"");
        push_escaped(&mut out, self.company.name.as_str());
        out.append("\",\n    address: \"");
        push_escaped(&mut out, self.company.address.as_str());
        out.append("\",\n    address2: \"");
        push_escaped(&mut out, self.company.address2.as_str());
        out.append("\",\n    city_state_zip: \"");
        push_escaped(&mut out, self.company.city_state_zip.as_str());
        out.append("\",\n    country: \"");
        push_escaped(&mut out, self.company.country.as_str());
        out.append("\",\n  ),\n  client: (\n    name: \"");
        push_escaped(&mut out, self.client.name.as_str());
        out.append("\",\n    address: \"");
        push_escaped(&mut out, self.client.address.as_str());
        out.append("\",\n    address2: \"");
        push_escaped(&mut out, self.client.address2.as_str());
        out.append("\",\n    city_state_zip: \"");
        push_escaped(&mut out, self.client.city_state_zip.as_str());
        out.append("\",\n    country: \"");
        push_escaped(&mut out, self.client.country.as_str());
        out.append("\",\n    tax_id: ");
        push_option(&mut out, &self.client.tax_id);
        out.append(",\n  ),\n  invoice: (\n    number: \"");
        push_escaped(&mut out, self.invoice.number.as_str());
        out.append("\",\n    date: \"");
        push_escaped(&mut out, self.invoice.date.as_str());
        out.append("\",\n    due_date: \"");
        push_escaped(&mut out, self.invoice.due_date.as_str());
        out.append("\",\n    currency: \"");
        push_escaped(&mut out, self.invoice.currency.as_str());
        out.append("\",\n  ),\n  items: (");
        out.append(items_str.as_str());
        out.append(",),\n  total: ");
        out.append(total);
        out.append(",\n)\n");
        out
    }
}

} // verus!
