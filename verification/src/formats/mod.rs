//! Invoice formats and their Typst data definitions.
pub mod afip_a;
pub mod afip_c;
pub mod generic;

use vstd::prelude::*;

use crate::text::string_of;
use afip_a::{afip_a_doc, AfipAInvoice, AfipATotals};
use afip_c::{afip_c_doc, AfipCInvoice};
use generic::{generic_doc, GenericInvoice};

verus! {

/// An invoice config, tagged by its `format`.
pub enum InvoiceConfig {
    Generic(GenericInvoice),
    AfipC(AfipCInvoice),
    AfipA(AfipAInvoice),
}

/// The rendered sums of an invoice, one shape per format.
pub enum InvoiceTotals {
    Generic { total: String },
    AfipC { subtotal: String, total: String },
    AfipA(AfipATotals),
}

/// The totals fit the invoice's format.
pub open spec fn totals_fit(config: InvoiceConfig, totals: InvoiceTotals) -> bool {
    match (config, totals) {
        (InvoiceConfig::Generic(_), InvoiceTotals::Generic { .. }) => true,
        (InvoiceConfig::AfipC(_), InvoiceTotals::AfipC { .. }) => true,
        (InvoiceConfig::AfipA(_), InvoiceTotals::AfipA(_)) => true,
        _ => false,
    }
}

/// The Typst data definition of an invoice with its totals.
pub open spec fn invoice_doc(config: InvoiceConfig, totals: InvoiceTotals) -> Seq<char> {
    match (config, totals) {
        (InvoiceConfig::Generic(inv), InvoiceTotals::Generic { total }) => generic_doc(inv, total@),
        (InvoiceConfig::AfipC(inv), InvoiceTotals::AfipC { subtotal, total }) => afip_c_doc(
            inv,
            subtotal@,
            total@,
        ),
        (InvoiceConfig::AfipA(inv), InvoiceTotals::AfipA(t)) => afip_a_doc(inv, t),
        _ => seq![],
    }
}

/// The number an invoice is filed under: the generic invoice's number, or
/// `punto_de_venta-numero` for AFIP invoices.
pub open spec fn invoice_number_of(config: InvoiceConfig) -> Seq<char> {
    match config {
        InvoiceConfig::Generic(inv) => inv.invoice.number@,
        InvoiceConfig::AfipC(inv) => inv.comprobante.punto_de_venta@ + "-"@
            + inv.comprobante.numero@,
        InvoiceConfig::AfipA(inv) => inv.comprobante.punto_de_venta@ + "-"@
            + inv.comprobante.numero@,
    }
}

impl InvoiceConfig {
    /// Renders the invoice as a Typst `invoice-data` definition.
    pub fn to_typst_dict(&self, totals: &InvoiceTotals) -> (r: String)
        requires
            totals_fit(*self, *totals),
        ensures
            r@ == invoice_doc(*self, *totals),
    {
        match (self, totals) {
            (InvoiceConfig::Generic(inv), InvoiceTotals::Generic { total }) => inv.to_typst_dict(
                total.as_str(),
            ),
            (InvoiceConfig::AfipC(inv), InvoiceTotals::AfipC { subtotal, total }) => inv.to_typst_dict(
                subtotal.as_str(),
                total.as_str(),
            ),
            (InvoiceConfig::AfipA(inv), InvoiceTotals::AfipA(t)) => inv.to_typst_dict(t),
            _ => String::new(),
        }
    }

    /// The number an invoice is filed under.
    pub fn invoice_number(&self) -> (r: String)
        ensures
            r@ == invoice_number_of(*self),
    {
        match self {
            InvoiceConfig::Generic(inv) => string_of(inv.invoice.number.as_str()),
            InvoiceConfig::AfipC(inv) => {
                let mut r = string_of(inv.comprobante.punto_de_venta.as_str());
                r.append("-");
                r.append(inv.comprobante.numero.as_str());
                r
            },
            InvoiceConfig::AfipA(inv) => {
                let mut r = string_of(inv.comprobante.punto_de_venta.as_str());
                r.append("-");
                r.append(inv.comprobante.numero.as_str());
                r
            },
        }
    }
}

} // verus!
