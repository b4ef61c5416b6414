//! The AFIP Factura C format (monotributo), with the web-service codes used
//! to authorize it.
use vstd::prelude::*;

use crate::formats::generic::opt_view;
use crate::text::{join_strings, joined, string_of, views};
use crate::typst::{escaped, push_escaped, push_option, typst_option};

verus! {

/// An AFIP Factura C as read from its TOML config.
pub struct AfipCInvoice {
    pub emisor: Emisor,
    pub receptor: Receptor,
    pub comprobante: Comprobante,
    pub items: Vec<LineItem>,
    /// The CAE; empty until the invoice is authorized.
    pub cae: Cae,
    /// AFIP web-service codes used to authorize the invoice.
    pub afip: Option<AfipParams>,
}

/// The CAE of an invoice that has none yet.
pub fn default_cae() -> (r: Cae)
    ensures
        r.numero@ == Seq::<char>::empty(),
        r.vencimiento@ == Seq::<char>::empty(),
{
    Cae { numero: String::new(), vencimiento: String::new() }
}

/// WSFE-specific codes. Defaults to a consumidor-final sale of products.
#[derive(Clone, Copy)]
pub struct AfipParams {
    pub concepto: ConceptoParam,
    pub doc_tipo: DocTipoParam,
    pub doc_nro: u64,
    pub cond_iva_receptor: u8,
}

/// The receptor's condición frente al IVA when none is given: consumidor final.
pub fn default_cond_iva() -> (r: u8)
    ensures
        r == 5,
{
    5
}

impl Default for AfipParams {
    fn default() -> (r: Self)
        ensures
            r.concepto == ConceptoParam::Productos,
            r.doc_tipo == DocTipoParam::ConsumidorFinal,
            r.doc_nro == 0,
            r.cond_iva_receptor == 5,
    {
        AfipParams {
            concepto: ConceptoParam::Productos,
            doc_tipo: DocTipoParam::ConsumidorFinal,
            doc_nro: 0,
            cond_iva_receptor: default_cond_iva(),
        }
    }
}

#[derive(Clone, Copy, Debug, PartialEq, Eq, Structural)]
pub enum ConceptoParam {
    Productos,
    Servicios,
    ProductosYServicios,
}

impl Default for ConceptoParam {
    fn default() -> (r: Self)
        ensures
            r == ConceptoParam::Productos,
    {
        ConceptoParam::Productos
    }
}

#[derive(Clone, Copy, Debug, PartialEq, Eq, Structural)]
pub enum DocTipoParam {
    ConsumidorFinal,
    Cuit,
    Cuil,
    Dni,
}

impl Default for DocTipoParam {
    fn default() -> (r: Self)
        ensures
            r == DocTipoParam::ConsumidorFinal,
    {
        DocTipoParam::ConsumidorFinal
    }
}

pub struct Emisor {
    pub razon_social: String,
    pub domicilio_comercial: String,
    pub condicion_iva: String,
    pub cuit: String,
    pub ingresos_brutos: String,
    pub inicio_actividades: String,
}

pub struct Receptor {
    pub nombre: Option<String>,
    pub domicilio: Option<String>,
    pub condicion_iva: String,
    pub condicion_venta: String,
    pub documento: Option<String>,
}

pub struct Comprobante {
    pub tipo: String,
    pub codigo: String,
    pub punto_de_venta: String,
    pub numero: String,
    pub fecha_emision: String,
    pub periodo_desde: Option<String>,
    pub periodo_hasta: Option<String>,
    pub fecha_vencimiento: String,
}

/// One billed line. Quantities and amounts are carried as the decimal text
/// that renders them.
pub struct LineItem {
    pub codigo: String,
    pub descripcion: String,
    pub cantidad: String,
    pub unidad: String,
    pub precio_unitario: String,
    pub bonificacion_porcentaje: String,
    pub bonificacion_importe: String,
    pub subtotal: String,
}

pub struct Cae {
    pub numero: String,
    pub vencimiento: String,
}

/// The Typst record of one line item.
pub open spec fn afip_c_item_text(item: LineItem) -> Seq<char> {
    "(codigo: \""@
        + escaped(item.codigo@)
        + "\", descripcion: \""@
        + escaped(item.descripcion@)
        + "\", cantidad: "@
        + item.cantidad@
        + ", unidad: \""@
        + escaped(item.unidad@)
        + "\", precio_unitario: "@
        + item.precio_unitario@
        + ", bonif_pct: "@
        + item.bonificacion_porcentaje@
        + ", bonif_imp: "@
        + item.bonificacion_importe@
        + ", subtotal: "@
        + item.subtotal@
        + ")"@
}

pub open spec fn afip_c_item_texts(items: Seq<LineItem>) -> Seq<Seq<char>> {
    Seq::new(items.len(), |i: int| afip_c_item_text(items[i]))
}

/// The Typst data definition of a Factura C whose item subtotals add up to
/// `subtotal` and whose total is `total` (both rendered); there are no other
/// taxes, rendered as `0`.
pub open spec fn afip_c_doc(inv: AfipCInvoice, subtotal: Seq<char>, total: Seq<char>) -> Seq<char> {
    "#let invoice-data = (\n  emisor: (\n    razon_social: \""@
        + escaped(inv.emisor.razon_social@)
        + "\",\n    domicilio_comercial: \""@
        + escaped(inv.emisor.domicilio_comercial@)
        + "\",\n    condicion_iva: \""@
        + escaped(inv.emisor.condicion_iva@)
        + "\",\n    cuit: \""@
        + escaped(inv.emisor.cuit@)
        + "\",\n    ingresos_brutos: \""@
        + escaped(inv.emisor.ingresos_brutos@)
        + "\",\n    inicio_actividades: \""@
        + escaped(inv.emisor.inicio_actividades@)
        + "\",\n  ),\n  receptor: (\n    nombre: "@
        + typst_option(opt_view(inv.receptor.nombre))
        + ",\n    domicilio: "@
        + typst_option(opt_view(inv.receptor.domicilio))
        + ",\n    condicion_iva: \""@
        + escaped(inv.receptor.condicion_iva@)
        + "\",\n    condicion_venta: \""@
        + escaped(inv.receptor.condicion_venta@)
        + "\",\n    documento: "@
        + typst_option(opt_view(inv.receptor.documento))
        + ",\n  ),\n  comprobante: (\n    tipo: \""@
        + escaped(inv.comprobante.tipo@)
        + "\",\n    codigo: \""@
        + escaped(inv.comprobante.codigo@)
        + "\",\n    punto_de_venta: \""@
        + escaped(inv.comprobante.punto_de_venta@)
        + "\",\n    numero: \""@
        + escaped(inv.comprobante.numero@)
        + "\",\n    fecha_emision: \""@
        + escaped(inv.comprobante.fecha_emision@)
        + "\",\n    periodo_desde: "@
        + typst_option(opt_view(inv.comprobante.periodo_desde))
        + ",\n    periodo_hasta: "@
        + typst_option(opt_view(inv.comprobante.periodo_hasta))
        + ",\n    fecha_vencimiento: \""@
        + escaped(inv.comprobante.fecha_vencimiento@)
        + "\",\n  ),\n  items: ("@
        + joined(afip_c_item_texts(inv.items@), ", "@)
        + ",),\n  cae: (\n    numero: \""@
        + escaped(inv.cae.numero@)
        + "\",\n    vencimiento: \""@
        + escaped(inv.cae.vencimiento@)
        + "\",\n  ),\n  subtotal: "@
        + subtotal
        + ",\n  otros_tributos: "@
        + "0"@
        + ",\n  total: "@
        + total
        + ",\n)\n"@
}

fn item_text(item: &LineItem) -> (r: String)
    ensures
        r@ == afip_c_item_text(*item),
{
    let mut out = string_of("(codigo: \"");
    push_escaped(&mut out, item.codigo.as_str());
    out.append("\", descripcion: \"");
    push_escaped(&mut out, item.descripcion.as_str());
    out.append("\", cantidad: ");
    out.append(item.cantidad.as_str());
    out.append(", unidad: \"");
    push_escaped(&mut out, item.unidad.as_str());
    out.append("\", precio_unitario: ");
    out.append(item.precio_unitario.as_str());
    out.append(", bonif_pct: ");
    out.append(item.bonificacion_porcentaje.as_str());
    out.append(", bonif_imp: ");
    out.append(item.bonificacion_importe.as_str());
    out.append(", subtotal: ");
    out.append(item.subtotal.as_str());
    out.append(")");
    out
}

impl AfipCInvoice {
    /// Renders the invoice as a Typst `invoice-data` definition.
    pub fn to_typst_dict(&self, subtotal: &str, total: &str) -> (r: String)
        ensures
            r@ == afip_c_doc(*self, subtotal@, total@),
    {
        let mut texts: Vec<String> = Vec::new();
        let n = self.items.len();
        let mut i: usize = 0;
        while i < n
            invariant
                n == self.items@.len(),
                i <= n,
                views(texts@) =~= afip_c_item_texts(self.items@).take(i as int),
            decreases n - i,
        {
            let t = item_text(&self.items[i]);
            let ghost prev = texts@;
            texts.push(t);
            assert(views(texts@) =~= views(prev).push(afip_c_item_text(self.items@[i as int])));
            i = i + 1;
        }
        assert(afip_c_item_texts(self.items@).take(n as int) =~= afip_c_item_texts(self.items@));
        let items_str = join_strings(&texts, ", ");
        let ghost inv = *self;
        let mut out = string_of("#let invoice-data = (\n  emisor: (\n    razon_social: \"");
        push_escaped(&mut out, self.emisor.razon_social.as_str());
        out.append("\",\n    domicilio_comercial: \"");
        push_escaped(&mut out, self.emisor.domicilio_comercial.as_str());
        out.append("\",\n    condicion_iva: \"");
        push_escaped(&mut out, self.emisor.condicion_iva.as_str());
        out.append("\",\n    cuit: \"");
        push_escaped(&mut out, self.emisor.cuit.as_str());
        out.append("\",\n    ingresos_brutos: \"");
        push_escaped(&mut out, self.emisor.ingresos_brutos.as_str());
        out.append("\",\n    inicio_actividades: \"");
        push_escaped(&mut out, self.emisor.inicio_actividades.as_str());
        out.append("\",\n  ),\n  receptor: (\n    nombre: ");
        push_option(&mut out, &self.receptor.nombre);
        out.append(",\n    domicilio: ");
        push_option(&mut out, &self.receptor.domicilio);
        out.append(",\n    condicion_iva: \"");
        push_escaped(&mut out, self.receptor.condicion_iva.as_str());
        out.append("\",\n    condicion_venta: \"");
        push_escaped(&mut out, self.receptor.condicion_venta.as_str());
        out.append("\",\n    documento: ");
        push_option(&mut out, &self.receptor.documento);
        out.append(",\n  ),\n  comprobante: (\n    tipo: \"");
        push_escaped(&mut out, self.comprobante.tipo.as_str());
        out.append("\",\n    codigo: \"");
        push_escaped(&mut out, self.comprobante.codigo.as_str());
        out.append("\",\n    punto_de_venta: \"");
        push_escaped(&mut out, self.comprobante.punto_de_venta.as_str());
        out.append("\",\n    numero: \"");
        push_escaped(&mut out, self.comprobante.numero.as_str());
        out.append("\",\n    fecha_emision: \"");
        push_escaped(&mut out, self.comprobante.fecha_emision.as_str());
        out.append("\",\n    periodo_desde: ");
        push_option(&mut out, &self.comprobante.periodo_desde);
        out.append(",\n    periodo_hasta: ");
        push_option(&mut out, &self.comprobante.periodo_hasta);
        out.append(",\n    fecha_vencimiento: \"");
        push_escaped(&mut out, self.comprobante.fecha_vencimiento.as_str());
        out.append("\",\n  ),\n  items: (");
        out.append(items_str.as_str());
        out.append(",),\n  cae: (\n    numero: \"");
        push_escaped(&mut out, self.cae.numero.as_str());
        out.append("\",\n    vencimiento: \"");
        push_escaped(&mut out, self.cae.vencimiento.as_str());
        out.append("\",\n  ),\n  subtotal: ");
        out.append(subtotal);
        out.append(",\n  otros_tributos: ");
        out.append("0");
        out.append(",\n  total: ");
        out.append(total);
        out.append(",\n)\n");
        out
    }
}

} // verus!
