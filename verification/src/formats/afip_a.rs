//! The AFIP Factura A format (responsable inscripto).
use vstd::prelude::*;

use crate::formats::generic::opt_view;
use crate::text::{join_strings, joined, string_of, views};
use crate::typst::{escaped, push_escaped, push_option, typst_option};

verus! {

/// An AFIP Factura A as read from its TOML config.
pub struct AfipAInvoice {
    pub emisor: Emisor,
    pub receptor: Receptor,
    pub comprobante: Comprobante,
    pub items: Vec<LineItem>,
    pub otros_tributos: Option<Vec<Tributo>>,
    pub cae: Cae,
}

pub struct Emisor {
    pub razon_social: String,
    pub domicilio_comercial: String,
    pub condicion_iva: String,
    pub cuit: String,
    pub ingresos_brutos: String,
    pub inicio_actividades: String,
}

pub struct Receptor {
    pub nombre: Option<String>,
    pub domicilio: Option<String>,
    pub condicion_iva: String,
    pub condicion_venta: String,
    pub cuit: Option<String>,
}

pub struct Comprobante {
    pub tipo: String,
    pub codigo: String,
    pub punto_de_venta: String,
    pub numero: String,
    pub fecha_emision: String,
    pub periodo_desde: Option<String>,
    pub periodo_hasta: Option<String>,
    pub fecha_vencimiento: String,
}

/// One billed line. Quantities, rates and amounts are carried as the decimal
/// text that renders them.
pub struct LineItem {
    pub codigo: String,
    pub descripcion: String,
    pub cantidad: String,
    pub unidad: String,
    pub precio_unitario: String,
    pub bonificacion_porcentaje: String,
    pub subtotal: String,
    pub alicuota_iva: String,
    pub subtotal_con_iva: String,
}

/// Another tax on the invoice; rate and amount as rendered decimal text.
pub struct Tributo {
    pub descripcion: String,
    pub detalle: Option<String>,
    pub alicuota: Option<String>,
    pub importe: String,
}

pub struct Cae {
    pub numero: String,
    pub vencimiento: String,
}

/// The rendered sums of a Factura A: net amount, IVA, other taxes and total.
pub struct AfipATotals {
    pub neto_gravado: String,
    pub total_iva: String,
    pub otros_tributos: String,
    pub total: String,
}

/// The Typst record of one line item.
pub open spec fn afip_a_item_text(item: LineItem) -> Seq<char> {
    "(codigo: \""@
        + escaped(item.codigo@)
        + "\", descripcion: \""@
        + escaped(item.descripcion@)
        + "\", cantidad: "@
        + item.cantidad@
        + ", unidad: \""@
        + escaped(item.unidad@)
        + "\", precio_unitario: "@
        + item.precio_unitario@
        + ", bonif_pct: "@
        + item.bonificacion_porcentaje@
        + ", subtotal: "@
        + item.subtotal@
        + ", alicuota_iva: "@
        + item.alicuota_iva@
        + ", subtotal_con_iva: "@
        + item.subtotal_con_iva@
        + ")"@
}

pub open spec fn afip_a_item_texts(items: Seq<LineItem>) -> Seq<Seq<char>> {
    Seq::new(items.len(), |i: int| afip_a_item_text(items[i]))
}

/// An optional rate: its text, or `none`.
pub open spec fn alicuota_text(a: Option<String>) -> Seq<char> {
    match a {
        Some(s) => s@,
        None => "none"@,
    }
}

/// The Typst record of one other tax.
pub open spec fn tributo_text(t: Tributo) -> Seq<char> {
    "(descripcion: \""@
        + escaped(t.descripcion@)
        + "\", detalle: "@
        + typst_option(opt_view(t.detalle))
        + ", alicuota: "@
        + alicuota_text(t.alicuota)
        + ", importe: "@
        + t.importe@
        + ")"@
}

/// The records of the other taxes; none when there are none.
pub open spec fn tributo_texts(ts: Option<Vec<Tributo>>) -> Seq<Seq<char>> {
    match ts {
        Some(v) => Seq::new(v@.len(), |i: int| tributo_text(v@[i])),
        None => seq![],
    }
}

/// The Typst data definition of a Factura A with the given rendered totals.
pub open spec fn afip_a_doc(inv: AfipAInvoice, totals: AfipATotals) -> Seq<char> {
    "#let invoice-data = (\n  emisor: (\n    razon_social: \""@
        + escaped(inv.emisor.razon_social@)
        + "\",\n    domicilio_comercial: \""@
        + escaped(inv.emisor.domicilio_comercial@)
        + "\",\n    condicion_iva: \""@
        + escaped(inv.emisor.condicion_iva@)
        + "\",\n    cuit: \""@
        + escaped(inv.emisor.cuit@)
        + "\",\n    ingresos_brutos: \""@
        + escaped(inv.emisor.ingresos_brutos@)
        + "\",\n    inicio_actividades: \""@
        + escaped(inv.emisor.inicio_actividades@)
        + "\",\n  ),\n  receptor: (\n    nombre: "@
        + typst_option(opt_view(inv.receptor.nombre))
        + ",\n    domicilio: "@
        + typst_option(opt_view(inv.receptor.domicilio))
        + ",\n    condicion_iva: \""@
        + escaped(inv.receptor.condicion_iva@)
        + "\",\n    condicion_venta: \""@
        + escaped(inv.receptor.condicion_venta@)
        + "\",\n    cuit: "@
        + typst_option(opt_view(inv.receptor.cuit))
        + ",\n  ),\n  comprobante: (\n    tipo: \""@
        + escaped(inv.comprobante.tipo@)
        + "\",\n    codigo: \""@
        + escaped(inv.comprobante.codigo@)
        + "\",\n    punto_de_venta: \""@
        + escaped(inv.comprobante.punto_de_venta@)
        + "\",\n    numero: \""@
        + escaped(inv.comprobante.numero@)
        + "\",\n    fecha_emision: \""@
        + escaped(inv.comprobante.fecha_emision@)
        + "\",\n    periodo_desde: "@
        + typst_option(opt_view(inv.comprobante.periodo_desde))
        + ",\n    periodo_hasta: "@
        + typst_option(opt_view(inv.comprobante.periodo_hasta))
        + ",\n    fecha_vencimiento: \""@
        + escaped(inv.comprobante.fecha_vencimiento@)
        + "\",\n  ),\n  items: ("@
        + joined(afip_a_item_texts(inv.items@), ", "@)
        + ",),\n  otros_tributos: ("@
        + joined(tributo_texts(inv.otros_tributos), ", "@)
        + ",),\n  cae: (\n    numero: \""@
        + escaped(inv.cae.numero@)
        + "\",\n    vencimiento: \""@
        + escaped(inv.cae.vencimiento@)
        + "\",\n  ),\n  totales: (\n    neto_gravado: "@
        + totals.neto_gravado@
        + ",\n    iva_27: 0.0,\n    iva_21: "@
        + totals.total_iva@
        + ",\n    iva_10_5: 0.0,\n    iva_5: 0.0,\n    iva_2_5: 0.0,\n    iva_0: 0.0,\n    otros_tributos: "@
        + totals.otros_tributos@
        + ",\n    total: "@
        + totals.total@
        + ",\n  ),\n)\n"@
}

fn item_text(item: &LineItem) -> (r: String)
    ensures
        r@ == afip_a_item_text(*item),
{
    let mut out = string_of("(codigo: \"");
    push_escaped(&mut out, item.codigo.as_str());
    out.append("\", descripcion: \"");
    push_escaped(&mut out, item.descripcion.as_str());
    out.append("\", cantidad: ");
    out.append(item.cantidad.as_str());
    out.append(", unidad: \"");
    push_escaped(&mut out, item.unidad.as_str());
    out.append("\", precio_unitario: ");
    out.append(item.precio_unitario.as_str());
    out.append(", bonif_pct: ");
    out.append(item.bonificacion_porcentaje.as_str());
    out.append(", subtotal: ");
    out.append(item.subtotal.as_str());
    out.append(", alicuota_iva: ");
    out.append(item.alicuota_iva.as_str());
    out.append(", subtotal_con_iva: ");
    out.append(item.subtotal_con_iva.as_str());
    out.append(")");
    out
}

fn tributo_record(t: &Tributo) -> (r: String)
    ensures
        r@ == tributo_text(*t),
{
    let alicuota = match &t.alicuota {
        Some(a) => string_of(a.as_str()),
        None => string_of("none"),
    };
    let mut out = string_of("(descripcion: \"");
    push_escaped(&mut out, t.descripcion.as_str());
    out.append("\", detalle: ");
    push_option(&mut out, &t.detalle);
    out.append(", alicuota: ");
    out.append(alicuota.as_str());
    out.append(", importe: ");
    out.append(t.importe.as_str());
    out.append(")");
    out
}

fn tributos_text(ts: &Option<Vec<Tributo>>) -> (r: String)
    ensures
        r@ == joined(tributo_texts(*ts), ", "@),
{
    let mut texts: Vec<String> = Vec::new();
    match ts {
        Some(v) => {
            let n = v.len();
            let mut i: usize = 0;
            while i < n
                invariant
                    n == v@.len(),
                    i <= n,
                    views(texts@) =~= tributo_texts(*ts).take(i as int),
                    *ts == Some(*v),
                decreases n - i,
            {
                let t = tributo_record(&v[i]);
                let ghost prev = texts@;
                texts.push(t);
                assert(views(texts@) =~= views(prev).push(tributo_text(v@[i as int])));
                i = i + 1;
            }
            assert(tributo_texts(*ts).take(n as int) =~= tributo_texts(*ts));
        },
        None => {
            assert(views(texts@) =~= tributo_texts(*ts));
        },
    }
    join_strings(&texts, ", ")
}

impl AfipAInvoice {
    /// Renders the invoice as a Typst `invoice-data` definition with the
    /// given rendered totals.
    pub fn to_typst_dict(&self, totals: &AfipATotals) -> (r: String)
        ensures
            r@ == afip_a_doc(*self, *totals),
    {
        let mut texts: Vec<String> = Vec::new();
        let n = self.items.len();
        let mut i: usize = 0;
        while i < n
            invariant
                n == self.items@.len(),
                i <= n,
                views(texts@) =~= afip_a_item_texts(self.items@).take(i as int),
            decreases n - i,
        {
            let t = item_text(&self.items[i]);
            let ghost prev = texts@;
            texts.push(t);
            assert(views(texts@) =~= views(prev).push(afip_a_item_text(self.items@[i as int])));
            i = i + 1;
        }
        assert(afip_a_item_texts(self.items@).take(n as int) =~= afip_a_item_texts(self.items@));
        let items_str = join_strings(&texts, ", ");
        let tributos_str = tributos_text(&self.otros_tributos);
        let ghost inv = *self;
        let mut out = string_of("#let invoice-data = (\n  emisor: (\n    razon_social: \"");
        push_escaped(&mut out, self.emisor.razon_social.as_str());
        out.append("\",\n    domicilio_comercial: \"");
        push_escaped(&mut out, self.emisor.domicilio_comercial.as_str());
        out.append("\",\n    condicion_iva: \"");
        push_escaped(&mut out, self.emisor.condicion_iva.as_str());
        out.append("\",\n    cuit: \"");
        push_escaped(&mut out, self.emisor.cuit.as_str());
        out.append("\",\n    ingresos_brutos: \"");
        push_escaped(&mut out, self.emisor.ingresos_brutos.as_str());
        out.append("\",\n    inicio_actividades: \"");
        push_escaped(&mut out, self.emisor.inicio_actividades.as_str());
        out.append("\",\n  ),\n  receptor: (\n    nombre: ");
        push_option(&mut out, &self.receptor.nombre);
        out.append(",\n    domicilio: ");
        push_option(&mut out, &self.receptor.domicilio);
        out.append(",\n    condicion_iva: \"");
        push_escaped(&mut out, self.receptor.condicion_iva.as_str());
        out.append("\",\n    condicion_venta: \"");
        push_escaped(&mut out, self.receptor.condicion_venta.as_str());
        out.append("\",\n    cuit: ");
        push_option(&mut out, &self.receptor.cuit);
        out.append(",\n  ),\n  comprobante: (\n    tipo: \"");
        push_escaped(&mut out, self.comprobante.tipo.as_str());
        out.append("\",\n    codigo: \"");
        push_escaped(&mut out, self.comprobante.codigo.as_str());
        out.append("\",\n    punto_de_venta: \"");
        push_escaped(&mut out, self.comprobante.punto_de_venta.as_str());
        out.append("\",\n    numero: \"");
        push_escaped(&mut out, self.comprobante.numero.as_str());
        out.append("\",\n    fecha_emision: \"");
        push_escaped(&mut out, self.comprobante.fecha_emision.as_str());
        out.append("\",\n    periodo_desde: ");
        push_option(&mut out, &self.comprobante.periodo_desde);
        out.append(",\n    periodo_hasta: ");
        push_option(&mut out, &self.comprobante.periodo_hasta);
        out.append(",\n    fecha_vencimiento: \"");
        push_escaped(&mut out, self.comprobante.fecha_vencimiento.as_str());
        out.append("\",\n  ),\n  items: (");
        out.append(items_str.as_str());
        out.append(",),\n  otros_tributos: (");
        out.append(tributos_str.as_str());
        out.append(",),\n  cae: (\n    numero: \"");
        push_escaped(&mut out, self.cae.numero.as_str());
        out.append("\",\n    vencimiento: \"");
        push_escaped(&mut out, self.cae.vencimiento.as_str());
        out.append("\",\n  ),\n  totales: (\n    neto_gravado: ");
        out.append(totals.neto_gravado.as_str());
        out.append(",\n    iva_27: 0.0,\n    iva_21: ");
        out.append(totals.total_iva.as_str());
        out.append(",\n    iva_10_5: 0.0,\n    iva_5: 0.0,\n    iva_2_5: 0.0,\n    iva_0: 0.0,\n    otros_tributos: ");
        out.append(totals.otros_tributos.as_str());
        out.append(",\n    total: ");
        out.append(totals.total.as_str());
        out.append(",\n  ),\n)\n");
        out
    }
}

} // verus!
