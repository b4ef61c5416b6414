//! WSFEv1 — Web Service de Facturación Electrónica.
//!
//! Two calls are needed to issue a voucher: `FECompUltimoAutorizado` to learn
//! the last authorized number, and `FECAESolicitar` to request the CAE for the
//! next one. This module writes the SOAP requests and reads the replies; the
//! replies reach it after `check_soap_fault` has accepted them.
use vstd::prelude::*;

use crate::afip::error::AfipError;
use crate::afip::types::{
    concepto_code, doc_tipo_code, needs_service_dates, voucher_code, CaeResult, FacturaC,
    VoucherInfo, VoucherType,
};
use crate::afip::wsaa::Credentials;
use crate::afip::xml::{
    first_text_in, first_text_of, nodes_view, parse_xml, parsed_xml, records_in, records_of,
    records_view, XmlNode, XmlNodeView,
};
use crate::formats::generic::opt_view;
use crate::overrides::{float_text, is_float_text};
use crate::text::{
    decimal, has_infix, join_strings, joined, lemma_infix, parse_u16, parse_u32, parse_u64, parse_unsigned, push_decimal,
    str_eq, string_of, views,
};

verus! {

/// SOAP `Auth` block inputs.
pub struct Auth<'a> {
    pub token: &'a str,
    pub sign: &'a str,
    pub cuit: u64,
}

/// The SOAP `Auth` block. Token and sign are ARCA's own base64 text and are
/// written as they are.
pub open spec fn auth_xml(token: Seq<char>, sign: Seq<char>, cuit: u64) -> Seq<char> {
    "<ar:Auth><ar:Token>"@
        + token
        + "</ar:Token><ar:Sign>"@
        + sign
        + "</ar:Sign><ar:Cuit>"@
        + decimal(cuit as nat)
        + "</ar:Cuit></ar:Auth>"@
}

impl<'a> Auth<'a> {
    pub fn xml(&self) -> (r: String)
        ensures
            r@ == auth_xml(self.token@, self.sign@, self.cuit),
    {
        let mut out = string_of("<ar:Auth><ar:Token>");
        out.append(self.token);
        out.append("</ar:Token><ar:Sign>");
        out.append(self.sign);
        out.append("</ar:Sign><ar:Cuit>");
        push_decimal(&mut out, self.cuit as u64);
        out.append("</ar:Cuit></ar:Auth>");
        out
    }
}

// ---------------------------------------------------------------------------
// Reading error and observation records
// ---------------------------------------------------------------------------

/// The value of the first field named `k`, or empty.
pub open spec fn field_of(fields: Seq<(Seq<char>, Seq<char>)>, k: Seq<char>) -> Seq<char>
    decreases fields.len(),
{
    if fields.len() == 0 {
        seq![]
    } else if fields[0].0 == k {
        fields[0].1
    } else {
        field_of(fields.drop_first(), k)
    }
}

/// `[Code] Msg` of one `<Err>` or `<Obs>` record.
pub open spec fn record_line(fields: Seq<(Seq<char>, Seq<char>)>) -> Seq<char> {
    "["@ + field_of(fields, "Code"@) + "] "@ + field_of(fields, "Msg"@)
}

pub open spec fn record_lines(recs: Seq<Seq<(Seq<char>, Seq<char>)>>) -> Seq<Seq<char>> {
    Seq::new(recs.len(), |i: int| record_line(recs[i]))
}

/// The records as one readable line, `None` when there are none.
pub open spec fn error_summary(recs: Seq<Seq<(Seq<char>, Seq<char>)>>) -> Option<Seq<char>> {
    if recs.len() == 0 {
        None
    } else {
        Some(joined(record_lines(recs), "; "@))
    }
}

/// The nodes of a reply; none when it does not parse.
pub open spec fn reply_nodes(xml: Seq<char>) -> Seq<XmlNodeView> {
    match parsed_xml(xml) {
        Some(ns) => ns,
        None => seq![],
    }
}

/// The `<Err>` records of a reply, summarized.
pub open spec fn reply_errors(ns: Seq<XmlNodeView>) -> Option<Seq<char>> {
    error_summary(records_in(ns, ns, "Err"@))
}

pub open spec fn opt_seq(o: Option<String>) -> Option<Seq<char>> {
    opt_view(o)
}

fn field_value(fields: &Vec<(String, String)>, k: &str) -> (r: String)
    ensures
        r@ == field_of(crate::afip::xml::fields_view(fields@), k@),
{
    let ghost fv = crate::afip::xml::fields_view(fields@);
    let n = fields.len();
    let mut i: usize = 0;
    assert(fv.skip(0) =~= fv);
    while i < n
        invariant
            n == fields@.len(),
            fv == crate::afip::xml::fields_view(fields@),
            i <= n,
            field_of(fv, k@) == field_of(fv.skip(i as int), k@),
        decreases n - i,
    {
        assert(fv.skip(i as int)[0] == (fields@[i as int].0@, fields@[i as int].1@));
        if str_eq(fields[i].0.as_str(), k) {
            return string_of(fields[i].1.as_str());
        }
        assert(fv.skip(i as int).drop_first() =~= fv.skip(i + 1));
        i = i + 1;
    }
    assert(fv.skip(n as int).len() == 0);
    String::new()
}

fn record_line_of(fields: &Vec<(String, String)>) -> (r: String)
    ensures
        r@ == record_line(crate::afip::xml::fields_view(fields@)),
{
    let mut out = string_of("[");
    let code = field_value(fields, "Code");
    out.append(code.as_str());
    out.append("] ");
    let msg = field_value(fields, "Msg");
    out.append(msg.as_str());
    out
}

fn record_lines_of(recs: &Vec<Vec<(String, String)>>) -> (r: Vec<String>)
    ensures
        views(r@) == record_lines(records_view(recs@)),
{
    let mut lines: Vec<String> = Vec::new();
    let n = recs.len();
    let mut i: usize = 0;
    while i < n
        invariant
            n == recs@.len(),
            i <= n,
            views(lines@) =~= record_lines(records_view(recs@)).take(i as int),
        decreases n - i,
    {
        let line = record_line_of(&recs[i]);
        let ghost prev = lines@;
        lines.push(line);
        assert(views(lines@) =~= views(prev).push(record_line(records_view(recs@)[i as int])));
        i = i + 1;
    }
    assert(record_lines(records_view(recs@)).take(n as int) =~= record_lines(records_view(recs@)));
    lines
}

/// `[Code] Msg` of each record, joined by `; `; `None` when there are none.
pub fn format_error_records(recs: &Vec<Vec<(String, String)>>) -> (r: Option<String>)
    ensures
        opt_seq(r) == error_summary(records_view(recs@)),
{
    if recs.len() == 0 {
        return None;
    }
    let lines = record_lines_of(recs);
    Some(join_strings(&lines, "; "))
}

/// Collect `<Errors><Err><Code/><Msg/>` records into a readable string.
pub fn collect_errors_of(nodes: &Vec<XmlNode>) -> (r: Option<String>)
    ensures
        opt_seq(r) == reply_errors(nodes_view(nodes@)),
{
    let recs = records_of(nodes, "Err");
    format_error_records(&recs)
}

/// Collect `<Errors><Err><Code/><Msg/>` records of a reply into a readable
/// string.
pub fn collect_errors(xml_str: &str) -> (r: Option<String>)
    ensures
        opt_seq(r) == reply_errors(reply_nodes(xml_str@)),
{
    match parse_xml(xml_str) {
        Ok(nodes) => collect_errors_of(&nodes),
        Err(_) => {
            let empty: Vec<XmlNode> = Vec::new();
            assert(nodes_view(empty@) =~= Seq::<XmlNodeView>::empty());
            collect_errors_of(&empty)
        },
    }
}

fn nodes_of(xml: &str) -> (r: Vec<XmlNode>)
    ensures
        nodes_view(r@) == reply_nodes(xml@),
{
    match parse_xml(xml) {
        Ok(nodes) => nodes,
        Err(_) => {
            let empty: Vec<XmlNode> = Vec::new();
            assert(nodes_view(empty@) =~= Seq::<XmlNodeView>::empty());
            empty
        },
    }
}

// ---------------------------------------------------------------------------
// FECompUltimoAutorizado
// ---------------------------------------------------------------------------

/// The `FECompUltimoAutorizado` request.
pub open spec fn last_voucher_doc(creds: Credentials, cuit: u64, punto_venta: u32, tipo: VoucherType) -> Seq<char> {
    "<?xml version=\"1.0\" encoding=\"utf-8\"?>\n<soapenv:Envelope xmlns:soapenv=\"http://schemas.xmlsoap.org/soap/envelope/\" xmlns:ar=\"http://ar.gov.afip.dif.FEV1/\">\n  <soapenv:Header/>\n  <soapenv:Body>\n    <ar:FECompUltimoAutorizado>\n      "@
        + auth_xml(creds.token@, creds.sign@, cuit)
        + "\n      <ar:PtoVta>"@
        + decimal(punto_venta as nat)
        + "</ar:PtoVta>\n      <ar:CbteTipo>"@
        + decimal(voucher_code(tipo) as nat)
        + "</ar:CbteTipo>\n    </ar:FECompUltimoAutorizado>\n  </soapenv:Body>\n</soapenv:Envelope>"@
}

/// `FECompUltimoAutorizado` request for the last authorized voucher number
/// of `tipo` at `punto_venta`.
pub fn last_voucher_request(creds: &Credentials, cuit: u64, punto_venta: u32, tipo: VoucherType) -> (r: String)
    ensures
        r@ == last_voucher_doc(*creds, cuit, punto_venta, tipo),
{
    let a = Auth { token: creds.token.as_str(), sign: creds.sign.as_str(), cuit };
    let auth = a.xml();
    let mut out = string_of("<?xml version=\"1.0\" encoding=\"utf-8\"?>\n<soapenv:Envelope xmlns:soapenv=\"http://schemas.xmlsoap.org/soap/envelope/\" xmlns:ar=\"http://ar.gov.afip.dif.FEV1/\">\n  <soapenv:Header/>\n  <soapenv:Body>\n    <ar:FECompUltimoAutorizado>\n      ");
    out.append(auth.as_str());
    out.append("\n      <ar:PtoVta>");
    push_decimal(&mut out, punto_venta as u64);
    out.append("</ar:PtoVta>\n      <ar:CbteTipo>");
    push_decimal(&mut out, tipo.code() as u64);
    out.append("</ar:CbteTipo>\n    </ar:FECompUltimoAutorizado>\n  </soapenv:Body>\n</soapenv:Envelope>");
    out
}

/// What a `FECompUltimoAutorizado` reply means: its errors, else the voucher
/// number it carries.
pub open spec fn last_voucher_outcome(errors: Option<Seq<char>>, nro: Option<Seq<char>>, r: Result<u64, AfipError>) -> bool {
    match errors {
        Some(e) => r matches Err(AfipError::Wsfe(m)) && m@ == "FECompUltimoAutorizado: "@ + e,
        None => match nro {
            None => r matches Err(AfipError::MissingField(f)) && f@ == "CbteNro"@,
            Some(t) => match parse_unsigned(t, u64::MAX as nat) {
                Some(v) => r matches Ok(x) && x == v,
                None => r matches Err(AfipError::MissingField(f)) && f@ == "CbteNro"@,
            },
        },
    }
}

/// The last authorized voucher number, given the reply's error summary and
/// its `CbteNro` text.
pub fn last_voucher_from(errors: Option<String>, cbte_nro: Option<String>) -> (r: Result<u64, AfipError>)
    ensures
        last_voucher_outcome(opt_seq(errors), opt_seq(cbte_nro), r),
{
    if let Some(errs) = errors {
        let mut m = string_of("FECompUltimoAutorizado: ");
        m.append(errs.as_str());
        return Err(AfipError::Wsfe(m));
    }
    let nro = match cbte_nro {
        Some(n) => n,
        None => return Err(AfipError::MissingField("CbteNro")),
    };
    match parse_u64(nro.as_str()) {
        Some(v) => Ok(v),
        None => Err(AfipError::MissingField("CbteNro")),
    }
}

/// Reads a `FECompUltimoAutorizado` reply. Returns 0 when no voucher exists
/// yet.
pub fn read_last_voucher(resp: &str) -> (r: Result<u64, AfipError>)
    ensures
        last_voucher_outcome(
            reply_errors(reply_nodes(resp@)),
            first_text_in(reply_nodes(resp@), "CbteNro"@),
            r,
        ),
{
    let nodes = nodes_of(resp);
    let errors = collect_errors_of(&nodes);
    let nro = first_text_of(&nodes, "CbteNro");
    last_voucher_from(errors, nro)
}

// ---------------------------------------------------------------------------
// FECompConsultar
// ---------------------------------------------------------------------------

/// The `FECompConsultar` request.
pub open spec fn get_voucher_doc(creds: Credentials, cuit: u64, punto_venta: u32, tipo: VoucherType, numero: u64) -> Seq<char> {
    "<?xml version=\"1.0\" encoding=\"utf-8\"?>\n<soapenv:Envelope xmlns:soapenv=\"http://schemas.xmlsoap.org/soap/envelope/\" xmlns:ar=\"http://ar.gov.afip.dif.FEV1/\">\n  <soapenv:Header/>\n  <soapenv:Body>\n    <ar:FECompConsultar>\n      "@
        + auth_xml(creds.token@, creds.sign@, cuit)
        + "\n      <ar:FeCompConsReq>\n        <ar:CbteTipo>"@
        + decimal(voucher_code(tipo) as nat)
        + "</ar:CbteTipo>\n        <ar:CbteNro>"@
        + decimal(numero as nat)
        + "</ar:CbteNro>\n        <ar:PtoVta>"@
        + decimal(punto_venta as nat)
        + "</ar:PtoVta>\n      </ar:FeCompConsReq>\n    </ar:FECompConsultar>\n  </soapenv:Body>\n</soapenv:Envelope>"@
}

/// `FECompConsultar` request for voucher `numero`.
pub fn get_voucher_request(creds: &Credentials, cuit: u64, punto_venta: u32, tipo: VoucherType, numero: u64) -> (r: String)
    ensures
        r@ == get_voucher_doc(*creds, cuit, punto_venta, tipo, numero),
{
    let a = Auth { token: creds.token.as_str(), sign: creds.sign.as_str(), cuit };
    let auth = a.xml();
    let mut out = string_of("<?xml version=\"1.0\" encoding=\"utf-8\"?>\n<soapenv:Envelope xmlns:soapenv=\"http://schemas.xmlsoap.org/soap/envelope/\" xmlns:ar=\"http://ar.gov.afip.dif.FEV1/\">\n  <soapenv:Header/>\n  <soapenv:Body>\n    <ar:FECompConsultar>\n      ");
    out.append(auth.as_str());
    out.append("\n      <ar:FeCompConsReq>\n        <ar:CbteTipo>");
    push_decimal(&mut out, tipo.code() as u64);
    out.append("</ar:CbteTipo>\n        <ar:CbteNro>");
    push_decimal(&mut out, numero as u64);
    out.append("</ar:CbteNro>\n        <ar:PtoVta>");
    push_decimal(&mut out, punto_venta as u64);
    out.append("</ar:PtoVta>\n      </ar:FeCompConsReq>\n    </ar:FECompConsultar>\n  </soapenv:Body>\n</soapenv:Envelope>");
    out
}

/// The number in field `k` when it reads as an integer up to `max`, else 0.
pub open spec fn number_field(ns: Seq<XmlNodeView>, k: Seq<char>, max: nat) -> nat {
    match first_text_in(ns, k) {
        Some(t) => match parse_unsigned(t, max) {
            Some(v) => v,
            None => 0,
        },
        None => 0,
    }
}

/// The amount in field `k` when it reads as a float, else `0`.
pub open spec fn amount_field(ns: Seq<XmlNodeView>, k: Seq<char>) -> Seq<char> {
    match first_text_in(ns, k) {
        Some(t) => if float_text(t) {
            t
        } else {
            "0"@
        },
        None => "0"@,
    }
}

/// Field `k` when present and not empty.
pub open spec fn nonempty_field(ns: Seq<XmlNodeView>, k: Seq<char>) -> Option<Seq<char>> {
    match first_text_in(ns, k) {
        Some(t) => if t.len() > 0 {
            Some(t)
        } else {
            None
        },
        None => None,
    }
}

/// Field `k`, or empty.
pub open spec fn text_field(ns: Seq<XmlNodeView>, k: Seq<char>) -> Seq<char> {
    match first_text_in(ns, k) {
        Some(t) => t,
        None => seq![],
    }
}

/// What a `FECompConsultar` reply means.
pub open spec fn voucher_outcome(ns: Seq<XmlNodeView>, tipo: VoucherType, punto_venta: u32, numero: u64, r: Result<VoucherInfo, AfipError>) -> bool {
    match reply_errors(ns) {
        Some(e) => r matches Err(AfipError::Wsfe(m)) && m@ == "FECompConsultar #"@ + decimal(
            numero as nat,
        ) + ": "@ + e,
        None => r matches Ok(v) && {
            &&& v.numero == numero
            &&& v.tipo == voucher_code(tipo)
            &&& v.punto_venta == punto_venta
            &&& v.fecha == number_field(ns, "CbteFch"@, u32::MAX as nat)
            &&& v.importe_total@ == amount_field(ns, "ImpTotal"@)
            &&& v.doc_tipo == number_field(ns, "DocTipo"@, u16::MAX as nat)
            &&& v.doc_nro == number_field(ns, "DocNro"@, u64::MAX as nat)
            &&& opt_seq(v.cae) == nonempty_field(ns, "CodAutorizacion"@)
            &&& opt_seq(v.cae_vencimiento) == nonempty_field(ns, "FchVto"@)
            &&& v.resultado@ == text_field(ns, "Resultado"@)
        },
    }
}

fn number_field_of(nodes: &Vec<XmlNode>, k: &str, max: u64) -> (r: u64)
    requires
        max == u16::MAX || max == u32::MAX || max == u64::MAX,
    ensures
        r == number_field(nodes_view(nodes@), k@, max as nat),
{
    match first_text_of(nodes, k) {
        Some(t) => {
            if max == u16::MAX as u64 {
                match parse_u16(t.as_str()) {
                    Some(v) => v as u64,
                    None => 0,
                }
            } else if max == u32::MAX as u64 {
                match parse_u32(t.as_str()) {
                    Some(v) => v as u64,
                    None => 0,
                }
            } else {
                match parse_u64(t.as_str()) {
                    Some(v) => v,
                    None => 0,
                }
            }
        },
        None => 0,
    }
}

fn nonempty_field_of(nodes: &Vec<XmlNode>, k: &str) -> (r: Option<String>)
    ensures
        opt_seq(r) == nonempty_field(nodes_view(nodes@), k@),
{
    match first_text_of(nodes, k) {
        Some(t) => if t.as_str().unicode_len() > 0 {
            Some(t)
        } else {
            None
        },
        None => None,
    }
}

fn text_field_of(nodes: &Vec<XmlNode>, k: &str) -> (r: String)
    ensures
        r@ == text_field(nodes_view(nodes@), k@),
{
    match first_text_of(nodes, k) {
        Some(t) => t,
        None => String::new(),
    }
}

/// The voucher described by a parsed `FECompConsultar` reply.
pub fn voucher_from_nodes(nodes: &Vec<XmlNode>, tipo: VoucherType, punto_venta: u32, numero: u64) -> (r: Result<VoucherInfo, AfipError>)
    ensures
        voucher_outcome(nodes_view(nodes@), tipo, punto_venta, numero, r),
{
    if let Some(errs) = collect_errors_of(nodes) {
        let mut m = string_of("FECompConsultar #");
        push_decimal(&mut m, numero);
        m.append(": ");
        m.append(errs.as_str());
        return Err(AfipError::Wsfe(m));
    }
    let fecha = number_field_of(nodes, "CbteFch", u32::MAX as u64);
    let importe_total = match first_text_of(nodes, "ImpTotal") {
        Some(t) => if is_float_text(t.as_str()) {
            t
        } else {
            string_of("0")
        },
        None => string_of("0"),
    };
    let doc_tipo = number_field_of(nodes, "DocTipo", u16::MAX as u64);
    let doc_nro = number_field_of(nodes, "DocNro", u64::MAX);
    Ok(VoucherInfo {
        numero,
        tipo: tipo.code(),
        punto_venta,
        fecha: fecha as u32,
        importe_total,
        doc_tipo: doc_tipo as u16,
        doc_nro,
        cae: nonempty_field_of(nodes, "CodAutorizacion"),
        cae_vencimiento: nonempty_field_of(nodes, "FchVto"),
        resultado: text_field_of(nodes, "Resultado"),
    })
}

/// Reads a `FECompConsultar` reply.
pub fn read_voucher(resp: &str, tipo: VoucherType, punto_venta: u32, numero: u64) -> (r: Result<VoucherInfo, AfipError>)
    ensures
        voucher_outcome(reply_nodes(resp@), tipo, punto_venta, numero, r),
{
    let nodes = nodes_of(resp);
    voucher_from_nodes(&nodes, tipo, punto_venta, numero)
}

// ---------------------------------------------------------------------------
// FECAESolicitar
// ---------------------------------------------------------------------------

/// The voucher date: the one given, else today's.
pub open spec fn resolved_fecha(f: FacturaC, today: u32) -> u32 {
    match f.fecha {
        Some(d) => d,
        None => today,
    }
}

pub open spec fn date_or(d: Option<u32>, fecha: u32) -> u32 {
    match d {
        Some(x) => x,
        None => fecha,
    }
}

/// The service-period and payment-due dates, sent only for service concepts;
/// each defaults to the voucher date.
pub open spec fn service_dates_xml(f: FacturaC, fecha: u32) -> Seq<char> {
    if needs_service_dates(f.concepto) {
        let desde = date_or(f.fecha_servicio_desde, fecha);
        let hasta = date_or(f.fecha_servicio_hasta, fecha);
        let vto = date_or(f.fecha_vto_pago, fecha);
        "<ar:FchServDesde>"@
        + decimal(desde as nat)
        + "</ar:FchServDesde><ar:FchServHasta>"@
        + decimal(hasta as nat)
        + "</ar:FchServHasta><ar:FchVtoPago>"@
        + decimal(vto as nat)
        + "</ar:FchVtoPago>"@
    } else {
        seq![]
    }
}

/// The `FECAESolicitar` request for one Factura C numbered `numero` dated
/// `fecha`; the net amount equals the total.
pub open spec fn cae_request_doc(creds: Credentials, cuit: u64, punto_venta: u32, numero: u64, factura: FacturaC, fecha: u32) -> Seq<char> {
    "<?xml version=\"1.0\" encoding=\"utf-8\"?>\n<soapenv:Envelope xmlns:soapenv=\"http://schemas.xmlsoap.org/soap/envelope/\" xmlns:ar=\"http://ar.gov.afip.dif.FEV1/\">\n  <soapenv:Header/>\n  <soapenv:Body>\n    <ar:FECAESolicitar>\n      "@
        + auth_xml(creds.token@, creds.sign@, cuit)
        + "\n      <ar:FeCAEReq>\n        <ar:FeCabReq>\n          <ar:CantReg>1</ar:CantReg>\n          <ar:PtoVta>"@
        + decimal(punto_venta as nat)
        + "</ar:PtoVta>\n          <ar:CbteTipo>"@
        + decimal(11u16 as nat)
        + "</ar:CbteTipo>\n        </ar:FeCabReq>\n        <ar:FeDetReq>\n          <ar:FECAEDetRequest>\n            <ar:Concepto>"@
        + decimal(concepto_code(factura.concepto) as nat)
        + "</ar:Concepto>\n            <ar:DocTipo>"@
        + decimal(doc_tipo_code(factura.doc_tipo) as nat)
        + "</ar:DocTipo>\n            <ar:DocNro>"@
        + decimal(factura.doc_nro as nat)
        + "</ar:DocNro>\n            <ar:CbteDesde>"@
        + decimal(numero as nat)
        + "</ar:CbteDesde>\n            <ar:CbteHasta>"@
        + decimal(numero as nat)
        + "</ar:CbteHasta>\n            <ar:CbteFch>"@
        + decimal(fecha as nat)
        + "</ar:CbteFch>\n            <ar:ImpTotal>"@
        + factura.importe_total@
        + "</ar:ImpTotal>\n            <ar:ImpTotConc>0.00</ar:ImpTotConc>\n            <ar:ImpNeto>"@
        + factura.importe_total@
        + "</ar:ImpNeto>\n            <ar:ImpOpEx>0.00</ar:ImpOpEx>\n            <ar:ImpIVA>0.00</ar:ImpIVA>\n            <ar:ImpTrib>0.00</ar:ImpTrib>\n            "@
        + service_dates_xml(factura, fecha)
        + "\n            <ar:MonId>PES</ar:MonId>\n            <ar:MonCotiz>1</ar:MonCotiz>\n            <ar:CondicionIVAReceptorId>"@
        + decimal(factura.condicion_iva_receptor as nat)
        + "</ar:CondicionIVAReceptorId>\n          </ar:FECAEDetRequest>\n        </ar:FeDetReq>\n      </ar:FeCAEReq>\n    </ar:FECAESolicitar>\n  </soapenv:Body>\n</soapenv:Envelope>"@
}

/// A service voucher's request sends as its payment-due date (`FchVtoPago`)
/// the factura's payment-due date, or the voucher date when it has none;
/// the service period's end does not stand in for it.
pub proof fn law_payment_due_date(
    creds: Credentials,
    cuit: u64,
    punto_venta: u32,
    numero: u64,
    factura: FacturaC,
    fecha: u32,
)
    requires
        needs_service_dates(factura.concepto),
    ensures
        has_infix(
            cae_request_doc(creds, cuit, punto_venta, numero, factura, fecha),
            "<ar:FchVtoPago>"@ + decimal(
                (match factura.fecha_vto_pago {
                    Some(d) => d,
                    None => fecha,
                }) as nat,
            ) + "</ar:FchVtoPago>"@,
        ),
{
    reveal_strlit("</ar:FchServHasta><ar:FchVtoPago>");
    reveal_strlit("</ar:FchServHasta>");
    reveal_strlit("<ar:FchVtoPago>");
    let vto: u32 = match factura.fecha_vto_pago {
        Some(d) => d,
        None => fecha,
    };
    let t = "<ar:FchVtoPago>"@ + decimal(vto as nat) + "</ar:FchVtoPago>"@;
    let desde = date_or(factura.fecha_servicio_desde, fecha);
    let hasta = date_or(factura.fecha_servicio_hasta, fecha);
    let head = "<ar:FchServDesde>"@ + decimal(desde as nat) + "</ar:FchServDesde><ar:FchServHasta>"@
        + decimal(hasta as nat) + "</ar:FchServHasta>"@;
    assert("</ar:FchServHasta><ar:FchVtoPago>"@ =~= "</ar:FchServHasta>"@ + "<ar:FchVtoPago>"@);
    assert(service_dates_xml(factura, fecha) =~= head + t);
    let pre = "<?xml version=\"1.0\" encoding=\"utf-8\"?>\n<soapenv:Envelope xmlns:soapenv=\"http://schemas.xmlsoap.org/soap/envelope/\" xmlns:ar=\"http://ar.gov.afip.dif.FEV1/\">\n  <soapenv:Header/>\n  <soapenv:Body>\n    <ar:FECAESolicitar>\n      "@
        + auth_xml(creds.token@, creds.sign@, cuit)
        + "\n      <ar:FeCAEReq>\n        <ar:FeCabReq>\n          <ar:CantReg>1</ar:CantReg>\n          <ar:PtoVta>"@
        + decimal(punto_venta as nat)
        + "</ar:PtoVta>\n          <ar:CbteTipo>"@
        + decimal(11u16 as nat)
        + "</ar:CbteTipo>\n        </ar:FeCabReq>\n        <ar:FeDetReq>\n          <ar:FECAEDetRequest>\n            <ar:Concepto>"@
        + decimal(concepto_code(factura.concepto) as nat)
        + "</ar:Concepto>\n            <ar:DocTipo>"@
        + decimal(doc_tipo_code(factura.doc_tipo) as nat)
        + "</ar:DocTipo>\n            <ar:DocNro>"@
        + decimal(factura.doc_nro as nat)
        + "</ar:DocNro>\n            <ar:CbteDesde>"@
        + decimal(numero as nat)
        + "</ar:CbteDesde>\n            <ar:CbteHasta>"@
        + decimal(numero as nat)
        + "</ar:CbteHasta>\n            <ar:CbteFch>"@
        + decimal(fecha as nat)
        + "</ar:CbteFch>\n            <ar:ImpTotal>"@
        + factura.importe_total@
        + "</ar:ImpTotal>\n            <ar:ImpTotConc>0.00</ar:ImpTotConc>\n            <ar:ImpNeto>"@
        + factura.importe_total@
        + "</ar:ImpNeto>\n            <ar:ImpOpEx>0.00</ar:ImpOpEx>\n            <ar:ImpIVA>0.00</ar:ImpIVA>\n            <ar:ImpTrib>0.00</ar:ImpTrib>\n            "@;
    let post = "\n            <ar:MonId>PES</ar:MonId>\n            <ar:MonCotiz>1</ar:MonCotiz>\n            <ar:CondicionIVAReceptorId>"@
        + decimal(factura.condicion_iva_receptor as nat)
        + "</ar:CondicionIVAReceptorId>\n          </ar:FECAEDetRequest>\n        </ar:FeDetReq>\n      </ar:FeCAEReq>\n    </ar:FECAESolicitar>\n  </soapenv:Body>\n</soapenv:Envelope>"@;
    assert(cae_request_doc(creds, cuit, punto_venta, numero, factura, fecha) =~= (pre + head) + t
        + post);
    lemma_infix(pre + head, t, post);
}

fn service_dates_of(factura: &FacturaC, fecha: u32) -> (r: String)
    ensures
        r@ == service_dates_xml(*factura, fecha),
{
    if factura.concepto.requires_service_dates() {
        let desde = match factura.fecha_servicio_desde {
            Some(d) => d,
            None => fecha,
        };
        let hasta = match factura.fecha_servicio_hasta {
            Some(d) => d,
            None => fecha,
        };
        let vto = match factura.fecha_vto_pago {
            Some(d) => d,
            None => fecha,
        };
        let mut out = string_of("<ar:FchServDesde>");
        push_decimal(&mut out, desde as u64);
        out.append("</ar:FchServDesde><ar:FchServHasta>");
        push_decimal(&mut out, hasta as u64);
        out.append("</ar:FchServHasta><ar:FchVtoPago>");
        push_decimal(&mut out, vto as u64);
        out.append("</ar:FchVtoPago>");
        out
    } else {
        String::new()
    }
}

/// `FECAESolicitar` request for a single Factura C numbered `numero`; the
/// voucher date is the factura's, else `today` (YYYYMMDD in Argentina).
pub fn create_factura_c_request(creds: &Credentials, cuit: u64, punto_venta: u32, numero: u64, factura: &FacturaC, today: u32) -> (r: String)
    ensures
        r@ == cae_request_doc(*creds, cuit, punto_venta, numero, *factura, resolved_fecha(*factura, today)),
{
    let a = Auth { token: creds.token.as_str(), sign: creds.sign.as_str(), cuit };
    let auth = a.xml();
    let fecha = match factura.fecha {
        Some(d) => d,
        None => today,
    };
    let service_dates = service_dates_of(factura, fecha);
    let mut out = string_of("<?xml version=\"1.0\" encoding=\"utf-8\"?>\n<soapenv:Envelope xmlns:soapenv=\"http://schemas.xmlsoap.org/soap/envelope/\" xmlns:ar=\"http://ar.gov.afip.dif.FEV1/\">\n  <soapenv:Header/>\n  <soapenv:Body>\n    <ar:FECAESolicitar>\n      ");
    out.append(auth.as_str());
    out.append("\n      <ar:FeCAEReq>\n        <ar:FeCabReq>\n          <ar:CantReg>1</ar:CantReg>\n          <ar:PtoVta>");
    push_decimal(&mut out, punto_venta as u64);
    out.append("</ar:PtoVta>\n          <ar:CbteTipo>");
    push_decimal(&mut out, 11u16 as u64);
    out.append("</ar:CbteTipo>\n        </ar:FeCabReq>\n        <ar:FeDetReq>\n          <ar:FECAEDetRequest>\n            <ar:Concepto>");
    push_decimal(&mut out, factura.concepto.code() as u64);
    out.append("</ar:Concepto>\n            <ar:DocTipo>");
    push_decimal(&mut out, factura.doc_tipo.code() as u64);
    out.append("</ar:DocTipo>\n            <ar:DocNro>");
    push_decimal(&mut out, factura.doc_nro as u64);
    out.append("</ar:DocNro>\n            <ar:CbteDesde>");
    push_decimal(&mut out, numero as u64);
    out.append("</ar:CbteDesde>\n            <ar:CbteHasta>");
    push_decimal(&mut out, numero as u64);
    out.append("</ar:CbteHasta>\n            <ar:CbteFch>");
    push_decimal(&mut out, fecha as u64);
    out.append("</ar:CbteFch>\n            <ar:ImpTotal>");
    out.append(factura.importe_total.as_str());
    out.append("</ar:ImpTotal>\n            <ar:ImpTotConc>0.00</ar:ImpTotConc>\n            <ar:ImpNeto>");
    out.append(factura.importe_total.as_str());
    out.append("</ar:ImpNeto>\n            <ar:ImpOpEx>0.00</ar:ImpOpEx>\n            <ar:ImpIVA>0.00</ar:ImpIVA>\n            <ar:ImpTrib>0.00</ar:ImpTrib>\n            ");
    out.append(service_dates.as_str());
    out.append("\n            <ar:MonId>PES</ar:MonId>\n            <ar:MonCotiz>1</ar:MonCotiz>\n            <ar:CondicionIVAReceptorId>");
    push_decimal(&mut out, factura.condicion_iva_receptor as u64);
    out.append("</ar:CondicionIVAReceptorId>\n          </ar:FECAEDetRequest>\n        </ar:FeDetReq>\n      </ar:FeCAEReq>\n    </ar:FECAESolicitar>\n  </soapenv:Body>\n</soapenv:Envelope>");
    out
}

/// The `FECAESolicitar` request for the Factura C that follows the last
/// authorized voucher `last`: the voucher's number (`last + 1`), its date
/// (the factura's, else `today`) and the request for it.
pub fn next_factura_c_request(creds: &Credentials, cuit: u64, punto_venta: u32, last: u64, factura: &FacturaC, today: u32) -> (r: (u64, u32, String))
    requires
        last < u64::MAX,
    ensures
        r.0 == last + 1,
        r.1 == resolved_fecha(*factura, today),
        r.2@ == cae_request_doc(*creds, cuit, punto_venta, r.0, *factura, r.1),
{
    let numero = last + 1;
    let fecha = match factura.fecha {
        Some(d) => d,
        None => today,
    };
    (numero, fecha, create_factura_c_request(creds, cuit, punto_venta, numero, factura, today))
}

/// Today's date in Argentina at instant `now`, as the number `YYYYMMDD`:
/// the date's text read as a `u32` (`None` when it does not read as one).
pub fn today_yyyymmdd(now: i64) -> (r: Option<u32>)
    requires
        crate::afip::wsaa::MIN_INSTANT <= now <= crate::afip::wsaa::MAX_INSTANT,
    ensures
        r matches Some(v) ==> parse_unsigned(date_text_at(now), u32::MAX as nat) == Some(v as nat),
        r is None ==> parse_unsigned(date_text_at(now), u32::MAX as nat) is None,
{
    let text = crate::afip::wsaa::format_local_time(
        now,
        crate::afip::wsaa::AR_UTC_OFFSET_WEST,
        crate::afip::wsaa::DATE_NUMBER_FORMAT,
    );
    parse_u32(text.as_str())
}

/// The date at instant `now` in Argentina, written `%Y%m%d`.
pub open spec fn date_text_at(now: i64) -> Seq<char> {
    crate::afip::wsaa::local_time_text(
        now,
        crate::afip::wsaa::AR_UTC_OFFSET_WEST,
        crate::afip::wsaa::DATE_NUMBER_FORMAT@,
    )
}

/// What a `FECAESolicitar` reply means for the voucher `numero` dated
/// `fecha`.
pub open spec fn cae_outcome(ns: Seq<XmlNodeView>, punto_venta: u32, numero: u64, fecha: u32, factura: FacturaC, r: Result<CaeResult, AfipError>) -> bool {
    let obs = record_lines(records_in(ns, ns, "Obs"@));
    let resultado = text_field(ns, "Resultado"@);
    match reply_errors(ns) {
        Some(e) => r matches Err(AfipError::WsfeRejected(m)) && m@ == e,
        None => if resultado != "A"@ {
            r matches Err(AfipError::WsfeRejected(m)) && m@ == (if obs.len() == 0 {
                "Resultado="@ + resultado
            } else {
                joined(obs, "; "@)
            })
        } else {
            match (first_text_in(ns, "CAE"@), first_text_in(ns, "CAEFchVto"@)) {
                (None, _) => r matches Err(AfipError::MissingField(f)) && f@ == "CAE"@,
                (Some(_), None) => r matches Err(AfipError::MissingField(f)) && f@ == "CAEFchVto"@,
                (Some(cae), Some(vto)) => r matches Ok(c) && {
                    &&& c.cae@ == cae
                    &&& c.cae_vencimiento@ == vto
                    &&& c.numero == numero
                    &&& c.punto_venta == punto_venta
                    &&& c.tipo == voucher_code(VoucherType::FacturaC)
                    &&& c.fecha == fecha
                    &&& c.importe_total@ == factura.importe_total@
                    &&& views(c.observaciones@) == obs
                },
            }
        },
    }
}

/// The authorization described by a parsed `FECAESolicitar` reply.
pub fn cae_result_from_nodes(nodes: &Vec<XmlNode>, punto_venta: u32, numero: u64, fecha: u32, factura: &FacturaC) -> (r: Result<CaeResult, AfipError>)
    ensures
        cae_outcome(nodes_view(nodes@), punto_venta, numero, fecha, *factura, r),
{
    if let Some(errs) = collect_errors_of(nodes) {
        return Err(AfipError::WsfeRejected(errs));
    }
    let obs_recs = records_of(nodes, "Obs");
    let observaciones = record_lines_of(&obs_recs);
    let resultado = text_field_of(nodes, "Resultado");
    proof {
        reveal_strlit("A");
    }
    if !str_eq(resultado.as_str(), "A") {
        let detail = if observaciones.len() == 0 {
            let mut d = string_of("Resultado=");
            d.append(resultado.as_str());
            d
        } else {
            join_strings(&observaciones, "; ")
        };
        return Err(AfipError::WsfeRejected(detail));
    }
    let cae = match first_text_of(nodes, "CAE") {
        Some(c) => c,
        None => return Err(AfipError::MissingField("CAE")),
    };
    let cae_vencimiento = match first_text_of(nodes, "CAEFchVto") {
        Some(v) => v,
        None => return Err(AfipError::MissingField("CAEFchVto")),
    };
    Ok(CaeResult {
        cae,
        cae_vencimiento,
        numero,
        punto_venta,
        tipo: VoucherType::FacturaC.code(),
        fecha,
        importe_total: string_of(factura.importe_total.as_str()),
        observaciones,
    })
}

/// Reads a `FECAESolicitar` reply.
pub fn read_cae_result(resp: &str, punto_venta: u32, numero: u64, fecha: u32, factura: &FacturaC) -> (r: Result<CaeResult, AfipError>)
    ensures
        cae_outcome(reply_nodes(resp@), punto_venta, numero, fecha, *factura, r),
{
    let nodes = nodes_of(resp);
    cae_result_from_nodes(&nodes, punto_venta, numero, fecha, factura)
}

// ---------------------------------------------------------------------------
// FEDummy
// ---------------------------------------------------------------------------

/// `FEDummy` request (service health check; no auth required).
pub fn dummy_request() -> (r: String)
    ensures
        r@ == "<?xml version=\"1.0\" encoding=\"utf-8\"?>\n<soapenv:Envelope xmlns:soapenv=\"http://schemas.xmlsoap.org/soap/envelope/\" xmlns:ar=\"http://ar.gov.afip.dif.FEV1/\">\n  <soapenv:Header/>\n  <soapenv:Body><ar:FEDummy/></soapenv:Body>\n</soapenv:Envelope>"@,
{
    string_of("<?xml version=\"1.0\" encoding=\"utf-8\"?>\n<soapenv:Envelope xmlns:soapenv=\"http://schemas.xmlsoap.org/soap/envelope/\" xmlns:ar=\"http://ar.gov.afip.dif.FEV1/\">\n  <soapenv:Header/>\n  <soapenv:Body><ar:FEDummy/></soapenv:Body>\n</soapenv:Envelope>")
}

/// Field `k`, or `?`.
pub open spec fn status_field(ns: Seq<XmlNodeView>, k: Seq<char>) -> Seq<char> {
    match first_text_in(ns, k) {
        Some(t) => t,
        None => "?"@,
    }
}

fn status_field_of(nodes: &Vec<XmlNode>, k: &str) -> (r: String)
    ensures
        r@ == status_field(nodes_view(nodes@), k@),
{
    match first_text_of(nodes, k) {
        Some(t) => t,
        None => string_of("?"),
    }
}

/// Reads a `FEDummy` reply: the states of the application, database and
/// authentication servers.
pub fn read_dummy(resp: &str) -> (r: (String, String, String))
    ensures
        r.0@ == status_field(reply_nodes(resp@), "AppServer"@),
        r.1@ == status_field(reply_nodes(resp@), "DbServer"@),
        r.2@ == status_field(reply_nodes(resp@), "AuthServer"@),
{
    let nodes = nodes_of(resp);
    let app = status_field_of(&nodes, "AppServer");
    let db = status_field_of(&nodes, "DbServer");
    let auth = status_field_of(&nodes, "AuthServer");
    (app, db, auth)
}

} // verus!
