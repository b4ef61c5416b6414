use invoicy::afip::types::{CaeResult, Concepto, DocTipo};
use invoicy::afip_invoice::{
    build_factura, concepto_to_afip, ddmmyyyy_to_yyyymmdd, doc_tipo_to_afip, ensure_placeholders,
    has_cae, needs_authorization, record_authorization, set_str, yyyymmdd_str_to_ddmmyyyy, yyyymmdd_to_ddmmyyyy,
};
use invoicy::formats::afip_c::{AfipParams, Comprobante, ConceptoParam, DocTipoParam};
use invoicy::value::ConfigValue;

fn s(x: &str) -> String {
    x.to_string()
}

fn table(entries: Vec<(&str, ConfigValue)>) -> ConfigValue {
    ConfigValue::Table(entries.into_iter().map(|(k, v)| (s(k), v)).collect())
}

fn comprobante() -> Comprobante {
    Comprobante {
        tipo: s("C"),
        codigo: s("011"),
        punto_de_venta: s("00001"),
        numero: s(""),
        fecha_emision: s(""),
        periodo_desde: Some(s("01/01/2025")),
        periodo_hasta: Some(s("31/01/2025")),
        fecha_vencimiento: s("15/02/2025"),
    }
}

#[test]
fn dates_convert_both_ways() {
    assert_eq!(ddmmyyyy_to_yyyymmdd("01/02/2025"), Some(20250201));
    assert_eq!(ddmmyyyy_to_yyyymmdd(" 1 / 2 / 2025 "), Some(20250201));
    assert_eq!(ddmmyyyy_to_yyyymmdd("01-02-2025"), None);
    assert_eq!(ddmmyyyy_to_yyyymmdd("01/02"), None);
    assert_eq!(ddmmyyyy_to_yyyymmdd("aa/02/2025"), None);
    assert_eq!(yyyymmdd_to_ddmmyyyy(20250201), "01/02/2025");
    assert_eq!(yyyymmdd_to_ddmmyyyy(7), "07/00/0000");
    assert_eq!(yyyymmdd_str_to_ddmmyyyy("20250210"), "10/02/2025");
    assert_eq!(yyyymmdd_str_to_ddmmyyyy("pronto"), "pronto");
    // Round trip of a real date.
    let n = ddmmyyyy_to_yyyymmdd("28/02/2024").unwrap();
    assert_eq!(yyyymmdd_to_ddmmyyyy(n), "28/02/2024");
}

#[test]
fn params_map_to_codes() {
    assert_eq!(concepto_to_afip(ConceptoParam::Servicios), Concepto::Servicios);
    assert_eq!(concepto_to_afip(ConceptoParam::ProductosYServicios), Concepto::ProductosYServicios);
    assert_eq!(doc_tipo_to_afip(DocTipoParam::Dni), DocTipo::Dni);
    assert_eq!(doc_tipo_to_afip(DocTipoParam::ConsumidorFinal), DocTipo::ConsumidorFinal);
}

#[test]
fn factura_for_products_has_no_service_dates() {
    let f = build_factura(None, &comprobante(), s("150.00"));
    assert_eq!(f.concepto, Concepto::Productos);
    assert_eq!(f.doc_tipo, DocTipo::ConsumidorFinal);
    assert_eq!(f.doc_nro, 0);
    assert_eq!(f.importe_total, "150.00");
    assert_eq!(f.fecha, None);
    assert_eq!(f.fecha_servicio_desde, None);
    assert_eq!(f.fecha_vto_pago, None);
    assert_eq!(f.condicion_iva_receptor, 5);
}

#[test]
fn factura_for_services_reads_the_period() {
    let p = AfipParams {
        concepto: ConceptoParam::Servicios,
        doc_tipo: DocTipoParam::Cuit,
        doc_nro: 30123456789,
        cond_iva_receptor: 1,
    };
    let f = build_factura(Some(p), &comprobante(), s("150.00"));
    assert_eq!(f.concepto, Concepto::Servicios);
    assert_eq!(f.doc_tipo, DocTipo::Cuit);
    assert_eq!(f.doc_nro, 30123456789);
    assert_eq!(f.fecha_servicio_desde, Some(20250101));
    assert_eq!(f.fecha_servicio_hasta, Some(20250131));
    assert_eq!(f.fecha_vto_pago, Some(20250215));
    assert_eq!(f.condicion_iva_receptor, 1);
}

#[test]
fn cae_presence() {
    let with = table(vec![("cae", table(vec![("numero", ConfigValue::String(s("123")))]))]);
    let blank = table(vec![("cae", table(vec![("numero", ConfigValue::String(s("   ")))]))]);
    let none = table(vec![("format", ConfigValue::String(s("afip_c")))]);
    assert!(has_cae(&with));
    assert!(!has_cae(&blank));
    assert!(!has_cae(&none));
}

#[test]
fn placeholders_fill_only_what_is_missing() {
    let mut v = table(vec![(
        "comprobante",
        table(vec![("numero", ConfigValue::String(s("00000007")))]),
    )]);
    ensure_placeholders(&mut v);
    let comp = v.get("comprobante").unwrap();
    assert_eq!(comp.get("numero").unwrap().as_str().unwrap(), "00000007");
    assert_eq!(comp.get("fecha_emision").unwrap().as_str().unwrap(), "");
    assert_eq!(comp.get("fecha_vencimiento").unwrap().as_str().unwrap(), "");
    let cae = v.get("cae").unwrap();
    assert_eq!(cae.get("numero").unwrap().as_str().unwrap(), "");
    assert_eq!(cae.get("vencimiento").unwrap().as_str().unwrap(), "");
    // A second pass changes nothing.
    let mut again = table(vec![(
        "comprobante",
        table(vec![("numero", ConfigValue::String(s("00000007")))]),
    )]);
    ensure_placeholders(&mut again);
    ensure_placeholders(&mut again);
    let c2 = again.get("comprobante").unwrap();
    assert_eq!(c2.get("numero").unwrap().as_str().unwrap(), "00000007");
    assert_eq!(again.get("cae").unwrap().get("vencimiento").unwrap().as_str().unwrap(), "");
}

#[test]
fn set_str_needs_a_table() {
    let mut v = table(vec![("comprobante", ConfigValue::Integer(1))]);
    set_str(&mut v, "comprobante", "numero", "5");
    assert_eq!(v.get("comprobante").unwrap().as_integer(), Some(1));
    set_str(&mut v, "cae", "numero", "5");
    assert!(v.get("cae").is_none());
}

#[test]
fn authorization_is_written_back() {
    let mut v = table(vec![("format", ConfigValue::String(s("afip_c")))]);
    ensure_placeholders(&mut v);
    let res = CaeResult {
        cae: s("71234567890123"),
        cae_vencimiento: s("20250125"),
        numero: 42,
        punto_venta: 3,
        tipo: 11,
        fecha: 20250115,
        importe_total: s("100.00"),
        observaciones: vec![],
    };
    assert!(needs_authorization(&v));
    record_authorization(&mut v, &res);
    assert!(!needs_authorization(&v));
    let comp = v.get("comprobante").unwrap();
    assert_eq!(comp.get("punto_de_venta").unwrap().as_str().unwrap(), "00003");
    assert_eq!(comp.get("numero").unwrap().as_str().unwrap(), "00000042");
    assert_eq!(comp.get("fecha_emision").unwrap().as_str().unwrap(), "15/01/2025");
    let cae = v.get("cae").unwrap();
    assert_eq!(cae.get("numero").unwrap().as_str().unwrap(), "71234567890123");
    assert_eq!(cae.get("vencimiento").unwrap().as_str().unwrap(), "25/01/2025");
    assert!(has_cae(&v));
}

#[test]
fn only_afip_c_without_cae_is_authorized() {
    let generic = table(vec![("format", ConfigValue::String(s("generic")))]);
    let fresh = table(vec![("format", ConfigValue::String(s("afip_c")))]);
    let done = table(vec![
        ("format", ConfigValue::String(s("afip_c"))),
        ("cae", table(vec![("numero", ConfigValue::String(s("71234567890123")))])),
    ]);
    assert!(!needs_authorization(&generic));
    assert!(needs_authorization(&fresh));
    assert!(!needs_authorization(&done));
    assert!(!needs_authorization(&ConfigValue::Integer(3)));
}
