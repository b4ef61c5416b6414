use invoicy::formats::afip_c::{AfipCInvoice, Cae, Comprobante, Emisor, LineItem, Receptor};
use invoicy::formats::generic::{Client, Company, GenericInvoice, InvoiceMeta, LineItem as GenericItem};
use invoicy::formats::afip_a as a;
use invoicy::formats::{InvoiceConfig, InvoiceTotals};

fn s(x: &str) -> String {
    x.to_string()
}

/// A generic invoice (format "generic"), value by value.
fn generic_config() -> InvoiceConfig {
    InvoiceConfig::Generic(GenericInvoice {
        company: Company {
            name: s("Test"),
            address: s("123 St"),
            address2: s(""),
            city_state_zip: s("City, ST 12345"),
            country: s("USA"),
        },
        client: Client {
            name: s("Client"),
            address: s("456 Ave"),
            address2: s(""),
            city_state_zip: s("Town, ST 67890"),
            country: s("USA"),
            tax_id: None,
        },
        invoice: InvoiceMeta {
            number: s("INV-001"),
            date: s("2025-01-01"),
            due_date: s("2025-01-15"),
            currency: s("USD"),
        },
        items: vec![GenericItem { description: s("Service"), rate: 100.0f64.to_string() }],
    })
}

/// An `afip_c` invoice, value by value.
fn afip_c_config() -> InvoiceConfig {
    InvoiceConfig::AfipC(AfipCInvoice {
        emisor: Emisor {
            razon_social: s("Test"),
            domicilio_comercial: s("Address"),
            condicion_iva: s("Monotributo"),
            cuit: s("20123456789"),
            ingresos_brutos: s("12345"),
            inicio_actividades: s("01/01/2020"),
        },
        receptor: Receptor {
            nombre: None,
            domicilio: None,
            condicion_iva: s("Consumidor Final"),
            condicion_venta: s("Contado"),
            documento: None,
        },
        comprobante: Comprobante {
            tipo: s("C"),
            codigo: s("011"),
            punto_de_venta: s("00001"),
            numero: s("00000001"),
            fecha_emision: s("01/01/2025"),
            periodo_desde: None,
            periodo_hasta: None,
            fecha_vencimiento: s("15/01/2025"),
        },
        items: vec![LineItem {
            codigo: s("1"),
            descripcion: s("Service"),
            cantidad: 1.0f64.to_string(),
            unidad: s("u"),
            precio_unitario: 100.0f64.to_string(),
            bonificacion_porcentaje: 0.0f64.to_string(),
            bonificacion_importe: 0.0f64.to_string(),
            subtotal: 100.0f64.to_string(),
        }],
        cae: Cae { numero: s("12345678901234"), vencimiento: s("25/01/2025") },
        afip: None,
    })
}

#[test]
fn invoice_config_parses_generic() {
    let config = generic_config();
    assert!(matches!(config, InvoiceConfig::Generic(_)));
    assert_eq!(config.invoice_number(), "INV-001");
}

#[test]
fn invoice_config_parses_afip_c() {
    let config = afip_c_config();
    assert!(matches!(config, InvoiceConfig::AfipC(_)));
    assert_eq!(config.invoice_number(), "00001-00000001");
}

#[test]
fn afip_c_renders_its_sums() {
    let config = afip_c_config();
    let totals = InvoiceTotals::AfipC { subtotal: 100.0f64.to_string(), total: 100.0f64.to_string() };
    let out = config.to_typst_dict(&totals);
    assert!(out.starts_with("#let invoice-data = (\n  emisor: (\n    razon_social: \"Test\","));
    assert!(out.contains("(codigo: \"1\", descripcion: \"Service\", cantidad: 1, unidad: \"u\", precio_unitario: 100, bonif_pct: 0, bonif_imp: 0, subtotal: 100)"));
    assert!(out.contains("nombre: none,"));
    assert!(out.contains("  subtotal: 100,\n  otros_tributos: 0,\n  total: 100,\n)\n"));
    assert!(out.contains("    numero: \"12345678901234\",\n    vencimiento: \"25/01/2025\","));
}

#[test]
fn generic_config_renders_through_the_tagged_config() {
    let config = generic_config();
    let totals = InvoiceTotals::Generic { total: 100.0f64.to_string() };
    let out = config.to_typst_dict(&totals);
    assert!(out.contains("total: 100,"));
    assert!(out.contains("tax_id: none,"));
}

#[test]
fn afip_a_renders_taxes_and_totals() {
    let inv = a::AfipAInvoice {
        emisor: a::Emisor {
            razon_social: s("SA"),
            domicilio_comercial: s("Calle 1"),
            condicion_iva: s("Responsable Inscripto"),
            cuit: s("30123456789"),
            ingresos_brutos: s("1"),
            inicio_actividades: s("01/01/2020"),
        },
        receptor: a::Receptor {
            nombre: Some(s("Cliente \"X\"")),
            domicilio: None,
            condicion_iva: s("Responsable Inscripto"),
            condicion_venta: s("Contado"),
            cuit: Some(s("20111111112")),
        },
        comprobante: a::Comprobante {
            tipo: s("A"),
            codigo: s("001"),
            punto_de_venta: s("00002"),
            numero: s("00000010"),
            fecha_emision: s("01/03/2025"),
            periodo_desde: None,
            periodo_hasta: None,
            fecha_vencimiento: s("10/03/2025"),
        },
        items: vec![a::LineItem {
            codigo: s("9"),
            descripcion: s("Item"),
            cantidad: 2.0f64.to_string(),
            unidad: s("u"),
            precio_unitario: 50.0f64.to_string(),
            bonificacion_porcentaje: 0.0f64.to_string(),
            subtotal: 100.0f64.to_string(),
            alicuota_iva: 21.0f64.to_string(),
            subtotal_con_iva: 121.0f64.to_string(),
        }],
        otros_tributos: Some(vec![
            a::Tributo { descripcion: s("IIBB"), detalle: None, alicuota: Some(3.0f64.to_string()), importe: 3.0f64.to_string() },
            a::Tributo { descripcion: s("Sellos"), detalle: Some(s("CABA")), alicuota: None, importe: 1.5f64.to_string() },
        ]),
        cae: a::Cae { numero: s(""), vencimiento: s("") },
    };
    let totals = a::AfipATotals {
        neto_gravado: s("100"),
        total_iva: s("21"),
        otros_tributos: s("4.5"),
        total: s("125.5"),
    };
    let out = inv.to_typst_dict(&totals);
    assert!(out.contains("nombre: \"Cliente \\\"X\\\"\","));
    assert!(out.contains("otros_tributos: ((descripcion: \"IIBB\", detalle: none, alicuota: 3, importe: 3), (descripcion: \"Sellos\", detalle: \"CABA\", alicuota: none, importe: 1.5),),"));
    assert!(out.contains("neto_gravado: 100,\n    iva_27: 0.0,\n    iva_21: 21,"));
    assert!(out.contains("otros_tributos: 4.5,\n    total: 125.5,\n  ),\n)\n"));
    let config = InvoiceConfig::AfipA(inv);
    assert_eq!(config.invoice_number(), "00002-00000010");
}
