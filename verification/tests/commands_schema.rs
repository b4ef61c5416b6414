use invoicy::afip::config::{CondicionIva, Environment};
use invoicy::afip::types::VoucherInfo;
use invoicy::commands::{
    cache_file_name, default_output_name, doc_label, numbered_file_name, voucher_header, voucher_range, voucher_row,
    CondicionIvaArg,
};
use invoicy::fonts::is_font_file;
use invoicy::schema::{extract_fields, normalize_type, schema_listing, FieldInfo, Json};

fn s(x: &str) -> String {
    x.to_string()
}

#[test]
fn voucher_range_defaults_to_the_most_recent() {
    assert_eq!(voucher_range(10, None, 25), Ok(Some((16, 25))));
    assert_eq!(voucher_range(10, None, 4), Ok(Some((1, 4))));
    assert_eq!(voucher_range(0, None, 4), Ok(Some((4, 4))));
    assert_eq!(voucher_range(10, Some(0), 4), Ok(Some((1, 4))));
    assert_eq!(voucher_range(10, Some(3), 4), Ok(Some((3, 4))));
    assert_eq!(voucher_range(10, None, 0), Ok(None));
    assert_eq!(
        voucher_range(10, Some(30), 25),
        Err(s("--from (30) es mayor que --to (25)"))
    );
}

#[test]
fn voucher_listing_columns() {
    assert_eq!(
        voucher_header(),
        format!("{:>8}  {:>8}  {:>14}  {:>11}  {:<14}  {:>3}", "NÚMERO", "FECHA", "IMPORTE", "DOC NRO", "CAE", "RES")
    );
    let v = VoucherInfo {
        numero: 17,
        tipo: 11,
        punto_venta: 1,
        fecha: 20250131,
        importe_total: s("1500"),
        doc_tipo: 99,
        doc_nro: 0,
        cae: None,
        cae_vencimiento: None,
        resultado: s("A"),
    };
    let importe = format!("${:.2}", 1500.0f64);
    assert_eq!(
        voucher_row(&v, &importe),
        format!("{:>8}  {:>8}  {:>14}  {:>11}  {:<14}  {:>3}", 17, 20250131, "$1500.00", "CF", "-", "A")
    );
    assert_eq!(doc_label(0), "CF");
    assert_eq!(doc_label(20123456789), "20123456789");
}

#[test]
fn cache_and_output_names() {
    assert_eq!(cache_file_name(Environment::Homologacion, "wsfe"), "wsaa-homo-wsfe.json");
    assert_eq!(cache_file_name(Environment::Produccion, "wsfe"), "wsaa-prod-wsfe.json");
    assert_eq!(numbered_file_name("invoice", 2, "pdf"), "invoice_2.pdf");
    assert_eq!(default_output_name("00001-00000001"), "invoice-00001-00000001.pdf");
}

#[test]
fn condicion_iva_argument() {
    assert_eq!(CondicionIva::from(CondicionIvaArg::Monotributo), CondicionIva::Monotributo);
    assert_eq!(CondicionIva::from(CondicionIvaArg::ResponsableInscripto), CondicionIva::ResponsableInscripto);
    assert_eq!(CondicionIva::from(CondicionIvaArg::Exento), CondicionIva::Exento);
}

fn obj(members: Vec<(&str, Json)>) -> Json {
    Json::Object(members.into_iter().map(|(k, v)| (s(k), v)).collect())
}

fn text(x: &str) -> Json {
    Json::Str(s(x))
}

fn arr(items: Vec<Json>) -> Json {
    Json::Array(items)
}

/// A schema in the shape that schemars writes for a small invoice: a
/// referenced nested object, an array of referenced items, an optional
/// string, an optional array and an integer.
fn sample_schema() -> (Json, Json) {
    let defs = obj(vec![
        (
            "Company",
            obj(vec![
                ("type", text("object")),
                ("properties", obj(vec![("name", obj(vec![("type", text("string"))]))])),
                ("required", arr(vec![text("name")])),
            ]),
        ),
        (
            "Item",
            obj(vec![
                ("type", text("object")),
                (
                    "properties",
                    obj(vec![
                        ("rate", obj(vec![("type", text("number"))])),
                        ("qty", obj(vec![("type", text("integer"))])),
                    ]),
                ),
                ("required", arr(vec![text("rate")])),
            ]),
        ),
    ]);
    let root = obj(vec![
        ("type", text("object")),
        (
            "properties",
            obj(vec![
                ("company", obj(vec![("$ref", text("#/$defs/Company"))])),
                ("items", obj(vec![("type", text("array")), ("items", obj(vec![("$ref", text("#/$defs/Item"))]))])),
                ("note", obj(vec![("type", arr(vec![text("string"), text("null")]))])),
                (
                    "tags",
                    obj(vec![("type", arr(vec![text("array"), text("null")])), ("items", obj(vec![("type", text("string"))]))]),
                ),
                ("extra", obj(vec![("anyOf", arr(vec![obj(vec![("$ref", text("#/$defs/Missing"))]), obj(vec![("type", text("null"))])]))])),
            ]),
        ),
        ("required", arr(vec![text("company"), text("items")])),
    ]);
    (root, defs)
}

fn field_list(fields: &[FieldInfo]) -> Vec<(String, String, bool)> {
    fields.iter().map(|f| (f.path.clone(), f.typ.clone(), f.optional)).collect()
}

#[test]
fn schema_fields_are_listed_in_order() {
    let (root, defs) = sample_schema();
    let mut fields = Vec::new();
    extract_fields(&root, &defs, "", &mut fields);
    assert_eq!(
        field_list(&fields),
        vec![
            (s("company.name"), s("string"), false),
            (s("items[].rate"), s("number"), false),
            (s("items[].qty"), s("number"), true),
            (s("note"), s("string"), true),
            (s("extra"), s("unknown"), true),
        ]
    );
}

#[test]
fn schema_listing_aligns_paths() {
    let fields = vec![
        FieldInfo { path: s("a"), typ: s("string"), optional: false },
        FieldInfo { path: s("longer.path"), typ: s("number"), optional: true },
    ];
    assert_eq!(
        schema_listing("generic", &fields),
        format!(
            "Format: generic\n\n  {:<11}  {}{}\n  {:<11}  {}{}\n",
            "a", "string", "", "longer.path", "number", " (optional)"
        )
    );
    assert_eq!(schema_listing("x", &vec![]), "Format: x\n\n");
}

#[test]
fn schema_type_names() {
    assert_eq!(normalize_type("integer"), "number");
    assert_eq!(normalize_type("number"), "number");
    assert_eq!(normalize_type("string"), "string");
    assert_eq!(normalize_type("weird"), "weird");
}

#[test]
fn font_files_by_extension() {
    assert!(is_font_file(Some("ttf")));
    assert!(is_font_file(Some("OTF")));
    assert!(is_font_file(Some("TtC")));
    assert!(is_font_file(Some("otc")));
    assert!(!is_font_file(Some("woff")));
    assert!(!is_font_file(Some("tt")));
    assert!(!is_font_file(Some("")));
    assert!(!is_font_file(None));
}
