use invoicy::formats::generic::{Client, Company, GenericInvoice, InvoiceMeta, LineItem};

/// Amounts are rendered the way the invoice shows them: an `f64` in its
/// `Display` form.
fn amount(x: f64) -> String {
    format!("{}", x)
}

fn sample_invoice() -> GenericInvoice {
    GenericInvoice {
        company: Company {
            name: "Acme Corp".into(),
            address: "123 Main St".into(),
            address2: "Suite 100".into(),
            city_state_zip: "New York, NY 10001".into(),
            country: "USA".into(),
        },
        client: Client {
            name: "Client Inc".into(),
            address: "456 Oak Ave".into(),
            address2: "".into(),
            city_state_zip: "Los Angeles, CA 90001".into(),
            country: "USA".into(),
            tax_id: Some("12-3456789".into()),
        },
        invoice: InvoiceMeta {
            number: "INV-001".into(),
            date: "2025-01-01".into(),
            due_date: "2025-01-15".into(),
            currency: "USD".into(),
        },
        items: vec![
            LineItem {
                description: "Consulting".into(),
                rate: amount(1000.0),
            },
            LineItem {
                description: "Development".into(),
                rate: amount(2000.0),
            },
        ],
    }
}

/// The invoice total as the renderer receives it: the sum of the rates.
fn total() -> String {
    amount(1000.0 + 2000.0)
}

#[test]
fn to_typst_dict_contains_company() {
    let invoice = sample_invoice();
    let output = invoice.to_typst_dict(&total());
    assert!(output.contains(r#"name: "Acme Corp""#));
    assert!(output.contains(r#"address: "123 Main St""#));
}

#[test]
fn to_typst_dict_contains_client() {
    let invoice = sample_invoice();
    let output = invoice.to_typst_dict(&total());
    assert!(output.contains(r#"name: "Client Inc""#));
    assert!(output.contains(r#"tax_id: "12-3456789""#));
}

#[test]
fn to_typst_dict_contains_items() {
    let invoice = sample_invoice();
    let output = invoice.to_typst_dict(&total());
    assert!(output.contains(r#"description: "Consulting""#));
    assert!(output.contains("rate: 1000"));
    assert!(output.contains(r#"description: "Development""#));
}

#[test]
fn to_typst_dict_contains_total() {
    let invoice = sample_invoice();
    let output = invoice.to_typst_dict(&total());
    assert!(output.contains("total: 3000"));
}

#[test]
fn to_typst_dict_none_tax_id() {
    let mut invoice = sample_invoice();
    invoice.client.tax_id = None;
    let output = invoice.to_typst_dict(&total());
    assert!(output.contains("tax_id: none"));
}

#[test]
fn to_typst_dict_escapes_quotes() {
    let mut invoice = sample_invoice();
    invoice.company.name = r#"Acme "Best" Corp"#.into();
    let output = invoice.to_typst_dict(&total());
    assert!(output.contains(r#"name: "Acme \"Best\" Corp""#));
}

#[test]
fn to_typst_dict_is_a_typst_dictionary() {
    let output = sample_invoice().to_typst_dict(&total());
    assert!(output.starts_with("#let invoice-data = (\n"));
    assert!(output.ends_with("\n)\n"));
    assert!(output.contains("items: ((description: \"Consulting\", rate: 1000), (description: \"Development\", rate: 2000),),"));
    assert!(output.contains(r#"number: "INV-001""#));
    assert!(output.contains(r#"currency: "USD""#));
}
