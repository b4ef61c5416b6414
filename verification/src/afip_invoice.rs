//! AFIP authorization step for `afip_c` invoices.
//!
//! Given a parsed `afip_c` config value, this prepares the Factura C request
//! (codes, service dates) and writes the authorization it obtains —
//! `numero`, `fecha_emision`, `punto_de_venta` and `[cae]` — back into the
//! value, so the normal render path can produce the PDF.
use vstd::prelude::*;

use crate::afip::types::{needs_service_dates, CaeResult, Concepto, DocTipo, FacturaC};
use crate::formats::afip_c::{AfipParams, Comprobante, ConceptoParam, DocTipoParam};
use crate::text::{
    decimal, is_digit, lemma_decimal_digits, lemma_parse_digits, lemma_split_three,
    lemma_zero_padded_digits, parse_u32, parse_unsigned, push_char, push_zero_padded, split_on, split_str,
    string_of, trim, trimmed, views, zero_padded,
};
use crate::value::{
    get_key, lemma_tab_of, tab_of, table_find, table_insert, table_replace, toml_of, with_key,
    ConfigValue, Toml,
};

verus! {

// ---------------------------------------------------------------------------
// Codes
// ---------------------------------------------------------------------------

pub open spec fn concepto_of(c: ConceptoParam) -> Concepto {
    match c {
        ConceptoParam::Productos => Concepto::Productos,
        ConceptoParam::Servicios => Concepto::Servicios,
        ConceptoParam::ProductosYServicios => Concepto::ProductosYServicios,
    }
}

pub fn concepto_to_afip(c: ConceptoParam) -> (r: Concepto)
    ensures
        r == concepto_of(c),
{
    match c {
        ConceptoParam::Productos => Concepto::Productos,
        ConceptoParam::Servicios => Concepto::Servicios,
        ConceptoParam::ProductosYServicios => Concepto::ProductosYServicios,
    }
}

pub open spec fn doc_tipo_of(d: DocTipoParam) -> DocTipo {
    match d {
        DocTipoParam::ConsumidorFinal => DocTipo::ConsumidorFinal,
        DocTipoParam::Cuit => DocTipo::Cuit,
        DocTipoParam::Cuil => DocTipo::Cuil,
        DocTipoParam::Dni => DocTipo::Dni,
    }
}

pub fn doc_tipo_to_afip(d: DocTipoParam) -> (r: DocTipo)
    ensures
        r == doc_tipo_of(d),
{
    match d {
        DocTipoParam::ConsumidorFinal => DocTipo::ConsumidorFinal,
        DocTipoParam::Cuit => DocTipo::Cuit,
        DocTipoParam::Cuil => DocTipo::Cuil,
        DocTipoParam::Dni => DocTipo::Dni,
    }
}

// ---------------------------------------------------------------------------
// Dates
// ---------------------------------------------------------------------------

/// `dd/mm/yyyy` read as the number `yyyymmdd`: exactly three `/`-separated
/// parts, each an unsigned number once trimmed. The number is computed in
/// 32-bit arithmetic that wraps, as the released program does.
pub open spec fn date_number(s: Seq<char>) -> Option<u32> {
    let p = split_on(s, '/');
    if p.len() != 3 {
        None
    } else {
        match (
            parse_unsigned(trimmed(p[0]), u32::MAX as nat),
            parse_unsigned(trimmed(p[1]), u32::MAX as nat),
            parse_unsigned(trimmed(p[2]), u32::MAX as nat),
        ) {
            (Some(d), Some(m), Some(y)) => Some(((y * 10000 + m * 100 + d) % 0x1_0000_0000) as u32),
            _ => None,
        }
    }
}

/// Converts a `dd/mm/yyyy` date into the `yyyymmdd` number WSFE expects.
pub fn ddmmyyyy_to_yyyymmdd(s: &str) -> (r: Option<u32>)
    ensures
        r == date_number(s@),
{
    let p = split_str(s, '/');
    if p.len() != 3 {
        return None;
    }
    assert(views(p@)[0] == p@[0]@);
    assert(views(p@)[1] == p@[1]@);
    assert(views(p@)[2] == p@[2]@);
    let d = match parse_u32(trim(p[0].as_str())) {
        Some(x) => x,
        None => return None,
    };
    let m = match parse_u32(trim(p[1].as_str())) {
        Some(x) => x,
        None => return None,
    };
    let y = match parse_u32(trim(p[2].as_str())) {
        Some(x) => x,
        None => return None,
    };
    let n: u64 = (y as u64 * 10000 + m as u64 * 100 + d as u64) % 0x1_0000_0000;
    Some(n as u32)
}

/// `yyyymmdd` written as `dd/mm/yyyy` (`{d:02}/{m:02}/{y:04}`).
pub open spec fn ddmmyyyy_text(n: u32) -> Seq<char> {
    zero_padded(decimal((n % 100) as nat), 2) + "/"@ + zero_padded(decimal(((n / 100) % 100) as nat), 2)
        + "/"@ + zero_padded(decimal((n / 10000) as nat), 4)
}

/// Converts a `yyyymmdd` number into `dd/mm/yyyy`.
pub fn yyyymmdd_to_ddmmyyyy(n: u32) -> (r: String)
    ensures
        r@ == ddmmyyyy_text(n),
{
    let y = n / 10000;
    let m = (n / 100) % 100;
    let d = n % 100;
    let mut out = String::new();
    push_zero_padded(&mut out, d as u64, 2);
    out.append("/");
    push_zero_padded(&mut out, m as u64, 2);
    out.append("/");
    push_zero_padded(&mut out, y as u64, 4);
    assert(out@ =~= ddmmyyyy_text(n));
    out
}

/// A `yyyymmdd` text as `dd/mm/yyyy`; text that is not a number is kept.
pub open spec fn ddmmyyyy_of_text(s: Seq<char>) -> Seq<char> {
    match parse_unsigned(s, u32::MAX as nat) {
        Some(n) => ddmmyyyy_text(n as u32),
        None => s,
    }
}

/// Converts a `yyyymmdd` text into `dd/mm/yyyy`, keeping text that is not
/// a number as it is.
pub fn yyyymmdd_str_to_ddmmyyyy(s: &str) -> (r: String)
    ensures
        r@ == ddmmyyyy_of_text(s@),
{
    match parse_u32(s) {
        Some(n) => yyyymmdd_to_ddmmyyyy(n),
        None => string_of(s),
    }
}

// ---------------------------------------------------------------------------
// The Factura C request
// ---------------------------------------------------------------------------

/// The AFIP parameters in force: the given ones, else the defaults (a
/// consumidor-final sale of products).
pub open spec fn params_or_default(p: Option<AfipParams>) -> AfipParams {
    match p {
        Some(x) => x,
        None => AfipParams {
            concepto: ConceptoParam::Productos,
            doc_tipo: DocTipoParam::ConsumidorFinal,
            doc_nro: 0,
            cond_iva_receptor: 5,
        },
    }
}

pub open spec fn opt_date(o: Option<String>) -> Option<u32> {
    match o {
        Some(s) => date_number(s@),
        None => None,
    }
}

/// The Factura C requested for an invoice with AFIP parameters `params`,
/// voucher data `comp` and total `total`: dated today, with the service
/// period and payment-due dates read from the voucher for service concepts.
pub open spec fn factura_for(f: FacturaC, params: Option<AfipParams>, comp: Comprobante, total: Seq<char>) -> bool {
    let p = params_or_default(params);
    let c = concepto_of(p.concepto);
    &&& f.concepto == c
    &&& f.doc_tipo == doc_tipo_of(p.doc_tipo)
    &&& f.doc_nro == p.doc_nro
    &&& f.importe_total@ == total
    &&& f.fecha is None
    &&& f.condicion_iva_receptor == p.cond_iva_receptor
    &&& if needs_service_dates(c) {
        &&& f.fecha_servicio_desde == opt_date(comp.periodo_desde)
        &&& f.fecha_servicio_hasta == opt_date(comp.periodo_hasta)
        &&& f.fecha_vto_pago == date_number(comp.fecha_vencimiento@)
    } else {
        &&& f.fecha_servicio_desde is None
        &&& f.fecha_servicio_hasta is None
        &&& f.fecha_vto_pago is None
    }
}

fn opt_date_of(o: &Option<String>) -> (r: Option<u32>)
    ensures
        r == opt_date(*o),
{
    match o {
        Some(s) => ddmmyyyy_to_yyyymmdd(s.as_str()),
        None => None,
    }
}

/// The Factura C to request for an `afip_c` invoice whose total (the sum of
/// its items, which the caller has checked to be positive) renders as
/// `importe_total`.
pub fn build_factura(params: Option<AfipParams>, comprobante: &Comprobante, importe_total: String) -> (r: FacturaC)
    ensures
        factura_for(r, params, *comprobante, importe_total@),
{
    let p = match params {
        Some(x) => x,
        None => AfipParams::default(),
    };
    let concepto = concepto_to_afip(p.concepto);
    let needs_dates = concepto.requires_service_dates();
    let (desde, hasta, vto) = if needs_dates {
        (
            opt_date_of(&comprobante.periodo_desde),
            opt_date_of(&comprobante.periodo_hasta),
            ddmmyyyy_to_yyyymmdd(comprobante.fecha_vencimiento.as_str()),
        )
    } else {
        (None, None, None)
    };
    FacturaC {
        concepto,
        doc_tipo: doc_tipo_to_afip(p.doc_tipo),
        doc_nro: p.doc_nro,
        importe_total,
        fecha: None,
        fecha_servicio_desde: desde,
        fecha_servicio_hasta: hasta,
        fecha_vto_pago: vto,
        condicion_iva_receptor: p.cond_iva_receptor,
    }
}

// ---------------------------------------------------------------------------
// The config value before and after authorization
// ---------------------------------------------------------------------------

/// The config carries a CAE number that is not blank.
pub open spec fn has_cae_spec(v: Toml) -> bool {
    match get_key(v, "cae"@) {
        Some(c) => match get_key(c, "numero"@) {
            Some(Toml::Str(s)) => trimmed(s).len() > 0,
            _ => false,
        },
        None => false,
    }
}

/// Whether the TOML already carries a non-empty CAE (already authorized).
pub fn has_cae(value: &ConfigValue) -> (r: bool)
    ensures
        r == has_cae_spec(value@),
{
    match value.get("cae") {
        Some(c) => match c.get("numero") {
            Some(n) => match n.as_str() {
                Some(s) => trim(s).unicode_len() > 0,
                None => false,
            },
            None => false,
        },
        None => false,
    }
}

/// An invoice config asks for authorization when it is an `afip_c` invoice
/// without a CAE.
pub open spec fn needs_authorization_spec(v: Toml) -> bool {
    get_key(v, "format"@) == Some(Toml::Str("afip_c"@)) && !has_cae_spec(v)
}

/// Whether `generate` must request a CAE before rendering the config.
pub fn needs_authorization(value: &ConfigValue) -> (r: bool)
    ensures
        r == needs_authorization_spec(value@),
{
    let is_afip_c = match value.get("format") {
        Some(f) => match f.as_str() {
            Some(name) => crate::text::str_eq(name, "afip_c"),
            None => false,
        },
        None => false,
    };
    is_afip_c && !has_cae(value)
}

/// `m` with `k` set to `d` when it has no entry `k`.
pub open spec fn with_default(m: Map<Seq<char>, Toml>, k: Seq<char>, d: Toml) -> Map<Seq<char>, Toml> {
    if m.contains_key(k) {
        m
    } else {
        m.insert(k, d)
    }
}

/// A table with an empty string under each of `keys` that it lacks; other
/// values unchanged.
pub open spec fn filled(v: Toml, keys: Seq<Seq<char>>) -> Toml
    decreases keys.len(),
{
    match v {
        Toml::Tab(m) => if keys.len() == 0 {
            v
        } else {
            filled(Toml::Tab(with_default(m, keys[0], Toml::Str(seq![]))), keys.drop_first())
        },
        _ => v,
    }
}

/// Entry `k` of a table, or an empty table.
pub open spec fn entry_or_table(m: Map<Seq<char>, Toml>, k: Seq<char>) -> Toml {
    if m.contains_key(k) {
        m[k]
    } else {
        Toml::Tab(Map::empty())
    }
}

pub open spec fn comprobante_keys() -> Seq<Seq<char>> {
    seq!["numero"@, "fecha_emision"@, "fecha_vencimiento"@]
}

pub open spec fn cae_keys() -> Seq<Seq<char>> {
    seq!["numero"@, "vencimiento"@]
}

/// `comprobante.{numero,fecha_emision,fecha_vencimiento}` and
/// `cae.{numero,vencimiento}` present (as empty strings when they were
/// missing), so the config reads as an `afip_c` invoice.
pub open spec fn placeholders(v: Toml) -> Toml {
    match v {
        Toml::Tab(m) => {
            let m1 = m.insert(
                "comprobante"@,
                filled(entry_or_table(m, "comprobante"@), comprobante_keys()),
            );
            Toml::Tab(m1.insert("cae"@, filled(entry_or_table(m1, "cae"@), cae_keys())))
        },
        _ => v,
    }
}

/// Adds entry `key` with an empty string when the table lacks it.
fn default_entry(entries: &mut Vec<(String, ConfigValue)>, key: &str)
    ensures
        tab_of(final(entries)@) == with_default(tab_of(old(entries)@), key@, Toml::Str(seq![])),
{
    proof {
        lemma_tab_of(entries@, key@);
    }
    match table_find(entries, key) {
        Some(_) => {},
        None => {
            let empty = String::new();
            table_insert(entries, string_of(key), ConfigValue::String(empty));
        },
    }
}

/// Fills the missing `keys` of a table value with empty strings.
fn fill(v: &mut ConfigValue, keys: &Vec<&str>)
    ensures
        final(v)@ == filled(old(v)@, keys@.map_values(|k: &str| k@)),
{
    let ghost ks = keys@.map_values(|k: &str| k@);
    let mut owned = ConfigValue::Boolean(false);
    std::mem::swap(v, &mut owned);
    match owned {
        ConfigValue::Table(mut entries) => {
            let n = keys.len();
            let mut i: usize = 0;
            assert(ks.skip(0) =~= ks);
            while i < n
                invariant
                    n == keys@.len(),
                    ks == keys@.map_values(|k: &str| k@),
                    i <= n,
                    filled(old(v)@, ks) == filled(Toml::Tab(tab_of(entries@)), ks.skip(i as int)),
                decreases n - i,
            {
                let ghost before = tab_of(entries@);
                default_entry(&mut entries, keys[i]);
                assert(ks.skip(i as int)[0] == keys@[i as int]@);
                assert(ks.skip(i as int).drop_first() =~= ks.skip(i + 1));
                i = i + 1;
            }
            assert(ks.skip(n as int).len() == 0);
            *v = ConfigValue::Table(entries);
        },
        other => {
            *v = other;
        },
    }
}

/// Makes sure table entry `key` exists (as an empty table when missing) and
/// fills its missing `keys`.
fn fill_entry(entries: &mut Vec<(String, ConfigValue)>, key: &str, keys: &Vec<&str>)
    ensures
        tab_of(final(entries)@) == tab_of(old(entries)@).insert(
            key@,
            filled(entry_or_table(tab_of(old(entries)@), key@), keys@.map_values(|k: &str| k@)),
        ),
{
    proof {
        lemma_tab_of(entries@, key@);
    }
    let ghost m0 = tab_of(entries@);
    let j = match table_find(entries, key) {
        Some(j) => j,
        None => {
            let t = ConfigValue::empty_table();
            table_insert(entries, string_of(key), t);
            proof {
                lemma_tab_of(entries@, key@);
            }
            match table_find(entries, key) {
                Some(j) => j,
                None => {
                    assert(false);
                    0
                },
            }
        },
    };
    proof {
        lemma_tab_of(entries@, key@);
    }
    let ghost m1 = tab_of(entries@);
    let mut child = table_replace(entries, j, ConfigValue::Boolean(false));
    fill(&mut child, keys);
    let ghost cv = child@;
    let _ = table_replace(entries, j, child);
    assert(tab_of(entries@) =~= m0.insert(
        key@,
        filled(entry_or_table(m0, key@), keys@.map_values(|k: &str| k@)),
    ));
}

/// Ensure `comprobante.{numero,fecha_emision,fecha_vencimiento}` and `[cae]`
/// exist so the struct deserializes; they get overwritten after
/// authorization.
pub fn ensure_placeholders(value: &mut ConfigValue)
    ensures
        final(value)@ == placeholders(old(value)@),
{
    let mut owned = ConfigValue::Boolean(false);
    std::mem::swap(value, &mut owned);
    match owned {
        ConfigValue::Table(mut entries) => {
            let mut comp_keys: Vec<&str> = Vec::new();
            comp_keys.push("numero");
            comp_keys.push("fecha_emision");
            comp_keys.push("fecha_vencimiento");
            let mut cae_keys_v: Vec<&str> = Vec::new();
            cae_keys_v.push("numero");
            cae_keys_v.push("vencimiento");
            assert(comp_keys@.map_values(|k: &str| k@) =~= comprobante_keys());
            assert(cae_keys_v@.map_values(|k: &str| k@) =~= cae_keys());
            fill_entry(&mut entries, "comprobante", &comp_keys);
            fill_entry(&mut entries, "cae", &cae_keys_v);
            *value = ConfigValue::Table(entries);
        },
        other => {
            *value = other;
        },
    }
}

/// `table.key` set to the string `s` when `table` is a table; the value
/// unchanged otherwise.
pub open spec fn set_str_spec(v: Toml, table: Seq<char>, key: Seq<char>, s: Seq<char>) -> Toml {
    match get_key(v, table) {
        Some(Toml::Tab(m)) => with_key(v, table, Toml::Tab(m.insert(key, Toml::Str(s)))),
        _ => v,
    }
}

/// Sets `table.key` to the string `v` when `table` is a table.
pub fn set_str(value: &mut ConfigValue, table: &str, key: &str, v: &str)
    ensures
        final(value)@ == set_str_spec(old(value)@, table@, key@, v@),
{
    let mut owned = ConfigValue::Boolean(false);
    std::mem::swap(value, &mut owned);
    match owned {
        ConfigValue::Table(mut entries) => {
            proof {
                lemma_tab_of(entries@, table@);
            }
            let ghost m0 = tab_of(entries@);
            match table_find(&entries, table) {
                Some(j) => {
                    let child = table_replace(&mut entries, j, ConfigValue::Boolean(false));
                    match child {
                        ConfigValue::Table(mut inner) => {
                            table_insert(&mut inner, string_of(key), ConfigValue::String(string_of(v)));
                            let ghost iv = toml_of(ConfigValue::Table(inner));
                            let _ = table_replace(&mut entries, j, ConfigValue::Table(inner));
                            assert(tab_of(entries@) =~= m0.insert(table@, iv));
                        },
                        other => {
                            let ghost ov = toml_of(other);
                            let _ = table_replace(&mut entries, j, other);
                            assert(tab_of(entries@) =~= m0);
                        },
                    }
                },
                None => {},
            }
            *value = ConfigValue::Table(entries);
        },
        other => {
            *value = other;
        },
    }
}

/// The config after authorization `res`: voucher number (`{:08}`), punto de
/// venta (`{:05}`), issue date, CAE and its expiry written as strings.
pub open spec fn authorized(v: Toml, res: CaeResult) -> Toml {
    let v1 = set_str_spec(v, "comprobante"@, "punto_de_venta"@, zero_padded(decimal(res.punto_venta as nat), 5));
    let v2 = set_str_spec(v1, "comprobante"@, "numero"@, zero_padded(decimal(res.numero as nat), 8));
    let v3 = set_str_spec(v2, "comprobante"@, "fecha_emision"@, ddmmyyyy_text(res.fecha));
    let v4 = set_str_spec(v3, "cae"@, "numero"@, res.cae@);
    set_str_spec(v4, "cae"@, "vencimiento"@, ddmmyyyy_of_text(res.cae_vencimiento@))
}

/// Folds an authorization into the invoice config.
pub fn record_authorization(value: &mut ConfigValue, res: &CaeResult)
    ensures
        final(value)@ == authorized(old(value)@, *res),
{
    let vto_cae = yyyymmdd_str_to_ddmmyyyy(res.cae_vencimiento.as_str());
    let mut pv = String::new();
    push_zero_padded(&mut pv, res.punto_venta as u64, 5);
    assert(pv@ =~= zero_padded(decimal(res.punto_venta as nat), 5));
    let mut numero = String::new();
    push_zero_padded(&mut numero, res.numero, 8);
    assert(numero@ =~= zero_padded(decimal(res.numero as nat), 8));
    let fecha = yyyymmdd_to_ddmmyyyy(res.fecha);
    set_str(value, "comprobante", "punto_de_venta", pv.as_str());
    set_str(value, "comprobante", "numero", numero.as_str());
    set_str(value, "comprobante", "fecha_emision", fecha.as_str());
    set_str(value, "cae", "numero", res.cae.as_str());
    set_str(value, "cae", "vencimiento", vto_cae.as_str());
}

// ---------------------------------------------------------------------------
// Laws
// ---------------------------------------------------------------------------

proof fn lemma_filled_tab(m: Map<Seq<char>, Toml>, ks: Seq<Seq<char>>)
    ensures
        filled(Toml::Tab(m), ks) is Tab,
        forall|k: Seq<char>| #[trigger] m.contains_key(k) ==> filled(Toml::Tab(m), ks)->Tab_0.contains_key(k)
            && filled(Toml::Tab(m), ks)->Tab_0[k] == m[k],
        forall|i: int| 0 <= i < ks.len() ==> filled(Toml::Tab(m), ks)->Tab_0.contains_key(#[trigger] ks[i]),
    decreases ks.len(),
{
    if ks.len() > 0 {
        let m1 = with_default(m, ks[0], Toml::Str(seq![]));
        lemma_filled_tab(m1, ks.drop_first());
        assert forall|k: Seq<char>| #[trigger] m.contains_key(k) implies filled(Toml::Tab(m), ks)->Tab_0.contains_key(k)
            && filled(Toml::Tab(m), ks)->Tab_0[k] == m[k] by {
            assert(m1.contains_key(k) && m1[k] == m[k]);
        }
        assert forall|i: int| 0 <= i < ks.len() implies filled(Toml::Tab(m), ks)->Tab_0.contains_key(
            #[trigger] ks[i],
        ) by {
            if i > 0 {
                assert(ks[i] == ks.drop_first()[i - 1]);
            } else {
                assert(m1.contains_key(ks[0]));
            }
        }
    }
}

proof fn lemma_filled_noop(m: Map<Seq<char>, Toml>, ks: Seq<Seq<char>>)
    requires
        forall|i: int| 0 <= i < ks.len() ==> m.contains_key(#[trigger] ks[i]),
    ensures
        filled(Toml::Tab(m), ks) == Toml::Tab(m),
    decreases ks.len(),
{
    if ks.len() > 0 {
        assert(m.contains_key(ks[0]));
        assert forall|i: int| 0 <= i < ks.drop_first().len() implies m.contains_key(
            #[trigger] ks.drop_first()[i],
        ) by {
            assert(ks.drop_first()[i] == ks[i + 1]);
        }
        lemma_filled_noop(m, ks.drop_first());
    }
}

proof fn lemma_filled_idempotent(v: Toml, ks: Seq<Seq<char>>)
    ensures
        filled(filled(v, ks), ks) == filled(v, ks),
{
    match v {
        Toml::Tab(m) => {
            lemma_filled_tab(m, ks);
            lemma_filled_noop(filled(v, ks)->Tab_0, ks);
        },
        _ => {},
    }
}

/// Filling placeholders twice changes nothing more than filling them once.
pub proof fn law_placeholders_idempotent(v: Toml)
    ensures
        placeholders(placeholders(v)) == placeholders(v),
{
    reveal_strlit("comprobante");
    reveal_strlit("cae");
    assert("comprobante"@ != "cae"@) by {
        assert("comprobante"@.len() != "cae"@.len());
    }
    match v {
        Toml::Tab(m) => {
            let c = filled(entry_or_table(m, "comprobante"@), comprobante_keys());
            let m1 = m.insert("comprobante"@, c);
            let a = filled(entry_or_table(m1, "cae"@), cae_keys());
            let m2 = m1.insert("cae"@, a);
            assert(m2.contains_key("comprobante"@) && m2["comprobante"@] == c);
            lemma_filled_idempotent(entry_or_table(m, "comprobante"@), comprobante_keys());
            let m1b = m2.insert("comprobante"@, filled(entry_or_table(m2, "comprobante"@), comprobante_keys()));
            assert(m1b =~= m2);
            lemma_filled_idempotent(entry_or_table(m1, "cae"@), cae_keys());
            assert(m1b.contains_key("cae"@) && m1b["cae"@] == a);
            let m2b = m1b.insert("cae"@, filled(entry_or_table(m1b, "cae"@), cae_keys()));
            assert(m2b =~= m2);
        },
        _ => {},
    }
}

/// Once an invoice config (a table whose `cae`, if any, is a table) has its
/// placeholders filled and an authorization with a non-blank CAE recorded, it
/// carries a CAE: generating it again re-renders it rather than requesting a
/// second comprobante.
pub proof fn law_authorized_has_cae(v: Toml, res: CaeResult)
    requires
        v is Tab,
        get_key(v, "cae"@) matches Some(c) ==> c is Tab,
        trimmed(res.cae@).len() > 0,
    ensures
        has_cae_spec(authorized(placeholders(v), res)),
{
    reveal_strlit("comprobante");
    reveal_strlit("cae");
    reveal_strlit("numero");
    reveal_strlit("vencimiento");
    assert("comprobante"@ != "cae"@) by {
        assert("comprobante"@.len() != "cae"@.len());
    }
    assert("numero"@ != "vencimiento"@) by {
        assert("numero"@.len() != "vencimiento"@.len());
    }
    let m = v->Tab_0;
    let c = filled(entry_or_table(m, "comprobante"@), comprobante_keys());
    let m1 = m.insert("comprobante"@, c);
    let e = entry_or_table(m1, "cae"@);
    assert(e is Tab);
    lemma_filled_tab(e->Tab_0, cae_keys());
    let a = filled(e, cae_keys());
    let p = placeholders(v);
    assert(get_key(p, "cae"@) == Some(a));
    let v1 = set_str_spec(p, "comprobante"@, "punto_de_venta"@, zero_padded(decimal(res.punto_venta as nat), 5));
    assert(get_key(v1, "cae"@) == Some(a));
    let v2 = set_str_spec(v1, "comprobante"@, "numero"@, zero_padded(decimal(res.numero as nat), 8));
    assert(get_key(v2, "cae"@) == Some(a));
    let v3 = set_str_spec(v2, "comprobante"@, "fecha_emision"@, ddmmyyyy_text(res.fecha));
    assert(get_key(v3, "cae"@) == Some(a));
    let ma = a->Tab_0;
    let v4 = set_str_spec(v3, "cae"@, "numero"@, res.cae@);
    assert(get_key(v4, "cae"@) == Some(Toml::Tab(ma.insert("numero"@, Toml::Str(res.cae@)))));
    let v5 = authorized(p, res);
    let mc = ma.insert("numero"@, Toml::Str(res.cae@));
    assert(get_key(v5, "cae"@) == Some(
        Toml::Tab(mc.insert("vencimiento"@, Toml::Str(ddmmyyyy_of_text(res.cae_vencimiento@)))),
    ));
}

/// An authorized config does not ask for authorization again: generating
/// it a second time re-renders it instead of requesting another
/// comprobante.
pub proof fn law_no_second_authorization(v: Toml, res: CaeResult)
    requires
        v is Tab,
        get_key(v, "cae"@) matches Some(c) ==> c is Tab,
        trimmed(res.cae@).len() > 0,
    ensures
        !needs_authorization_spec(authorized(placeholders(v), res)),
{
    law_authorized_has_cae(v, res);
}

/// A date written as `dd/mm/yyyy` reads back as the same `yyyymmdd`
/// number, for every number.
pub proof fn law_date_roundtrip(n: u32)
    ensures
        date_number(ddmmyyyy_text(n)) == Some(n),
{
    reveal_strlit("/");
    let d = (n % 100) as nat;
    let m = ((n / 100) % 100) as nat;
    let y = (n / 10000) as nat;
    let td = zero_padded(decimal(d), 2);
    let tm = zero_padded(decimal(m), 2);
    let ty = zero_padded(decimal(y), 4);
    lemma_decimal_digits(d);
    lemma_decimal_digits(m);
    lemma_decimal_digits(y);
    lemma_zero_padded_digits(decimal(d), 2);
    lemma_zero_padded_digits(decimal(m), 2);
    lemma_zero_padded_digits(decimal(y), 4);
    assert forall|i: int| 0 <= i < td.len() implies td[i] != '/' by {
        assert(is_digit(td[i]));
    }
    assert forall|i: int| 0 <= i < tm.len() implies tm[i] != '/' by {
        assert(is_digit(tm[i]));
    }
    assert forall|i: int| 0 <= i < ty.len() implies ty[i] != '/' by {
        assert(is_digit(ty[i]));
    }
    assert("/"@ =~= seq!['/']);
    lemma_split_three(td, tm, ty, '/');
    assert(ddmmyyyy_text(n) == td + seq!['/'] + tm + seq!['/'] + ty);
    lemma_parse_digits(td, u32::MAX as nat);
    lemma_parse_digits(tm, u32::MAX as nat);
    lemma_parse_digits(ty, u32::MAX as nat);
    assert(y * 10000 + m * 100 + d == n) by (nonlinear_arith)
        requires
            d == n % 100,
            m == (n / 100) % 100,
            y == n / 10000,
    ;
}

} // verus!
