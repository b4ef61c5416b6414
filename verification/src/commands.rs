//! The decisions behind the command-line commands: which vouchers to list
//! and how to lay them out, where cached credentials live, and how output
//! files are named when a name is taken.
use vstd::prelude::*;

use crate::afip::config::{CondicionIva, Environment};
use crate::afip::types::VoucherInfo;
use crate::text::{decimal, push_decimal, string_of};

verus! {

/// Issuer's condición frente al IVA (for `afip configure`).
#[derive(Copy, Clone, Debug, PartialEq, Eq, Structural)]
pub enum CondicionIvaArg {
    Monotributo,
    ResponsableInscripto,
    Exento,
}

pub open spec fn condicion_of(v: CondicionIvaArg) -> CondicionIva {
    match v {
        CondicionIvaArg::Monotributo => CondicionIva::Monotributo,
        CondicionIvaArg::ResponsableInscripto => CondicionIva::ResponsableInscripto,
        CondicionIvaArg::Exento => CondicionIva::Exento,
    }
}

impl From<CondicionIvaArg> for CondicionIva {
    fn from(v: CondicionIvaArg) -> (r: Self) {
        match v {
            CondicionIvaArg::Monotributo => CondicionIva::Monotributo,
            CondicionIvaArg::ResponsableInscripto => CondicionIva::ResponsableInscripto,
            CondicionIvaArg::Exento => CondicionIva::Exento,
        }
    }
}

impl vstd::std_specs::convert::FromSpecImpl<CondicionIvaArg> for CondicionIva {
    open spec fn obeys_from_spec() -> bool {
        true
    }

    open spec fn from_spec(v: CondicionIvaArg) -> Self {
        condicion_of(v)
    }
}

// ---------------------------------------------------------------------------
// Listing vouchers
// ---------------------------------------------------------------------------

/// The vouchers to list, given how many of the most recent to show, the
/// optional first number, and the last number (the last authorized one when
/// none was given): `Ok(None)` when no voucher was issued, the inclusive
/// range otherwise, and an error when the first number is past the last.
pub open spec fn range_of(last: u64, from: Option<u64>, to: u64) -> Result<Option<(u64, u64)>, Seq<char>> {
    if to == 0 {
        Ok(None)
    } else {
        let recent: int = if last >= 1 { last - 1 } else { 0 };
        let start: int = match from {
            Some(f) => f as int,
            None => if to >= recent { to - recent } else { 0 },
        };
        let f: int = if start >= 1 { start } else { 1 };
        if f > to {
            Err("--from ("@ + decimal(f as nat) + ") es mayor que --to ("@ + decimal(to as nat) + ")"@)
        } else {
            Ok(Some((f as u64, to)))
        }
    }
}

/// Which vouchers `afip list-vouchers` shows.
pub fn voucher_range(last: u64, from: Option<u64>, to: u64) -> (r: Result<Option<(u64, u64)>, String>)
    ensures
        match (r, range_of(last, from, to)) {
            (Ok(x), Ok(y)) => x == y,
            (Err(m), Err(e)) => m@ == e,
            _ => false,
        },
{
    if to == 0 {
        return Ok(None);
    }
    let start = match from {
        Some(f) => f,
        None => to.saturating_sub(last.saturating_sub(1)),
    };
    let f = if start >= 1 { start } else { 1 };
    if f > to {
        let mut m = string_of("--from (");
        push_decimal(&mut m, f);
        m.append(") es mayor que --to (");
        push_decimal(&mut m, to);
        m.append(")");
        return Err(m);
    }
    Ok(Some((f, to)))
}

/// The listed range never starts below voucher 1 and, when no first number
/// is given, holds at most `last` vouchers (at least one) ending at `to`.
pub proof fn law_range_bounds(last: u64, from: Option<u64>, to: u64)
    ensures
        range_of(last, from, to) matches Ok(Some((f, t))) ==> 1 <= f <= t && t == to,
        from is None && to >= 1 ==> (range_of(last, from, to) matches Ok(Some((f, t))) && t - f
            < if last >= 1 { last as int } else { 1 }),
{
}

/// `s` right-aligned in `w` characters (`{:>w}`).
pub open spec fn pad_left(s: Seq<char>, w: nat) -> Seq<char> {
    if s.len() >= w {
        s
    } else {
        Seq::new((w - s.len()) as nat, |i: int| ' ') + s
    }
}

/// `s` left-aligned in `w` characters (`{:<w}`).
pub open spec fn pad_right(s: Seq<char>, w: nat) -> Seq<char> {
    if s.len() >= w {
        s
    } else {
        s + Seq::new((w - s.len()) as nat, |i: int| ' ')
    }
}

fn spaces(out: &mut String, k: usize)
    ensures
        final(out)@ == old(out)@ + Seq::new(k as nat, |i: int| ' '),
{
    let ghost start = out@;
    let mut i: usize = 0;
    while i < k
        invariant
            i <= k,
            out@ == start + Seq::new(i as nat, |j: int| ' '),
        decreases k - i,
    {
        crate::text::push_char(out, ' ');
        i = i + 1;
        assert(out@ =~= start + Seq::new(i as nat, |j: int| ' '));
    }
}

/// Appends `s` right-aligned in `w` characters.
pub fn push_padded_left(out: &mut String, s: &str, w: usize)
    ensures
        final(out)@ == old(out)@ + pad_left(s@, w as nat),
{
    let n = s.unicode_len();
    let ghost start = out@;
    if n < w {
        spaces(out, w - n);
    }
    out.append(s);
    assert(out@ =~= start + pad_left(s@, w as nat));
}

/// Appends `s` left-aligned in `w` characters.
pub fn push_padded_right(out: &mut String, s: &str, w: usize)
    ensures
        final(out)@ == old(out)@ + pad_right(s@, w as nat),
{
    let n = s.unicode_len();
    let ghost start = out@;
    out.append(s);
    if n < w {
        spaces(out, w - n);
    }
    assert(out@ =~= start + pad_right(s@, w as nat));
}

/// The table line of one listing: number, date, amount, document, CAE and
/// result, in columns of 8, 8, 14, 11, 14 and 3 characters separated by two
/// spaces, the CAE left-aligned.
pub open spec fn row_text(c1: Seq<char>, c2: Seq<char>, c3: Seq<char>, c4: Seq<char>, c5: Seq<char>, c6: Seq<char>) -> Seq<char> {
    pad_left(c1, 8) + "  "@ + pad_left(c2, 8) + "  "@ + pad_left(c3, 14) + "  "@ + pad_left(c4, 11)
        + "  "@ + pad_right(c5, 14) + "  "@ + pad_left(c6, 3)
}

fn row(c1: &str, c2: &str, c3: &str, c4: &str, c5: &str, c6: &str) -> (r: String)
    ensures
        r@ == row_text(c1@, c2@, c3@, c4@, c5@, c6@),
{
    let mut out = String::new();
    push_padded_left(&mut out, c1, 8);
    out.append("  ");
    push_padded_left(&mut out, c2, 8);
    out.append("  ");
    push_padded_left(&mut out, c3, 14);
    out.append("  ");
    push_padded_left(&mut out, c4, 11);
    out.append("  ");
    push_padded_right(&mut out, c5, 14);
    out.append("  ");
    push_padded_left(&mut out, c6, 3);
    assert(out@ =~= row_text(c1@, c2@, c3@, c4@, c5@, c6@));
    out
}

/// The header line of the voucher listing.
pub fn voucher_header() -> (r: String)
    ensures
        r@ == row_text("NÚMERO"@, "FECHA"@, "IMPORTE"@, "DOC NRO"@, "CAE"@, "RES"@),
{
    row("NÚMERO", "FECHA", "IMPORTE", "DOC NRO", "CAE", "RES")
}

/// The document column: `CF` (consumidor final) for document number 0.
pub open spec fn doc_label_of(doc_nro: u64) -> Seq<char> {
    if doc_nro == 0 {
        "CF"@
    } else {
        decimal(doc_nro as nat)
    }
}

pub fn doc_label(doc_nro: u64) -> (r: String)
    ensures
        r@ == doc_label_of(doc_nro),
{
    if doc_nro == 0 {
        string_of("CF")
    } else {
        crate::text::u64_to_string(doc_nro)
    }
}

/// The CAE column: the CAE, or `-`.
pub open spec fn cae_label_of(cae: Option<String>) -> Seq<char> {
    match cae {
        Some(c) => c@,
        None => "-"@,
    }
}

/// The listing line of voucher `v` whose amount renders as `importe`.
pub open spec fn voucher_row_text(v: VoucherInfo, importe: Seq<char>) -> Seq<char> {
    row_text(
        decimal(v.numero as nat),
        decimal(v.fecha as nat),
        importe,
        doc_label_of(v.doc_nro),
        cae_label_of(v.cae),
        v.resultado@,
    )
}

/// The CAE column of a listed voucher shows its CAE; `-` shows only for a
/// voucher without one.
pub proof fn law_cae_column(v: VoucherInfo, importe: Seq<char>)
    ensures
        v.cae matches Some(c) ==> voucher_row_text(v, importe) == row_text(
            decimal(v.numero as nat),
            decimal(v.fecha as nat),
            importe,
            doc_label_of(v.doc_nro),
            c@,
            v.resultado@,
        ),
        v.cae is None ==> voucher_row_text(v, importe) == row_text(
            decimal(v.numero as nat),
            decimal(v.fecha as nat),
            importe,
            doc_label_of(v.doc_nro),
            "-"@,
            v.resultado@,
        ),
{
}

/// The listing line of voucher `v`, whose amount renders as `importe`
/// (`$` and two decimals).
pub fn voucher_row(v: &VoucherInfo, importe: &str) -> (r: String)
    ensures
        r@ == voucher_row_text(*v, importe@),
{
    let numero = crate::text::u64_to_string(v.numero);
    let fecha = crate::text::u64_to_string(v.fecha as u64);
    let doc = doc_label(v.doc_nro);
    let cae = match &v.cae {
        Some(c) => string_of(c.as_str()),
        None => string_of("-"),
    };
    row(
        numero.as_str(),
        fecha.as_str(),
        importe,
        doc.as_str(),
        cae.as_str(),
        v.resultado.as_str(),
    )
}

// ---------------------------------------------------------------------------
// File names
// ---------------------------------------------------------------------------

/// The name of the credential cache of `service` in environment `env`.
pub open spec fn cache_file_name_of(env: Environment, service: Seq<char>) -> Seq<char> {
    "wsaa-"@ + (match env {
        Environment::Homologacion => "homo"@,
        Environment::Produccion => "prod"@,
    }) + "-"@ + service + ".json"@
}

/// `wsaa-{homo|prod}-{service}.json`: the cache file of a service's
/// credentials; the two environments never share one.
pub fn cache_file_name(env: Environment, service: &str) -> (r: String)
    ensures
        r@ == cache_file_name_of(env, service@),
{
    let mut out = string_of("wsaa-");
    match env {
        Environment::Homologacion => out.append("homo"),
        Environment::Produccion => out.append("prod"),
    }
    out.append("-");
    out.append(service);
    out.append(".json");
    out
}

/// The output file of an invoice filed under `number`, when none is given.
pub open spec fn default_output_of(number: Seq<char>) -> Seq<char> {
    "invoice-"@ + number + ".pdf"@
}

/// `invoice-{number}.pdf`.
pub fn default_output_name(number: &str) -> (r: String)
    ensures
        r@ == default_output_of(number@),
{
    let mut out = string_of("invoice-");
    out.append(number);
    out.append(".pdf");
    out
}

/// The `n`-th alternative name of an output file: `{stem}_{n}.{ext}`.
pub open spec fn numbered_name_of(stem: Seq<char>, n: u64, ext: Seq<char>) -> Seq<char> {
    stem + "_"@ + decimal(n as nat) + "."@ + ext
}

pub fn numbered_file_name(stem: &str, n: u64, ext: &str) -> (r: String)
    ensures
        r@ == numbered_name_of(stem@, n, ext@),
{
    let mut out = string_of(stem);
    out.append("_");
    push_decimal(&mut out, n);
    out.append(".");
    out.append(ext);
    out
}

} // verus!
