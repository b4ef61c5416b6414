//! Voucher data exchanged with WSFE.
use vstd::prelude::*;

verus! {

/// Voucher / comprobante type codes (ARCA "CbteTipo").
#[derive(Debug, Clone, Copy, PartialEq, Eq, Structural)]
pub enum VoucherType {
    FacturaC,
    NotaDebitoC,
    NotaCreditoC,
}

pub open spec fn voucher_code(t: VoucherType) -> u16 {
    match t {
        VoucherType::FacturaC => 11,
        VoucherType::NotaDebitoC => 12,
        VoucherType::NotaCreditoC => 13,
    }
}

impl VoucherType {
    pub fn code(self) -> (r: u16)
        ensures
            r == voucher_code(self),
    {
        match self {
            VoucherType::FacturaC => 11,
            VoucherType::NotaDebitoC => 12,
            VoucherType::NotaCreditoC => 13,
        }
    }
}

/// "Concepto" — what is being billed.
#[derive(Debug, Clone, Copy, PartialEq, Eq, Structural)]
pub enum Concepto {
    Productos,
    Servicios,
    ProductosYServicios,
}

pub open spec fn concepto_code(c: Concepto) -> u8 {
    match c {
        Concepto::Productos => 1,
        Concepto::Servicios => 2,
        Concepto::ProductosYServicios => 3,
    }
}

pub open spec fn needs_service_dates(c: Concepto) -> bool {
    c == Concepto::Servicios || c == Concepto::ProductosYServicios
}

impl Concepto {
    pub fn code(self) -> (r: u8)
        ensures
            r == concepto_code(self),
    {
        match self {
            Concepto::Productos => 1,
            Concepto::Servicios => 2,
            Concepto::ProductosYServicios => 3,
        }
    }

    /// Services (and mixed) require service-period + payment-due dates.
    pub fn requires_service_dates(self) -> (r: bool)
        ensures
            r == needs_service_dates(self),
    {
        match self {
            Concepto::Servicios | Concepto::ProductosYServicios => true,
            Concepto::Productos => false,
        }
    }
}

/// Receptor document type. `99` is the anonymous "consumidor final".
#[derive(Debug, Clone, Copy, PartialEq, Eq, Structural)]
pub enum DocTipo {
    Cuit,
    Cuil,
    Dni,
    ConsumidorFinal,
}

pub open spec fn doc_tipo_code(d: DocTipo) -> u8 {
    match d {
        DocTipo::Cuit => 80,
        DocTipo::Cuil => 86,
        DocTipo::Dni => 96,
        DocTipo::ConsumidorFinal => 99,
    }
}

impl DocTipo {
    pub fn code(self) -> (r: u8)
        ensures
            r == doc_tipo_code(self),
    {
        match self {
            DocTipo::Cuit => 80,
            DocTipo::Cuil => 86,
            DocTipo::Dni => 96,
            DocTipo::ConsumidorFinal => 99,
        }
    }
}

/// Distinct voucher types, concepts and document types have distinct codes,
/// so a code identifies what was requested.
pub proof fn law_codes_distinct(a: VoucherType, b: VoucherType, c: Concepto, d: Concepto, e: DocTipo, f: DocTipo)
    ensures
        voucher_code(a) == voucher_code(b) ==> a == b,
        concepto_code(c) == concepto_code(d) ==> c == d,
        doc_tipo_code(e) == doc_tipo_code(f) ==> e == f,
{
}

/// A Factura C request. For monotributo there is no discriminated IVA so the
/// net equals the total. The total is carried as the decimal text sent to
/// WSFE (two decimals).
#[derive(Debug)]
pub struct FacturaC {
    pub concepto: Concepto,
    pub doc_tipo: DocTipo,
    /// Receptor document number (0 for consumidor final).
    pub doc_nro: u64,
    /// Total amount in pesos, as decimal text.
    pub importe_total: String,
    /// Voucher date (YYYYMMDD). `None` uses today in AR timezone.
    pub fecha: Option<u32>,
    /// Service period start (YYYYMMDD), required for service concepts.
    pub fecha_servicio_desde: Option<u32>,
    /// Service period end (YYYYMMDD), required for service concepts.
    pub fecha_servicio_hasta: Option<u32>,
    /// Payment due date (YYYYMMDD), required for service concepts.
    pub fecha_vto_pago: Option<u32>,
    /// Receptor's condición frente al IVA (`CondicionIVAReceptorId`).
    /// `5` = consumidor final.
    pub condicion_iva_receptor: u8,
}

impl FacturaC {
    /// A simple Factura C to consumidor final for `importe` pesos.
    pub fn consumidor_final(importe: String) -> (r: Self)
        ensures
            r.concepto == Concepto::Productos,
            r.doc_tipo == DocTipo::ConsumidorFinal,
            r.doc_nro == 0,
            r.importe_total == importe,
            r.fecha is None,
            r.fecha_servicio_desde is None,
            r.fecha_servicio_hasta is None,
            r.fecha_vto_pago is None,
            r.condicion_iva_receptor == 5,
    {
        FacturaC {
            concepto: Concepto::Productos,
            doc_tipo: DocTipo::ConsumidorFinal,
            doc_nro: 0,
            importe_total: importe,
            fecha: None,
            fecha_servicio_desde: None,
            fecha_servicio_hasta: None,
            fecha_vto_pago: None,
            condicion_iva_receptor: 5,
        }
    }
}

/// A voucher as returned by `FECompConsultar` (query by number).
#[derive(Debug)]
pub struct VoucherInfo {
    pub numero: u64,
    pub tipo: u16,
    pub punto_venta: u32,
    /// Voucher date (YYYYMMDD).
    pub fecha: u32,
    /// Total amount, as the decimal text WSFE returned (`0` when absent).
    pub importe_total: String,
    pub doc_tipo: u16,
    pub doc_nro: u64,
    /// CAE (`CodAutorizacion`), if authorized.
    pub cae: Option<String>,
    /// CAE expiration (`FchVto`, YYYYMMDD), if authorized.
    pub cae_vencimiento: Option<String>,
    /// `A` (aprobado), `R` (rechazado), `P` (parcial), or empty.
    pub resultado: String,
}

/// Successful authorization result from `FECAESolicitar`.
#[derive(Debug)]
pub struct CaeResult {
    /// Authorization code.
    pub cae: String,
    /// CAE expiration date (YYYYMMDD).
    pub cae_vencimiento: String,
    /// Assigned voucher number.
    pub numero: u64,
    /// Punto de venta.
    pub punto_venta: u32,
    /// Voucher type code.
    pub tipo: u16,
    /// Voucher date (YYYYMMDD).
    pub fecha: u32,
    /// Total amount, as sent.
    pub importe_total: String,
    /// Non-fatal observations returned by ARCA, if any.
    pub observaciones: Vec<String>,
}

} // verus!
