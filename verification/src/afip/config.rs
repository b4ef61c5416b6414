//! Issuer configuration and service endpoints.
use vstd::prelude::*;

verus! {

/// The path type that the issuer configuration holds.
#[verifier::external_type_specification]
#[verifier::external_body]
pub struct ExPathBuf(std::path::PathBuf);

/// ARCA/AFIP environment. Certificates are issued per-environment and are not
/// interchangeable.
#[derive(Debug, Clone, Copy, PartialEq, Eq, Structural)]
pub enum Environment {
    /// Testing environment (homologación).
    Homologacion,
    /// Real environment; vouchers issued here are fiscally valid.
    Produccion,
}

impl Default for Environment {
    fn default() -> (r: Self)
        ensures
            r == Environment::Homologacion,
    {
        Environment::Homologacion
    }
}

pub open spec fn wsaa_url_of(env: Environment) -> Seq<char> {
    match env {
        Environment::Homologacion => "https://wsaahomo.afip.gov.ar/ws/services/LoginCms"@,
        Environment::Produccion => "https://wsaa.afip.gov.ar/ws/services/LoginCms"@,
    }
}

pub open spec fn wsfe_url_of(env: Environment) -> Seq<char> {
    match env {
        Environment::Homologacion => "https://wswhomo.afip.gov.ar/wsfev1/service.asmx"@,
        Environment::Produccion => "https://servicios1.afip.gov.ar/wsfev1/service.asmx"@,
    }
}

impl Environment {
    /// WSAA `loginCms` SOAP endpoint.
    pub fn wsaa_url(self) -> (r: &'static str)
        ensures
            r@ == wsaa_url_of(self),
    {
        match self {
            Environment::Homologacion => "https://wsaahomo.afip.gov.ar/ws/services/LoginCms",
            Environment::Produccion => "https://wsaa.afip.gov.ar/ws/services/LoginCms",
        }
    }

    /// WSFEv1 SOAP endpoint.
    pub fn wsfe_url(self) -> (r: &'static str)
        ensures
            r@ == wsfe_url_of(self),
    {
        match self {
            Environment::Homologacion => "https://wswhomo.afip.gov.ar/wsfev1/service.asmx",
            Environment::Produccion => "https://servicios1.afip.gov.ar/wsfev1/service.asmx",
        }
    }
}

/// The testing and production environments never share an endpoint, so a
/// testing configuration cannot reach the production services.
pub proof fn law_environments_apart()
    ensures
        wsaa_url_of(Environment::Homologacion) != wsaa_url_of(Environment::Produccion),
        wsfe_url_of(Environment::Homologacion) != wsfe_url_of(Environment::Produccion),
{
    reveal_strlit("https://wsaahomo.afip.gov.ar/ws/services/LoginCms");
    reveal_strlit("https://wsaa.afip.gov.ar/ws/services/LoginCms");
    reveal_strlit("https://wswhomo.afip.gov.ar/wsfev1/service.asmx");
    reveal_strlit("https://servicios1.afip.gov.ar/wsfev1/service.asmx");
    assert(wsaa_url_of(Environment::Homologacion).len() != wsaa_url_of(Environment::Produccion).len());
    assert(wsfe_url_of(Environment::Homologacion)[8] != wsfe_url_of(Environment::Produccion)[8]);
}

/// Condición frente al IVA of the invoice issuer. Monotributistas issue
/// Factura C and carry no discriminated IVA.
#[derive(Debug, Clone, Copy, PartialEq, Eq, Structural)]
pub enum CondicionIva {
    Monotributo,
    ResponsableInscripto,
    Exento,
}

/// Issuer ("emisor") configuration, persisted as `emisor_config.json`.
pub struct EmisorConfig {
    /// Issuer CUIT (11 digits, no dashes).
    pub cuit: u64,
    /// Punto de venta registered in "Web Services" mode.
    pub punto_venta: u32,
    /// Legal name.
    pub razon_social: String,
    /// Tax condition of the issuer.
    pub condicion_iva: CondicionIva,
    /// Target environment.
    pub environment: Environment,
    /// Path to the PEM certificate issued by ARCA.
    pub cert_path: std::path::PathBuf,
    /// Path to the PEM private key that produced the CSR.
    pub key_path: std::path::PathBuf,
}

} // verus!
