//! Argentina's ARCA/AFIP electronic invoicing: the data the web services
//! exchange, the SOAP requests sent to them, and how their replies are read.
pub mod cert;
pub mod config;
pub mod error;
pub mod types;
pub mod wsaa;
pub mod wsfe;
pub mod xml;
