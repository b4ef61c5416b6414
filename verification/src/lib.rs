//! Invoice rendering and Argentine electronic-invoicing logic.
pub mod afip;
pub mod afip_invoice;
pub mod commands;
pub mod fonts;
pub mod formats;
pub mod overrides;
pub mod schema;
pub mod text;
pub mod typst;
pub mod value;
