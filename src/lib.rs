pub mod error;
pub mod formatter;
pub mod ioreg;
pub mod ipconfig;
pub mod layout;
pub mod snapshot;
pub mod systemctl;
pub mod text;
pub mod whoami;
