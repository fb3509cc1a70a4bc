pub mod consts;
pub mod decimal;
pub mod manager;
pub mod proxy;
pub mod signaling;
pub mod table;
