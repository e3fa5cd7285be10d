pub mod issuer;
pub mod venue;
pub mod security;
pub mod listing;
