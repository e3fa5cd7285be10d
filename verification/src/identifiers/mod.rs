pub mod common;
pub mod isin;

pub use common::CharacterClass;
pub use isin::{Isin, IsinError};
pub mod country_code;
pub mod lei;
pub use lei::{Lei, LeiError};
pub mod cnpj;
pub use cnpj::{Cnpj, CnpjError, FormattedCnpj};
pub mod cfi;
pub use cfi::{Cfi, CfiError};
pub mod mic;
pub use mic::{Mic, MicError};
pub mod currency;
pub use currency::{CurrencyCode, CurrencyCodeError};
pub use country_code::{CountryCode, CountryCodeError};
