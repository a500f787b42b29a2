pub use serde_json::Value;

pub use crate::config::{RuxiosConfig, RuxiosRequestConfig};
pub use crate::error::{RuxiosError, RuxiosErrorValue};
pub use crate::fetch::Fetch;
pub use crate::http_method::HttpMethod;
pub use crate::request::string_to_method;
pub use crate::ruxios::{Ruxios, RuxiosResponse};
