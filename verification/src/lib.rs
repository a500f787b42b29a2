pub mod config;
pub mod error;
pub mod fetch;
pub mod http_method;
pub mod json;
pub mod prelude;
pub mod request;
pub mod ruxios;
pub mod utils;

pub use config::{RuxiosConfig, RuxiosRequestConfig};
pub use error::{RuxiosError, RuxiosErrorValue, narrow_error};
pub use fetch::Fetch;
pub use http_method::HttpMethod;
pub use request::{method_from_upper, method_mapping_is_case_invariant, string_to_method};
pub use ruxios::{
    PreparedRequest, Ruxios, RuxiosResponse, echo_round_trip, encode_body, full_url,
    handle_response,
};
pub use utils::{convert_map, convert_pairs};
