//! Small helpers shared by the rest of the crate.

pub mod app_error;
pub mod clock;
pub mod date_serde;
pub mod option_ext;
pub mod query_params;
pub mod response;
pub mod string_ext;
pub mod text;
pub mod text_map;

pub use app_error::{error, not_found, AppError, ToBadRequest};
pub use clock::Clock;
pub use date_serde::Timestamp;
pub use option_ext::OptionExt;
pub use query_params::{Params, ParseParamError, QueryParams};
pub use response::{error_response, json_response, ok_response, photo_response, HttpResponse};
pub use string_ext::{OrEmpty, StringExt};
pub use text_map::TextMap;
