//! Parameters of the HTTP operations.

pub mod create_params;
pub mod destroy_params;
pub mod join_params;
pub mod last_announcement_params;
pub mod photo_params;

pub use create_params::{CreateParams, CreateParamsView};
pub use destroy_params::{DestroyParams, DestroyParamsView};
pub use join_params::{JoinParams, JoinParamsView};
pub use last_announcement_params::{LastAnnouncementParams, LastAnnouncementParamsView};
pub use photo_params::{PhotoParams, PhotoParamsView};
