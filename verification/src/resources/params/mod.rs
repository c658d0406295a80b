pub mod course_params;
pub mod quiz_params;
pub mod user_params;
