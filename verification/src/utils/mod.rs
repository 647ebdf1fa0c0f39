pub mod coordinate_utils;
pub mod date_time_utils;
pub mod flight_plan_utils;
pub mod text_utils;
