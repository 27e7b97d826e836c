//! The request and response logic of a read-only query service over a table
//! of posts annotated with sentiment scores.

pub mod calendar;
pub mod create_response;
pub mod data_structs;
pub mod get_all_data;
pub mod get_data_by_date;
pub mod get_data_by_sentiment_threshold;
pub mod index;
pub mod json;
pub mod reply;
pub mod score;
pub mod statement;
pub mod text;
