pub mod global_types;
pub mod outside;
pub mod text;
pub mod json;
pub mod error;
pub mod fields;
pub mod http;
pub mod search_content;
pub mod featured_content;
pub mod trending_content;
pub mod markup;
pub mod view_content;
pub mod view_content_info;
