//! Integer views that defer copying borrowed data until the first write.

pub mod lazy_view;
pub mod absolute;
pub mod list;
