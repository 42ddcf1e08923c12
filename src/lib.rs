//! A flat-object-store backed filesystem namespace: a single root directory
//! whose entries are metadata records stored under the root object, with a
//! process-local registry that maps inode numbers to store locations.

pub mod error;
pub mod record;
pub mod registry;
pub mod conn;
pub mod enumerate;
pub mod client;
pub mod readdir;
