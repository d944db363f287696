//! Account, password and subscription logic of a small file-sharing
//! marketplace: password hashing and checking, subscription periods, and the
//! answers the web front end gives to account requests.

pub mod password;
pub mod reply;
pub mod subscription;
pub mod text;
pub mod time;
