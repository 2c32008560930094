#![allow(non_snake_case)]
#![allow(non_camel_case_types)]

pub mod error;
pub mod cursor;
pub mod names;
pub mod varint;
pub mod event;
pub mod stream;
pub mod document;
