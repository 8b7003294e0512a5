pub mod auction;
pub mod audit;
pub mod auth;
pub mod cart;
pub mod checkout;
pub mod context;
pub mod customer;
pub mod digital;
pub mod email;
pub mod errors;
pub mod identity;
pub mod inventory;
pub mod media;
pub mod metafields;
pub mod numbers;
pub mod pages;
pub mod paging;
pub mod product;
pub mod request;
pub mod routes;
pub mod search;
pub mod session;
pub mod setup;
pub mod status;
pub mod storage;
pub mod sync;
pub mod text;
pub mod time;
