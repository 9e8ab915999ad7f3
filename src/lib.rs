//! Coupons and the decisions of the coupon service, with a model of the coupon table.
pub mod model;
pub mod service;
pub mod table;
