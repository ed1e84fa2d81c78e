//! Request types and request builders of the recommender service.
pub mod builder;
pub mod model;
