//! Nutritional score calculator.
//!
//! The engine computes, per meal record, the fixed formula
//! `(calories + protein + fiber) * scale_factor` in IEEE-754 binary64
//! arithmetic, and maps it over batches of records with the output order
//! tracking the input order.

pub mod ieee;
pub mod scoring;

pub use scoring::Meal;
pub use scoring::calculate_nutritional_score;
pub use scoring::calculate_meal_score;
pub use scoring::batch_calculate_scores;
pub use scoring::batch_calculate_scores_sequential;
