pub mod generate_metas;
pub mod generate_normalized_stats;
