//! Governance of deep-domain excavation turns: rights profiles and their
//! verification, the per-epoch capability gate, and the priority-ordered
//! selection of epochs for one turn, with the laws that hold of them.

pub mod text;
pub mod biophysical_tags;
pub mod deep_domain_rights;
pub mod rights_laws;
pub mod epoch_scoring;
pub mod deep_excavation_turn;
pub mod turn_laws;
pub mod neuroautomation_pipeline;
pub mod evolution_turns;
