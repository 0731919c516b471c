pub mod collaboration;
pub mod ids;
pub mod keyed;
pub mod laws;
pub mod model_cache;
pub mod order;
pub mod proto;
pub mod saved;
pub mod seqs;
pub mod settings;
pub mod shell;
pub mod state;
pub mod terminal;
pub mod text;
pub mod theme;
pub mod wire;
