//! Compiles a tree of player-facing actions into Java source text for a
//! Fabric mod.
//!
//! The compiler is a pure function of the action sequences and the table of
//! block-display models: [`assemble::compile`] returns the body code and the
//! helper methods, [`emit::generate_action_java`] the code of one action.
//! Models with more blocks than fit into one method are split into parts
//! ([`partition`]), each spawned by a helper method of its own ([`spawn`]);
//! helper methods are written for the models that the trees spawn
//! ([`references`]).
//! The text of every emitted construct is given by a template
//! ([`templates`]); the contracts state the generated text exactly.
//!
//! Beside the compiler stand the small rules of the tool around it: project
//! ids and file names ([`project`]), the build report ([`summary`]), reading
//! the answer of the generation service ([`fence`], [`generation`],
//! [`dedup`]) and the deployment servers ([`server`]).

pub mod text;
pub mod unicode;
pub mod ident;
pub mod partition;
pub mod model;
pub mod templates;
pub mod condition;
pub mod lookup;
pub mod references;
pub mod modes;
pub mod blocks;
pub mod spawn;
pub mod emit;
pub mod assemble;
pub mod lines;
pub mod server;
pub mod project;
pub mod summary;
pub mod dedup;
pub mod fence;
pub mod generation;
