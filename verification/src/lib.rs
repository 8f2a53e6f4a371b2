//! Schema compiler for models stored in an ordered key-value table.
//!
//! A model is a struct whose fields are each part of the key or of the value of
//! an entry. From the arguments declared on the struct and on its fields,
//! [`Model`] works out the definition of the model's table and the source text of
//! the conversions between the model and its entry.
pub mod args;
pub mod derive;
pub mod error;
pub mod expr;
pub mod impl_from;
pub mod impl_model;
pub mod impl_model_ext;
pub mod model;
pub mod semantics;
pub mod text;
pub mod ty;
pub mod var;
pub mod variable;

pub use args::{
    Data, EntryArgs, EntryPosition, ModelArgs, ModelTableType, VariableArgs, VariablePosition,
};
pub use derive::{Expansion, Model};
pub use error::Error;
pub use expr::Expr;
pub use model::{ModelMeta, TableMetadata};
pub use ty::{GroupType, RedbType, Type, TypeClass};
pub use var::ValueMeta;
pub use variable::CompositeVariable;
