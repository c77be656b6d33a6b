//! Asset registration for LDtk levels: which asset types and asset loaders the
//! plugin registers, as a verified plan that an application then applies.

pub mod assets;
