//! Game content: items, monsters and levels read from data files, checked
//! and indexed by identifier.
pub mod dice;
pub mod schema;
pub mod load;
