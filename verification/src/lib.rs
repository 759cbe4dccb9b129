//! Recognition of `say` messages embedded in JavaScript and JSX syntax trees:
//! the message tree, its ICU MessageFormat text, the identifier derived from
//! that text, and the runtime call that replaces a recognised message.

pub mod text;
pub mod store;
pub mod syntax;
pub mod message;
pub mod icu;
pub mod hash;
pub mod context;
pub mod js;
pub mod jsx;
pub mod generator;
pub mod visitor;
pub mod imports;
