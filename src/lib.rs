//! Composable, recursive rendering of nested data into styled terminal text.
//!
//! Every renderable type is paired with a format descriptor type; container
//! descriptors embed the descriptors of their elements, so rendering composes
//! at any nesting depth. Rendering appends to a `String` sink and is a pure
//! function of the value and its descriptor, up to the traversal order of
//! hashed collections and the segment split of double-ended queues.
use vstd::prelude::*;

pub mod style;
pub mod render;
pub mod leaf;
pub mod boolean;
pub mod text;
pub mod numeric;
pub mod sequence;
pub mod slice;
pub mod vec_deque;
pub mod keyed;
pub mod btree_set;
pub mod hash_set;
pub mod btree_map;
pub mod hash_map;
pub mod result;

pub use style::{Color, StyleDesc, TermStyle};
pub use render::{ColorDisplay, Format};
pub use boolean::BoolFormat;
pub use text::{CharFormat, StrFormat};
pub use numeric::{
    I128Format, I16Format, I32Format, I64Format, I8Format, IsizeFormat, NumFormat, U128Format, U16Format,
    U32Format, U64Format, U8Format, UsizeFormat,
};
pub use slice::{SliceFormat, VecFormat};
pub use vec_deque::VecDequeFormat;
pub use btree_set::BTreeSetFormat;
pub use hash_set::HashSetFormat;
pub use btree_map::BTreeMapFormat;
pub use hash_map::HashMapFormat;
pub use result::ResultFormat;

verus! {

} // verus!
