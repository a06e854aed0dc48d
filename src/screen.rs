use vstd::prelude::*;

verus! {

/// The top-level view on display; exactly one is active at a time.
#[derive(Debug, Clone, Copy, PartialEq, Eq, Structural)]
pub enum Screen {
    Connection,
    DatabaseList,
    CollectionList,
    DocumentView,
}

} // verus!
