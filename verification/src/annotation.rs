use vstd::prelude::*;

verus! {

/// Tools of the standalone annotation layer.
#[derive(Clone, Copy, PartialEq, Eq, Debug, Structural)]
pub enum Tool {
    Select,
    Brush,
    Rectangle,
    Arrow,
    Text,
}

/// The kinds of mark that the annotation layer draws.
#[derive(Clone, Copy, PartialEq, Eq, Debug, Structural)]
pub enum ToolType {
    Rectangle,
    Arrow,
    Brush,
    Text,
}

} // verus!
