//! The assembler: from source lines to operands, layout and bytes.

pub mod bigr;
pub mod err;
pub mod instruction;
pub mod lines;
pub mod operand;
pub mod process;
pub mod sound;
pub mod symbols;
pub mod text;

pub use bigr::{BBigR, BigOperand, WBigR};
pub use err::{Error, ErrorType, LineNumber, SourceLocation};
pub use instruction::SourceOperand;
pub use lines::{SourceLine, SourceLines};
pub use operand::{write_data_operand, DataOperand, LabelRead, Shape, Wide};
pub use process::{
    emit, finish, inner_process, process, DataLine, DataLineSegment, ProcessState,
    ProcessedSource, SegmentTable,
};
pub use symbols::{Address, SymbolType, Symbols};
