//! Error taxonomy, priorities, task states and lattice patterns.

use crate::text::{decimal, push_decimal};
use vstd::prelude::*;
use vstd::std_specs::convert::FromSpecImpl;
use vstd::string::StringExecFns;

verus! {

/// Result type for operations of the runtime.
pub type PrismResult<T> = Result<T, PrismError>;

/// The kind of an error, without its message.
#[derive(Debug, Clone, Copy, PartialEq, Eq, Structural, Hash)]
pub enum ErrorKind {
    /// Explicit non-error value, used only where errors travel as codes.
    Success,
    /// Scheduler or worker-pool failure.
    Runtime,
    /// Task construction or validation failure.
    Task,
    /// The shared lattice is unavailable or invalid.
    Crystal,
    /// Failure while adapting a call across a language boundary.
    Binding,
    /// Uncategorized host failure.
    SystemError,
    /// Bad configuration value.
    InvalidArgument,
    /// Allocation failure.
    OutOfMemory,
    /// A task ran past its deadline.
    Timeout,
    /// Operation attempted before the runtime was initialized.
    NotInitialized,
}

impl ErrorKind {
    /// The integer code under which the kind crosses a language boundary.
    pub open spec fn code_spec(self) -> i32 {
        match self {
            ErrorKind::Success => 0,
            ErrorKind::Runtime => 1,
            ErrorKind::Task => 2,
            ErrorKind::Crystal => 3,
            ErrorKind::Binding => 4,
            ErrorKind::SystemError => 5,
            ErrorKind::InvalidArgument => 6,
            ErrorKind::OutOfMemory => 7,
            ErrorKind::Timeout => 8,
            ErrorKind::NotInitialized => 9,
        }
    }

    /// The kind that a code stands for. A code that no kind owns stands for
    /// `SystemError`.
    pub open spec fn of_code(code: i32) -> ErrorKind {
        if code == 0 {
            ErrorKind::Success
        } else if code == 1 {
            ErrorKind::Runtime
        } else if code == 2 {
            ErrorKind::Task
        } else if code == 3 {
            ErrorKind::Crystal
        } else if code == 4 {
            ErrorKind::Binding
        } else if code == 6 {
            ErrorKind::InvalidArgument
        } else if code == 7 {
            ErrorKind::OutOfMemory
        } else if code == 8 {
            ErrorKind::Timeout
        } else if code == 9 {
            ErrorKind::NotInitialized
        } else {
            ErrorKind::SystemError
        }
    }

    /// The integer code of the kind.
    pub fn code(self) -> (c: i32)
        ensures
            c == self.code_spec(),
    {
        match self {
            ErrorKind::Success => 0,
            ErrorKind::Runtime => 1,
            ErrorKind::Task => 2,
            ErrorKind::Crystal => 3,
            ErrorKind::Binding => 4,
            ErrorKind::SystemError => 5,
            ErrorKind::InvalidArgument => 6,
            ErrorKind::OutOfMemory => 7,
            ErrorKind::Timeout => 8,
            ErrorKind::NotInitialized => 9,
        }
    }

    /// The kind that `code` stands for.
    pub fn from_code(code: i32) -> (k: ErrorKind)
        ensures
            k == ErrorKind::of_code(code),
    {
        match code {
            0 => ErrorKind::Success,
            1 => ErrorKind::Runtime,
            2 => ErrorKind::Task,
            3 => ErrorKind::Crystal,
            4 => ErrorKind::Binding,
            6 => ErrorKind::InvalidArgument,
            7 => ErrorKind::OutOfMemory,
            8 => ErrorKind::Timeout,
            9 => ErrorKind::NotInitialized,
            _ => ErrorKind::SystemError,
        }
    }
}

/// Every kind comes back from its own code: encoding a kind and decoding the
/// code yields the kind that was encoded.
pub proof fn lemma_kind_code_round_trip(kind: ErrorKind)
    ensures
        ErrorKind::of_code(kind.code_spec()) == kind,
{
}

/// Every code from 0 to 9 comes back from its own kind, and every other code
/// decodes to `SystemError`.
pub proof fn lemma_code_kind_round_trip(code: i32)
    ensures
        0 <= code <= 9 ==> ErrorKind::of_code(code).code_spec() == code,
        !(0 <= code <= 9) ==> ErrorKind::of_code(code) == ErrorKind::SystemError,
{
}

/// Error type for operations of the runtime: a kind and, for most kinds, a
/// message.
#[derive(Debug)]
pub enum PrismError {
    /// Runtime execution errors
    Runtime(String),
    /// Task-related errors
    Task(String),
    /// Crystal system errors
    Crystal(String),
    /// FFI binding errors
    Binding(String),
    /// System-level errors
    SystemError(String),
    /// Invalid argument errors
    InvalidArgument(String),
    /// Memory allocation errors
    OutOfMemory(String),
    /// Operation timeout errors
    Timeout(String),
    /// System not initialized
    NotInitialized,
    /// Operation completed successfully
    Success,
}

/// The message that an error decoded from `code` carries; empty for the two
/// kinds without a message.
pub open spec fn decoded_detail(code: i32) -> Seq<char> {
    if code == 0 || code == 9 {
        Seq::<char>::empty()
    } else if code == 1 {
        "Unknown runtime error"@
    } else if code == 2 {
        "Unknown task error"@
    } else if code == 3 {
        "Unknown crystal error"@
    } else if code == 4 {
        "Unknown binding error"@
    } else if code == 5 {
        "Unknown system error"@
    } else if code == 6 {
        "Unknown invalid argument"@
    } else if code == 7 {
        "Unknown memory error"@
    } else if code == 8 {
        "Unknown timeout error"@
    } else {
        "Unknown error code: "@ + decimal(code as int)
    }
}

impl PrismError {
    /// The kind of the error.
    pub open spec fn kind_spec(&self) -> ErrorKind {
        match self {
            PrismError::Runtime(_) => ErrorKind::Runtime,
            PrismError::Task(_) => ErrorKind::Task,
            PrismError::Crystal(_) => ErrorKind::Crystal,
            PrismError::Binding(_) => ErrorKind::Binding,
            PrismError::SystemError(_) => ErrorKind::SystemError,
            PrismError::InvalidArgument(_) => ErrorKind::InvalidArgument,
            PrismError::OutOfMemory(_) => ErrorKind::OutOfMemory,
            PrismError::Timeout(_) => ErrorKind::Timeout,
            PrismError::NotInitialized => ErrorKind::NotInitialized,
            PrismError::Success => ErrorKind::Success,
        }
    }

    /// The message that the error carries; empty for `NotInitialized` and
    /// `Success`.
    pub open spec fn detail(&self) -> Seq<char> {
        match self {
            PrismError::Runtime(m) => m@,
            PrismError::Task(m) => m@,
            PrismError::Crystal(m) => m@,
            PrismError::Binding(m) => m@,
            PrismError::SystemError(m) => m@,
            PrismError::InvalidArgument(m) => m@,
            PrismError::OutOfMemory(m) => m@,
            PrismError::Timeout(m) => m@,
            PrismError::NotInitialized => Seq::<char>::empty(),
            PrismError::Success => Seq::<char>::empty(),
        }
    }

    /// The text under which the error is shown: a label for its kind, then
    /// its message.
    pub open spec fn text(&self) -> Seq<char> {
        match self {
            PrismError::Runtime(m) => "Runtime error: "@ + m@,
            PrismError::Task(m) => "Task error: "@ + m@,
            PrismError::Crystal(m) => "Crystal error: "@ + m@,
            PrismError::Binding(m) => "Binding error: "@ + m@,
            PrismError::SystemError(m) => "System error: "@ + m@,
            PrismError::InvalidArgument(m) => "Invalid argument: "@ + m@,
            PrismError::OutOfMemory(m) => "Out of memory: "@ + m@,
            PrismError::Timeout(m) => "Operation timed out: "@ + m@,
            PrismError::NotInitialized => "System not initialized"@,
            PrismError::Success => "Success"@,
        }
    }

    /// The kind of the error.
    #[verifier::when_used_as_spec(kind_spec)]
    pub fn kind(&self) -> (k: ErrorKind)
        ensures
            k == self.kind_spec(),
    {
        match self {
            PrismError::Runtime(_) => ErrorKind::Runtime,
            PrismError::Task(_) => ErrorKind::Task,
            PrismError::Crystal(_) => ErrorKind::Crystal,
            PrismError::Binding(_) => ErrorKind::Binding,
            PrismError::SystemError(_) => ErrorKind::SystemError,
            PrismError::InvalidArgument(_) => ErrorKind::InvalidArgument,
            PrismError::OutOfMemory(_) => ErrorKind::OutOfMemory,
            PrismError::Timeout(_) => ErrorKind::Timeout,
            PrismError::NotInitialized => ErrorKind::NotInitialized,
            PrismError::Success => ErrorKind::Success,
        }
    }

    /// The text under which the error is shown.
    pub fn to_string(&self) -> (s: String)
        ensures
            s@ == self.text(),
    {
        match self {
            PrismError::Runtime(m) => labelled("Runtime error: ", m),
            PrismError::Task(m) => labelled("Task error: ", m),
            PrismError::Crystal(m) => labelled("Crystal error: ", m),
            PrismError::Binding(m) => labelled("Binding error: ", m),
            PrismError::SystemError(m) => labelled("System error: ", m),
            PrismError::InvalidArgument(m) => labelled("Invalid argument: ", m),
            PrismError::OutOfMemory(m) => labelled("Out of memory: ", m),
            PrismError::Timeout(m) => labelled("Operation timed out: ", m),
            PrismError::NotInitialized => "System not initialized".to_owned(),
            PrismError::Success => "Success".to_owned(),
        }
    }
}

fn labelled(label: &str, message: &String) -> (s: String)
    ensures
        s@ == label@ + message@,
{
    let mut s = label.to_owned();
    s.append(message.as_str());
    s
}

impl From<i32> for PrismError {
    /// Decodes an error from its integer code. The codes 0 to 9 give their
    /// kind with a stock message; any other code gives a `SystemError` whose
    /// message carries the code.
    fn from(code: i32) -> (e: Self)
        ensures
            e.kind_spec() == ErrorKind::of_code(code),
            e.detail() == decoded_detail(code),
    {
        match code {
            0 => PrismError::Success,
            1 => PrismError::Runtime("Unknown runtime error".to_owned()),
            2 => PrismError::Task("Unknown task error".to_owned()),
            3 => PrismError::Crystal("Unknown crystal error".to_owned()),
            4 => PrismError::Binding("Unknown binding error".to_owned()),
            5 => PrismError::SystemError("Unknown system error".to_owned()),
            6 => PrismError::InvalidArgument("Unknown invalid argument".to_owned()),
            7 => PrismError::OutOfMemory("Unknown memory error".to_owned()),
            8 => PrismError::Timeout("Unknown timeout error".to_owned()),
            9 => PrismError::NotInitialized,
            _ => {
                let mut message = "Unknown error code: ".to_owned();
                push_decimal(&mut message, code as i64);
                PrismError::SystemError(message)
            },
        }
    }
}

impl FromSpecImpl<i32> for PrismError {
    /// A decoded error owns a freshly allocated message, so `from` returns
    /// some error of the decoded kind and message, not one fixed value: its
    /// own contract states both.
    open spec fn obeys_from_spec() -> bool {
        false
    }

    open spec fn from_spec(code: i32) -> PrismError {
        choose|e: PrismError|
            e.kind_spec() == ErrorKind::of_code(code) && e.detail() == decoded_detail(code)
    }
}

impl From<PrismError> for i32 {
    /// Encodes an error as the integer code of its kind; the message is left
    /// behind.
    fn from(error: PrismError) -> (code: i32)
        ensures
            code == error.kind_spec().code_spec(),
    {
        match error {
            PrismError::Success => 0,
            PrismError::Runtime(_) => 1,
            PrismError::Task(_) => 2,
            PrismError::Crystal(_) => 3,
            PrismError::Binding(_) => 4,
            PrismError::SystemError(_) => 5,
            PrismError::InvalidArgument(_) => 6,
            PrismError::OutOfMemory(_) => 7,
            PrismError::Timeout(_) => 8,
            PrismError::NotInitialized => 9,
        }
    }
}

impl FromSpecImpl<PrismError> for i32 {
    open spec fn obeys_from_spec() -> bool {
        true
    }

    open spec fn from_spec(error: PrismError) -> i32 {
        error.kind_spec().code_spec()
    }
}

/// An error comes back from its own code with the kind it had: decoding the
/// code that an error is encoded as gives the kind of that error. The
/// message does not travel with the code.
pub proof fn lemma_error_code_round_trip(error: PrismError)
    ensures
        ErrorKind::of_code(error.kind_spec().code_spec()) == error.kind_spec(),
{
}

/// Priority levels for tasks, from least to most urgent.
#[derive(Debug, Clone, Copy, PartialEq, Eq, Structural, PartialOrd, Ord)]
pub enum Priority {
    Low,
    Normal,
    High,
    Critical,
}

impl Priority {
    /// Position of the level in the order `Low < Normal < High < Critical`.
    pub open spec fn rank_spec(self) -> int {
        match self {
            Priority::Low => 0,
            Priority::Normal => 1,
            Priority::High => 2,
            Priority::Critical => 3,
        }
    }

    /// Position of the level in the order `Low < Normal < High < Critical`.
    pub fn rank(self) -> (r: u8)
        ensures
            r == self.rank_spec(),
    {
        match self {
            Priority::Low => 0,
            Priority::Normal => 1,
            Priority::High => 2,
            Priority::Critical => 3,
        }
    }
}

impl Default for Priority {
    fn default() -> (p: Self)
        ensures
            p == Priority::Normal,
    {
        Priority::Normal
    }
}

/// Lifecycle state of a task: `Ready`, then `Running`, then `Completed` or
/// `Failed`.
#[derive(Debug, Clone, Copy, PartialEq, Eq, Structural)]
pub enum TaskStatus {
    Ready,
    Running,
    Completed,
    Failed,
}

impl Default for TaskStatus {
    fn default() -> (s: Self)
        ensures
            s == TaskStatus::Ready,
    {
        TaskStatus::Ready
    }
}

/// Crystal pattern types: the topology of a lattice.
#[derive(Debug, Clone, Copy, PartialEq, Eq, Structural, Hash)]
pub enum PatternType {
    Cubic,
    Hexagonal,
    Tetragonal,
    Orthorhombic,
    Monoclinic,
    Triclinic,
    Custom(u32),
}

impl Default for PatternType {
    fn default() -> (p: Self)
        ensures
            p == PatternType::Cubic,
    {
        PatternType::Cubic
    }
}

impl PatternType {
    /// The name under which the pattern is shown; a custom pattern shows its
    /// number in round brackets.
    pub open spec fn text(&self) -> Seq<char> {
        match self {
            PatternType::Cubic => "Cubic"@,
            PatternType::Hexagonal => "Hexagonal"@,
            PatternType::Tetragonal => "Tetragonal"@,
            PatternType::Orthorhombic => "Orthorhombic"@,
            PatternType::Monoclinic => "Monoclinic"@,
            PatternType::Triclinic => "Triclinic"@,
            PatternType::Custom(id) => "Custom("@ + decimal(*id as int) + ")"@,
        }
    }

    /// The name under which the pattern is shown.
    pub fn to_string(&self) -> (s: String)
        ensures
            s@ == self.text(),
    {
        match self {
            PatternType::Cubic => "Cubic".to_owned(),
            PatternType::Hexagonal => "Hexagonal".to_owned(),
            PatternType::Tetragonal => "Tetragonal".to_owned(),
            PatternType::Orthorhombic => "Orthorhombic".to_owned(),
            PatternType::Monoclinic => "Monoclinic".to_owned(),
            PatternType::Triclinic => "Triclinic".to_owned(),
            PatternType::Custom(id) => {
                let mut s = "Custom(".to_owned();
                push_decimal(&mut s, *id as i64);
                s.append(")");
                s
            },
        }
    }
}

} // verus!
