use vstd::prelude::*;

verus! {

/// What went wrong, by the layer that noticed it. Each textual payload is the
/// diagnostic of the collaborator that failed.
#[derive(Debug, Clone, PartialEq, Eq)]
pub enum ErrorType {
    /// A failure described by its message alone.
    Custom(String),
    /// The transport could not reach the given address.
    ReqwestBadUrl(String),
    /// The transport got a response whose body could not be read as text.
    ReqwestBadResponse(String),
    /// The document's first element names neither supported dialect.
    XmlBadFormat,
    /// The document did not decode against the dialect its root announced.
    XmlDeserialize(String),
    /// A store operation failed, or was asked of a model that is not open.
    Model(String),
    /// The store could not be opened.
    Db(String),
    /// An entity could not be obtained from its source.
    Entity(String),
}

/// Mathematical value of an [`ErrorType`].
pub enum ErrorTypeView {
    Custom(Seq<char>),
    ReqwestBadUrl(Seq<char>),
    ReqwestBadResponse(Seq<char>),
    XmlBadFormat,
    XmlDeserialize(Seq<char>),
    Model(Seq<char>),
    Db(Seq<char>),
    Entity(Seq<char>),
}

impl View for ErrorType {
    type V = ErrorTypeView;

    open spec fn view(&self) -> ErrorTypeView {
        match self {
            ErrorType::Custom(m) => ErrorTypeView::Custom(m@),
            ErrorType::ReqwestBadUrl(m) => ErrorTypeView::ReqwestBadUrl(m@),
            ErrorType::ReqwestBadResponse(m) => ErrorTypeView::ReqwestBadResponse(m@),
            ErrorType::XmlBadFormat => ErrorTypeView::XmlBadFormat,
            ErrorType::XmlDeserialize(m) => ErrorTypeView::XmlDeserialize(m@),
            ErrorType::Model(m) => ErrorTypeView::Model(m@),
            ErrorType::Db(m) => ErrorTypeView::Db(m@),
            ErrorType::Entity(m) => ErrorTypeView::Entity(m@),
        }
    }
}

/// The message carried by a model that is asked to work before it was opened.
pub open spec fn not_open_message() -> Seq<char> {
    "DB NOT OPEN"@
}

impl ErrorType {
    /// The failure of a model that holds no open connection.
    pub fn store_not_open() -> (kind: ErrorType)
        ensures
            kind@ == ErrorTypeView::Model(not_open_message()),
    {
        ErrorType::Model("DB NOT OPEN".to_owned())
    }

    /// A failed store operation, carrying the store's diagnostic.
    pub fn store_operation_failed(diagnostic: String) -> (kind: ErrorType)
        ensures
            kind@ == ErrorTypeView::Model(diagnostic@),
    {
        ErrorType::Model(diagnostic)
    }
}

/// The place in the program's source where an error was raised.
#[derive(Debug, Clone, PartialEq, Eq)]
pub struct ErrorContext {
    pub file: &'static str,
    pub line: u32,
    pub column: u32,
}

/// An error together with the place that raised it.
#[derive(Debug, Clone, PartialEq, Eq)]
pub struct Error {
    pub error: ErrorType,
    pub context: ErrorContext,
}

impl Error {
    pub fn new(error: ErrorType, file: &'static str, line: u32, column: u32) -> (made: Self)
        ensures
            made.error == error,
            made.context.file == file,
            made.context.line == line,
            made.context.column == column,
    {
        Self { error, context: ErrorContext { file, line, column } }
    }
}

} // verus!
