//! The errors that a dispatch can end in, and the message that each one is
//! reported with.

use vstd::prelude::*;
use vstd::string::StringExecFns;

verus! {

/// The part of a command that held a value outside its closed set.
#[derive(Clone, Copy, Debug, PartialEq, Eq, Structural)]
pub enum Argument {
    /// The button of a mouse command.
    MouseButton,
    /// The action of a mouse command.
    MouseAction,
    /// The button of a double click, which only the left button supports.
    DoubleClickButton,
    /// The action of a keyboard command.
    KeyboardAction,
    /// One of the modifiers of a keyboard command.
    Modifier,
    /// The key descriptor of a key press.
    Key,
}

/// Why a command was not carried out.
#[derive(Debug, PartialEq, Eq)]
pub enum CommandError {
    /// A value outside its closed set; `value` is the offending text.
    InvalidArgument { what: Argument, value: String },
    /// No session has the given identifier.
    NotFound,
    /// The identifier generated for a new session is already registered.
    DuplicateSession,
    /// The capture provider produced no image.
    CaptureUnavailable,
    /// The capture provider could not enumerate the displays.
    DisplayEnumerationFailed { detail: String },
    /// The captured image could not be encoded.
    EncodingFailure { detail: String },
}

/// The mathematical content of a [`CommandError`].
pub enum CommandErrorView {
    InvalidArgument { what: Argument, value: Seq<char> },
    NotFound,
    DuplicateSession,
    CaptureUnavailable,
    DisplayEnumerationFailed { detail: Seq<char> },
    EncodingFailure { detail: Seq<char> },
}

impl View for CommandError {
    type V = CommandErrorView;

    open spec fn view(&self) -> CommandErrorView {
        match *self {
            CommandError::InvalidArgument { what, value } => CommandErrorView::InvalidArgument {
                what,
                value: value@,
            },
            CommandError::NotFound => CommandErrorView::NotFound,
            CommandError::DuplicateSession => CommandErrorView::DuplicateSession,
            CommandError::CaptureUnavailable => CommandErrorView::CaptureUnavailable,
            CommandError::DisplayEnumerationFailed { detail } => {
                CommandErrorView::DisplayEnumerationFailed { detail: detail@ }
            },
            CommandError::EncodingFailure { detail } => CommandErrorView::EncodingFailure {
                detail: detail@,
            },
        }
    }
}

/// The text that introduces the offending value of an invalid argument.
pub open spec fn argument_label(what: Argument) -> Seq<char> {
    match what {
        Argument::MouseButton => "Botón de mouse no válido: "@,
        Argument::MouseAction => "Acción de mouse no válida: "@,
        Argument::DoubleClickButton => "Double click solo soportado para botón izquierdo: "@,
        Argument::KeyboardAction => "Acción de teclado no válida: "@,
        Argument::Modifier => "Modificador no válido: "@,
        Argument::Key => "Tecla no reconocida: "@,
    }
}

/// The message that an error is reported with: a fixed text, followed by
/// the offending value or the detail where the error carries one.
pub open spec fn error_message(error: CommandErrorView) -> Seq<char> {
    match error {
        CommandErrorView::InvalidArgument { what, value } => argument_label(what) + value,
        CommandErrorView::NotFound => "Sesión no encontrada"@,
        CommandErrorView::DuplicateSession => "Identificador de sesión duplicado"@,
        CommandErrorView::CaptureUnavailable => "Captura de pantalla no disponible"@,
        CommandErrorView::DisplayEnumerationFailed { detail } => "Error obteniendo pantallas: "@
            + detail,
        CommandErrorView::EncodingFailure { detail } => "Error codificando imagen: "@ + detail,
    }
}

impl Argument {
    /// The text that introduces the offending value.
    pub fn label(self) -> (text: &'static str)
        ensures
            text@ == argument_label(self),
    {
        match self {
            Argument::MouseButton => "Botón de mouse no válido: ",
            Argument::MouseAction => "Acción de mouse no válida: ",
            Argument::DoubleClickButton => "Double click solo soportado para botón izquierdo: ",
            Argument::KeyboardAction => "Acción de teclado no válida: ",
            Argument::Modifier => "Modificador no válido: ",
            Argument::Key => "Tecla no reconocida: ",
        }
    }
}

impl CommandError {
    /// The descriptive message that the caller is given for this error.
    pub fn message(&self) -> (text: String)
        ensures
            text@ == error_message(self@),
    {
        match self {
            CommandError::InvalidArgument { what, value } => {
                String::from_str(what.label()).concat(value.as_str())
            },
            CommandError::NotFound => String::from_str("Sesión no encontrada"),
            CommandError::DuplicateSession => String::from_str("Identificador de sesión duplicado"),
            CommandError::CaptureUnavailable => String::from_str(
                "Captura de pantalla no disponible",
            ),
            CommandError::DisplayEnumerationFailed { detail } => {
                String::from_str("Error obteniendo pantallas: ").concat(detail.as_str())
            },
            CommandError::EncodingFailure { detail } => {
                String::from_str("Error codificando imagen: ").concat(detail.as_str())
            },
        }
    }
}

} // verus!
