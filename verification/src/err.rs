use vstd::prelude::*;

verus! {

/// The ways an inbound wire frame can fail to parse, or arrive in an
/// unexpected shape. Every one of these is fatal to the session that
/// produced it.
#[derive(Debug)]
pub enum MessageError {
    /// The leading code field names no inbound message.
    InvalidCode,
    /// A trailing field followed a complete message.
    NoMoreDataExpected,
    /// A required field is missing; carries the field's name.
    MoreDataExpected(&'static str),
    /// The event field is neither "keyup" nor "keydown".
    InvalidTyp,
    /// The ping counter field is not an unsigned 32-bit number.
    CounterParseError,
    /// The key code field is not an unsigned 16-bit number.
    KeyCodeParseError,
    /// The transport delivered a frame that is neither text nor a close
    /// signal, or a message arrived in the wrong direction.
    UnexpectedMessageTyp,
}

/// The mathematical shape of a `MessageError`, with the field name as a
/// character sequence.
pub ghost enum ErrModel {
    InvalidCode,
    NoMoreDataExpected,
    MoreDataExpected(Seq<char>),
    InvalidTyp,
    CounterParseError,
    KeyCodeParseError,
    UnexpectedMessageTyp,
}

impl View for MessageError {
    type V = ErrModel;

    open spec fn view(&self) -> ErrModel {
        match self {
            MessageError::InvalidCode => ErrModel::InvalidCode,
            MessageError::NoMoreDataExpected => ErrModel::NoMoreDataExpected,
            MessageError::MoreDataExpected(m) => ErrModel::MoreDataExpected(m@),
            MessageError::InvalidTyp => ErrModel::InvalidTyp,
            MessageError::CounterParseError => ErrModel::CounterParseError,
            MessageError::KeyCodeParseError => ErrModel::KeyCodeParseError,
            MessageError::UnexpectedMessageTyp => ErrModel::UnexpectedMessageTyp,
        }
    }
}

} // verus!
