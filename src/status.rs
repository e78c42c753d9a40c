use vstd::prelude::*;

verus! {

/// Outcome kinds reported by host calls and by the bridge itself.
#[derive(PartialEq, Eq, Structural, Clone, Copy, Debug)]
pub enum Status {
    Success,
    InvalidArg,
    ObjectExpected,
    StringExpected,
    NameExpected,
    FunctionExpected,
    NumberExpected,
    BooleanExpected,
    ArrayExpected,
    GenericFailure,
    PendingException,
    Cancelled,
    EscapeCalledTwice,
    HandleScopeMismatch,
    CallbackScopeMismatch,
    QueueFull,
    Closing,
    BigintExpected,
    DateExpected,
    ArrayBufferExpected,
    DetachableArraybufferExpected,
    WouldDeadlock,
    NoExternalBuffersAllowed,
    CannotRunJs,
    Unknown,
}

/// The status that a raw host status code stands for.
pub open spec fn status_of_code(code: i32) -> Status {
    if code == 0 { Status::Success }
    else if code == 1 { Status::InvalidArg }
    else if code == 2 { Status::ObjectExpected }
    else if code == 3 { Status::StringExpected }
    else if code == 4 { Status::NameExpected }
    else if code == 5 { Status::FunctionExpected }
    else if code == 6 { Status::NumberExpected }
    else if code == 7 { Status::BooleanExpected }
    else if code == 8 { Status::ArrayExpected }
    else if code == 9 { Status::GenericFailure }
    else if code == 10 { Status::PendingException }
    else if code == 11 { Status::Cancelled }
    else if code == 12 { Status::EscapeCalledTwice }
    else if code == 13 { Status::HandleScopeMismatch }
    else if code == 14 { Status::CallbackScopeMismatch }
    else if code == 15 { Status::QueueFull }
    else if code == 16 { Status::Closing }
    else if code == 17 { Status::BigintExpected }
    else if code == 18 { Status::DateExpected }
    else if code == 19 { Status::ArrayBufferExpected }
    else if code == 20 { Status::DetachableArraybufferExpected }
    else if code == 21 { Status::WouldDeadlock }
    else if code == 22 { Status::NoExternalBuffersAllowed }
    else if code == 23 { Status::CannotRunJs }
    else { Status::Unknown }
}

impl Status {
    /// Maps a raw host status code to its status.
    pub fn from_code(code: i32) -> (r: Status)
        ensures
            r == status_of_code(code),
    {
        match code {
            0 => Status::Success,
            1 => Status::InvalidArg,
            2 => Status::ObjectExpected,
            3 => Status::StringExpected,
            4 => Status::NameExpected,
            5 => Status::FunctionExpected,
            6 => Status::NumberExpected,
            7 => Status::BooleanExpected,
            8 => Status::ArrayExpected,
            9 => Status::GenericFailure,
            10 => Status::PendingException,
            11 => Status::Cancelled,
            12 => Status::EscapeCalledTwice,
            13 => Status::HandleScopeMismatch,
            14 => Status::CallbackScopeMismatch,
            15 => Status::QueueFull,
            16 => Status::Closing,
            17 => Status::BigintExpected,
            18 => Status::DateExpected,
            19 => Status::ArrayBufferExpected,
            20 => Status::DetachableArraybufferExpected,
            21 => Status::WouldDeadlock,
            22 => Status::NoExternalBuffersAllowed,
            23 => Status::CannotRunJs,
            _ => Status::Unknown,
        }
    }
}

/// An error of the bridge or of a host call: its status and a reason.
#[derive(Debug)]
pub struct Error {
    pub status: Status,
    pub reason: String,
}

impl Error {
    pub fn new(status: Status, reason: String) -> (r: Error)
        ensures
            r.status == status,
            r.reason@ == reason@,
    {
        Error { status, reason }
    }

    pub fn from_reason(status: Status, reason: &str) -> (r: Error)
        ensures
            r.status == status,
            r.reason@ == reason@,
    {
        Error { status, reason: String::from_str(reason) }
    }
}

/// Turns the status code of a host call into a result: success exactly when
/// the code is the host's success code, else an error of the matching status
/// that carries `message`.
pub fn check_status(code: i32, message: &str) -> (r: Result<(), Error>)
    ensures
        r.is_ok() <==> code == 0,
        r matches Err(e) ==> e.status == status_of_code(code) && e.reason@ == message@,
{
    let status = Status::from_code(code);
    if status == Status::Success {
        Ok(())
    } else {
        Err(Error::from_reason(status, message))
    }
}

/// The reason of an error of a host call made for a class: the action, then
/// the class name in backquotes.
pub open spec fn class_reason(action: Seq<char>, class_name: Seq<char>) -> Seq<char> {
    action + " `"@ + class_name + "`"@
}

/// As `check_status`, for a host call made for the class `class_name`: the
/// error's reason is `action` followed by the class name in backquotes.
pub fn check_class_status(code: i32, action: &str, class_name: &str) -> (r: Result<(), Error>)
    ensures
        r.is_ok() <==> code == 0,
        r matches Err(e) ==> e.status == status_of_code(code) && e.reason@ == class_reason(
            action@,
            class_name@,
        ),
{
    if code == 0 {
        Ok(())
    } else {
        let reason = String::from_str(action).concat(" `").concat(class_name).concat("`");
        Err(Error::new(Status::from_code(code), reason))
    }
}

} // verus!
